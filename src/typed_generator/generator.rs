use chrono::{DateTime, Utc};
use rand::rngs::StdRng;
use rand::{Rng, RngCore, SeedableRng};
use vstd::prelude::*;

use crate::text::{
    alnum_at, alnum_text, bool_seq, bool_text, decimal, decimal_seq, hundredths, hundredths_seq,
    is_alnum, is_alnum_text, json_object, json_seq, views,
};

verus! {

#[verifier::external_type_specification]
#[verifier::external_body]
pub struct ExStdRng(StdRng);

/// Relies on `SeedableRng::from_entropy`: a generator seeded by the operating system.
#[verifier::external_body]
fn entropy_rng() -> StdRng {
    StdRng::from_entropy()
}

/// Relies on `SeedableRng::seed_from_u64`: a generator fixed by `seed`.
#[verifier::external_body]
fn seeded_rng(seed: u64) -> StdRng {
    StdRng::seed_from_u64(seed)
}

/// Relies on `Rng::gen_range` over `lo..hi`: it panics on an empty range and
/// otherwise returns a value of the range.
#[verifier::external_body]
fn draw_range(rng: &mut StdRng, lo: u32, hi: u32) -> (r: u32)
    requires
        lo < hi,
    ensures
        lo <= r < hi,
{
    rng.gen_range(lo..hi)
}

/// Relies on `RngCore::next_u32`: any 32-bit value.
#[verifier::external_body]
fn draw_u32(rng: &mut StdRng) -> u32 {
    rng.next_u32()
}

/// Relies on `Rng::gen_ratio`: `true` with probability `num / den`; it panics
/// when `den` is zero or `num` exceeds `den`, always answers `true` when they
/// are equal and never when `num` is zero.
#[verifier::external_body]
fn draw_ratio(rng: &mut StdRng, num: u32, den: u32) -> (r: bool)
    requires
        0 < den,
        num <= den,
    ensures
        num == den ==> r,
        num == 0 ==> !r,
{
    rng.gen_ratio(num, den)
}

/// What `DateTime::<Utc>::from_timestamp(secs, 0)` formatted with `pattern`
/// reads, or `None` where the instant is out of chrono's range.
pub uninterp spec fn utc_render(secs: int, pattern: Seq<char>) -> Option<Seq<char>>;

/// Relies on `Utc::now` and `DateTime::timestamp`: the current time in whole
/// seconds since the Unix epoch.
#[verifier::external_body]
fn now_seconds() -> i64 {
    Utc::now().timestamp()
}

/// Relies on `DateTime::from_timestamp` and `DateTime::format`: the UTC instant
/// `secs` seconds after the Unix epoch, rendered with `pattern`.
#[verifier::external_body]
fn utc_text(secs: i64, pattern: &str) -> (r: Option<String>)
    requires
        pattern@ == timestamp_pattern(),
    ensures
        match r {
            Some(s) => utc_render(secs as int, pattern@) == Some(s@),
            None => utc_render(secs as int, pattern@) is None,
        },
{
    match DateTime::<Utc>::from_timestamp(secs, 0) {
        Some(d) => Some(d.format(pattern).to_string()),
        None => None,
    }
}

/// The layout of generated timestamps: `YYYY-MM-DDTHH:MM:SSZ`.
pub open spec fn timestamp_pattern() -> Seq<char> {
    "%Y-%m-%dT%H:%M:%SZ"@
}

/// How far generated timestamps lie in the past: 48 hours, in seconds.
pub const TIMESTAMP_LAG: i64 = 172800;

/// The timestamp text for `now` seconds since the epoch: the instant 48 hours
/// earlier, or `None` where that instant cannot be rendered.
pub open spec fn lagged_timestamp(now: int) -> Option<Seq<char>> {
    if now - TIMESTAMP_LAG < i64::MIN {
        None
    } else {
        utc_render(now - TIMESTAMP_LAG, timestamp_pattern())
    }
}

/// Decimal text of a whole number below 1000.
pub open spec fn is_int_text(s: Seq<char>) -> bool {
    exists|n: nat| n < 1000 && s == #[trigger] decimal_seq(n)
}

/// Decimal text of `a / 100` for a whole `a` below 99.
pub open spec fn is_float_text(s: Seq<char>) -> bool {
    exists|a: nat| a < 99 && s == #[trigger] hundredths_seq(a)
}

/// `true` or `false`.
pub open spec fn is_bool_text(s: Seq<char>) -> bool {
    s == bool_seq(true) || s == bool_seq(false)
}

/// A generated timestamp: what some instant renders to, or empty where the
/// clock gave an instant that cannot be rendered.
pub open spec fn is_time_text(s: Seq<char>) -> bool {
    s.len() == 0 || exists|now: int| lagged_timestamp(now) == Some(s)
}

/// The keys of a generated JSON object: ten alphanumeric texts of at most two characters.
pub open spec fn is_json_keys(keys: Seq<Seq<char>>) -> bool {
    &&& keys.len() == 10
    &&& forall|i: int| 0 <= i < 10 ==> is_alnum_text(#[trigger] keys[i], 3)
}

/// A generated JSON object: ten members with short alphanumeric keys, valued 0 to 9 in order.
pub open spec fn is_json_text(s: Seq<char>) -> bool {
    exists|keys: Seq<Seq<char>>| is_json_keys(keys) && s == #[trigger] json_seq(keys)
}

/// The timestamp text for `now` seconds since the epoch: the instant 48 hours
/// earlier as `YYYY-MM-DDTHH:MM:SSZ`, or empty where that cannot be rendered.
pub fn timestamp_text(now: i64) -> (r: String)
    ensures
        r@ == match lagged_timestamp(now as int) {
            Some(t) => t,
            None => Seq::empty(),
        },
{
    if now < i64::MIN + TIMESTAMP_LAG {
        return String::new();
    }
    match utc_text(now - TIMESTAMP_LAG, "%Y-%m-%dT%H:%M:%SZ") {
        Some(s) => s,
        None => String::new(),
    }
}

/// A source of random column values.
pub struct Generator {
    rng: StdRng,
}

impl Generator {
    /// A generator seeded by the operating system.
    pub fn new() -> Generator {
        Generator { rng: entropy_rng() }
    }

    /// A generator whose values are fixed by `seed`.
    pub fn from_seed(seed: u64) -> Generator {
        Generator { rng: seeded_rng(seed) }
    }

    /// Alphanumeric text of a random length below `maxlength`.
    pub fn get_text(&mut self, maxlength: i32, _tid: &u32) -> (r: String)
        requires
            maxlength > 0,
        ensures
            is_alnum_text(r@, maxlength as int),
    {
        let len = draw_range(&mut self.rng, 0, maxlength as u32);
        let mut picks: Vec<u32> = Vec::new();
        let mut i: u32 = 0;
        while i < len
            invariant
                i <= len,
                picks.len() == i,
                forall|j: int| 0 <= j < picks.len() ==> #[trigger] picks[j] < 62,
            decreases len - i,
        {
            picks.push(draw_range(&mut self.rng, 0, 62));
            i = i + 1;
        }
        let r = alnum_text(&picks);
        assert forall|j: int| 0 <= j < r@.len() implies is_alnum(#[trigger] r@[j]) by {
            assert(r@[j] == alnum_at(picks[j] as int));
        }
        r
    }

    /// A whole number below 1000, as decimal text.
    pub fn get_int(&mut self, _tid: &u32) -> (r: String)
        ensures
            is_int_text(r@),
    {
        let n = draw_u32(&mut self.rng) % 1000;
        let r = decimal(n);
        assert(r@ == decimal_seq(n as nat));
        r
    }

    /// A number from 0.00 up to 0.98 in steps of 0.01, as decimal text.
    pub fn get_float(&mut self, _tid: &u32) -> (r: String)
        ensures
            is_float_text(r@),
    {
        let a = draw_range(&mut self.rng, 0, 99);
        let r = hundredths(a);
        assert(r@ == hundredths_seq(a as nat));
        r
    }

    /// `true` or `false`, each with even chance.
    pub fn get_bool(&mut self, _tid: &u32) -> (r: String)
        ensures
            is_bool_text(r@),
    {
        bool_text(draw_ratio(&mut self.rng, 1, 2))
    }

    /// The instant 48 hours before now, as `YYYY-MM-DDTHH:MM:SSZ`.
    pub fn get_time(&mut self, _tid: &u32) -> (r: String)
        ensures
            is_time_text(r@),
    {
        let now = now_seconds();
        let r = timestamp_text(now);
        assert(r@.len() == 0 || lagged_timestamp(now as int) == Some(r@));
        r
    }

    /// A flat JSON object of ten members, keyed by random short texts and
    /// valued 0 to 9 in order.
    pub fn get_json(&mut self, tid: &u32) -> (r: String)
        ensures
            is_json_text(r@),
    {
        let mut keys: Vec<String> = Vec::new();
        let mut i: usize = 0;
        while i < 10
            invariant
                i <= 10,
                keys.len() == i,
                forall|j: int| 0 <= j < i ==> is_alnum_text(#[trigger] keys[j]@, 3),
            decreases 10 - i,
        {
            let k = self.get_text(3, tid);
            keys.push(k);
            i = i + 1;
        }
        let r = json_object(&keys);
        assert forall|j: int| 0 <= j < 10 implies is_alnum_text(#[trigger] views(keys@)[j], 3) by {
            assert(views(keys@)[j] == keys[j]@);
        }
        assert(is_json_keys(views(keys@)));
        r
    }
}

impl Default for Generator {
    fn default() -> Generator {
        Generator::new()
    }
}

} // verus!
