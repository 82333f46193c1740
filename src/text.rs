use vstd::prelude::*;

verus! {

/// The 62 characters that generated text is drawn from: lower-case letters,
/// then upper-case letters, then digits.
pub open spec fn alnum_at(i: int) -> char {
    if i < 26 {
        ((97 + i) as u8) as char
    } else if i < 52 {
        ((65 + i - 26) as u8) as char
    } else {
        ((48 + i - 52) as u8) as char
    }
}

/// The character at position `i` of the alphanumeric alphabet.
pub fn alnum_char(i: u32) -> (c: char)
    requires
        i < 62,
    ensures
        c == alnum_at(i as int),
{
    if i < 26 {
        ((97 + i) as u8) as char
    } else if i < 52 {
        ((65 + i - 26) as u8) as char
    } else {
        ((48 + i - 52) as u8) as char
    }
}

/// Appends one character; relies on `String::push`.
#[verifier::external_body]
pub(crate) fn push_char(s: &mut String, c: char)
    ensures
        final(s)@ == old(s)@.push(c),
{
    s.push(c)
}

/// Appends a string slice; relies on `String::push_str`.
#[verifier::external_body]
pub(crate) fn push_text(s: &mut String, t: &str)
    ensures
        final(s)@ == old(s)@ + t@,
{
    s.push_str(t)
}


/// Whether `c` is one of the 62 characters of the alphabet.
pub open spec fn is_alnum(c: char) -> bool {
    exists|k: int| 0 <= k < 62 && c == #[trigger] alnum_at(k)
}

/// Alphanumeric text shorter than `limit` characters.
pub open spec fn is_alnum_text(s: Seq<char>, limit: int) -> bool {
    &&& s.len() < limit
    &&& forall|i: int| 0 <= i < s.len() ==> is_alnum(#[trigger] s[i])
}

/// No character of the alphabet is a quote, a comma or a parenthesis, so
/// generated text stands in a statement without escaping.
pub proof fn alnum_needs_no_escaping(c: char)
    requires
        is_alnum(c),
    ensures
        c != '\'',
        c != '"',
        c != ',',
        c != '(',
        c != ')',
{
    let k = choose|k: int| 0 <= k < 62 && c == #[trigger] alnum_at(k);
    assert(c as u32 >= 48);
}

/// The decimal digit character for `d < 10`.
pub open spec fn digit_at(d: int) -> char {
    ((48 + d) as u8) as char
}

/// The decimal rendering of `n`, without leading zeros.
pub open spec fn decimal_seq(n: nat) -> Seq<char>
    decreases n,
{
    if n < 10 {
        seq![digit_at(n as int)]
    } else {
        decimal_seq(n / 10).push(digit_at((n % 10) as int))
    }
}

/// The shortest decimal text of `a / 100`: `0`, `0.d` or `0.dd`.
pub open spec fn hundredths_seq(a: nat) -> Seq<char> {
    if a == 0 {
        seq!['0']
    } else if a % 10 == 0 {
        seq!['0', '.', digit_at((a / 10) as int)]
    } else {
        seq!['0', '.', digit_at((a / 10) as int), digit_at((a % 10) as int)]
    }
}

/// `true` or `false`.
pub open spec fn bool_seq(b: bool) -> Seq<char> {
    if b {
        seq!['t', 'r', 'u', 'e']
    } else {
        seq!['f', 'a', 'l', 's', 'e']
    }
}

/// The views of a sequence of strings.
pub open spec fn views(v: Seq<String>) -> Seq<Seq<char>> {
    Seq::new(v.len(), |i: int| v[i]@)
}

/// The parts separated by commas.
pub open spec fn join(parts: Seq<Seq<char>>) -> Seq<char>
    decreases parts.len(),
{
    if parts.len() == 0 {
        Seq::empty()
    } else if parts.len() == 1 {
        parts[0]
    } else {
        join(parts.drop_last()).push(',') + parts.last()
    }
}

/// One member of a generated JSON object: the quoted key, a colon and the index.
pub open spec fn json_member(key: Seq<char>, i: int) -> Seq<char> {
    seq!['"'] + key + seq!['"', ':'] + decimal_seq(i as nat)
}

/// The members for the first `n` keys, each valued by its index.
pub open spec fn json_members(keys: Seq<Seq<char>>, n: int) -> Seq<Seq<char>> {
    Seq::new(n as nat, |i: int| json_member(keys[i], i))
}

/// A flat JSON object whose `i`-th member has key `keys[i]` and value `i`.
pub open spec fn json_seq(keys: Seq<Seq<char>>) -> Seq<char> {
    seq!['{'] + join(json_members(keys, keys.len() as int)) + seq!['}']
}

/// Appends the decimal rendering of `n`.
pub fn push_decimal(s: &mut String, n: u32)
    ensures
        final(s)@ == old(s)@ + decimal_seq(n as nat),
    decreases n,
{
    if n >= 10 {
        push_decimal(s, n / 10);
    }
    push_char(s, ((48 + n % 10) as u8) as char);
    assert(final(s)@ =~= old(s)@ + decimal_seq(n as nat));
}

/// The decimal rendering of `n`.
pub fn decimal(n: u32) -> (r: String)
    ensures
        r@ == decimal_seq(n as nat),
{
    let mut s = String::new();
    push_decimal(&mut s, n);
    assert(s@ =~= decimal_seq(n as nat));
    s
}


/// The text of `a / 100` for a whole number `a` below one hundred.
pub fn hundredths(a: u32) -> (r: String)
    requires
        a < 100,
    ensures
        r@ == hundredths_seq(a as nat),
{
    let mut s = String::new();
    push_char(&mut s, '0');
    if a != 0 {
        push_char(&mut s, '.');
        push_char(&mut s, ((48 + a / 10) as u8) as char);
        if a % 10 != 0 {
            push_char(&mut s, ((48 + a % 10) as u8) as char);
        }
    }
    assert(s@ =~= hundredths_seq(a as nat));
    s
}

/// `true` or `false`, as text.
pub fn bool_text(b: bool) -> (r: String)
    ensures
        r@ == bool_seq(b),
{
    let mut s = String::new();
    if b {
        push_char(&mut s, 't');
        push_char(&mut s, 'r');
        push_char(&mut s, 'u');
        push_char(&mut s, 'e');
    } else {
        push_char(&mut s, 'f');
        push_char(&mut s, 'a');
        push_char(&mut s, 'l');
        push_char(&mut s, 's');
        push_char(&mut s, 'e');
    }
    assert(s@ =~= bool_seq(b));
    s
}

/// The text whose `i`-th character is the alphabet's character at `picks[i]`.
pub fn alnum_text(picks: &Vec<u32>) -> (r: String)
    requires
        forall|i: int| 0 <= i < picks.len() ==> #[trigger] picks[i] < 62,
    ensures
        r@ == picks@.map_values(|k: u32| alnum_at(k as int)),
{
    let mut s = String::new();
    let mut i: usize = 0;
    while i < picks.len()
        invariant
            i <= picks.len(),
            forall|j: int| 0 <= j < picks.len() ==> #[trigger] picks[j] < 62,
            s@ =~= picks@.take(i as int).map_values(|k: u32| alnum_at(k as int)),
        decreases picks.len() - i,
    {
        push_char(&mut s, alnum_char(picks[i]));
        i = i + 1;
        assert(s@ =~= picks@.take(i as int).map_values(|k: u32| alnum_at(k as int)));
    }
    assert(picks@.take(i as int) =~= picks@);
    s
}

/// Appends `parts` separated by commas.
pub fn push_joined(s: &mut String, parts: &Vec<String>)
    ensures
        final(s)@ == old(s)@ + join(views(parts@)),
{
    let ghost start = s@;
    let mut i: usize = 0;
    while i < parts.len()
        invariant
            i <= parts.len(),
            s@ == start + join(views(parts@.take(i as int))),
        decreases parts.len() - i,
    {
        let ghost before = parts@.take(i as int);
        if i > 0 {
            push_char(s, ',');
        }
        push_text(s, parts[i].as_str());
        i = i + 1;
        proof {
            let now = parts@.take(i as int);
            assert(views(now).drop_last() =~= views(before));
            assert(views(before).len() == 0 ==> join(views(before)) =~= Seq::<char>::empty());
        }
        assert(s@ =~= start + join(views(parts@.take(i as int))));
    }
    assert(parts@.take(i as int) =~= parts@);
}

/// A flat JSON object whose `i`-th member has key `keys[i]` and value `i`.
pub fn json_object(keys: &Vec<String>) -> (r: String)
    requires
        keys.len() <= 10,
    ensures
        r@ == json_seq(views(keys@)),
{
    let ghost ks = views(keys@);
    let mut members: Vec<String> = Vec::new();
    let mut i: usize = 0;
    while i < keys.len()
        invariant
            i <= keys.len() <= 10,
            ks == views(keys@),
            members.len() == i,
            views(members@) =~= json_members(ks, i as int),
        decreases keys.len() - i,
    {
        assert(ks[i as int] == keys@[i as int]@);
        let ghost prev = members@;
        let mut m = String::new();
        push_char(&mut m, '"');
        push_text(&mut m, keys[i].as_str());
        push_char(&mut m, '"');
        push_char(&mut m, ':');
        push_decimal(&mut m, i as u32);
        assert(m@ =~= json_member(ks[i as int], i as int));
        let ghost mv = m@;
        members.push(m);
        assert(members@ == prev.push(m));
        assert(views(members@)[i as int] == mv);
        assert forall|j: int| 0 <= j < i implies views(members@)[j] == json_members(ks, i + 1)[j] by {
            assert(views(prev)[j] == json_members(ks, i as int)[j]);
        }
        i = i + 1;
        assert(views(members@) =~= json_members(ks, i as int));
    }
    let mut r = String::new();
    push_char(&mut r, '{');
    push_joined(&mut r, &members);
    push_char(&mut r, '}');
    assert(r@ =~= json_seq(ks));
    r
}

} // verus!
