use vstd::prelude::*;

use crate::schema::{batch_seq, is_batch_for, Table};
use crate::typed_generator::generator::Generator;

verus! {

/// What the load loop asks of its connection next.
pub enum LoadStep {
    /// Run this insert statement and report how many rows it added.
    Execute(String),
    /// The target is reached, or there is nothing to insert: stop.
    Done,
}

/// Whether a loop with `remaining` rows to go and batches of `batch` rows stops.
pub open spec fn finished(remaining: u64, batch: u32) -> bool {
    remaining == 0 || batch == 0
}

/// The rows still owed after a statement's outcome: `None` for a failed
/// statement, which counts as no rows; a count at or above what is owed
/// leaves nothing.
pub open spec fn remaining_after_spec(remaining: u64, outcome: Option<u64>) -> u64 {
    match outcome {
        Some(n) => if n >= remaining {
            0
        } else {
            (remaining - n) as u64
        },
        None => remaining,
    }
}

/// The rows still owed after a run of outcomes, in order.
pub open spec fn remaining_after_all(remaining: u64, outcomes: Seq<Option<u64>>) -> u64
    decreases outcomes.len(),
{
    if outcomes.len() == 0 {
        remaining
    } else {
        remaining_after_spec(remaining_after_all(remaining, outcomes.drop_last()), outcomes.last())
    }
}

/// The rows still owed after a statement's outcome.
pub fn remaining_after(remaining: u64, outcome: Option<u64>) -> (r: u64)
    ensures
        r == remaining_after_spec(remaining, outcome),
{
    match outcome {
        Some(n) => if n >= remaining {
            0
        } else {
            remaining - n
        },
        None => remaining,
    }
}

/// The state of one worker's load loop: the table, the batch size, the rows
/// still owed and the worker's own generator.
pub struct Loader {
    pub table: Table,
    pub batch: u32,
    pub remaining: u64,
    pub generator: Generator,
}

impl Loader {
    /// A loop that owes `rows` rows of `table`, in batches of `batch`.
    pub fn new(table: Table, rows: u32, batch: u32, generator: Generator) -> (r: Loader)
        ensures
            r.table == table,
            r.batch == batch,
            r.remaining == rows,
    {
        Loader { table, batch, remaining: rows as u64, generator }
    }

    /// Whether the loop stops.
    pub fn is_done(&self) -> (r: bool)
        ensures
            r == finished(self.remaining, self.batch),
    {
        self.remaining == 0 || self.batch == 0
    }

    /// The next step: while rows are owed, a statement of one batch of random
    /// tuples; else `Done`. The count of rows owed is left as it is.
    pub fn next_step(&mut self) -> (r: LoadStep)
        requires
            old(self).table.wf(),
        ensures
            final(self).table == old(self).table,
            final(self).batch == old(self).batch,
            final(self).remaining == old(self).remaining,
            r is Done <==> finished(old(self).remaining, old(self).batch),
            match r {
                LoadStep::Execute(s) => exists|rows: Seq<Seq<Seq<char>>>|
                    is_batch_for(old(self).table.tids@, rows, old(self).batch as int) && s@
                        == #[trigger] batch_seq(old(self).table, rows),
                LoadStep::Done => true,
            },
    {
        if self.is_done() {
            LoadStep::Done
        } else {
            LoadStep::Execute(self.table.generate_insertbatch(self.batch, &mut self.generator))
        }
    }

    /// Takes in the outcome of the last statement: the rows it added, or
    /// `None` where it failed.
    pub fn record(&mut self, outcome: Option<u64>)
        ensures
            final(self).table == old(self).table,
            final(self).batch == old(self).batch,
            final(self).remaining == remaining_after_spec(old(self).remaining, outcome),
    {
        self.remaining = remaining_after(self.remaining, outcome);
    }
}

/// A loop that owes no rows issues no statement: its first step is `Done`.
pub proof fn zero_target_issues_nothing(batch: u32)
    ensures
        finished(0, batch),
{
}

/// Statements that fail, or add no rows, leave the count owed as it was: a
/// loop whose every statement does so never stops.
pub proof fn no_progress_without_rows(remaining: u64, batch: u32, outcomes: Seq<Option<u64>>)
    requires
        !finished(remaining, batch),
        forall|i: int| 0 <= i < outcomes.len() ==> (#[trigger] outcomes[i] is None || outcomes[i] == Some(0u64)),
    ensures
        remaining_after_all(remaining, outcomes) == remaining,
        !finished(remaining_after_all(remaining, outcomes), batch),
    decreases outcomes.len(),
{
    if outcomes.len() > 0 {
        let init = outcomes.drop_last();
        assert forall|i: int| 0 <= i < init.len() implies (#[trigger] init[i] is None || init[i] == Some(0u64)) by {
            assert(init[i] == outcomes[i]);
        }
        no_progress_without_rows(remaining, batch, init);
        assert(outcomes.last() == outcomes[outcomes.len() - 1]);
    }
}

/// Each statement that adds rows brings the count owed down by as many, to
/// no less than zero.
pub proof fn rows_added_are_counted(remaining: u64, n: u64)
    ensures
        remaining_after_spec(remaining, Some(n)) == if n >= remaining { 0 } else { remaining - n },
        remaining_after_spec(remaining, Some(n)) <= remaining,
{
}

} // verus!
