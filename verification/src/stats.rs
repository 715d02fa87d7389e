//! The counters of one run: how many files there are, and how many of them
//! ended as a success, as skipped and as failed.

use vstd::prelude::*;
use crate::converter::Outcome;

verus! {

/// The four counters as numbers.
pub struct Counts {
    pub total: nat,
    pub success: nat,
    pub skipped: nat,
    pub failed: nat,
}

/// The counters of one run. Every counter only ever goes up by one at a
/// time, and past the machine's largest number it starts again at zero.
#[derive(Debug, PartialEq, Eq)]
pub struct Stats {
    total: usize,
    success: usize,
    failed: usize,
    skipped: usize,
}

/// The counter `n` after one more file.
pub open spec fn bump(n: nat) -> nat {
    if n < usize::MAX {
        n + 1
    } else {
        0
    }
}

impl Counts {
    /// The counters before any file has ended.
    pub open spec fn start(total: nat) -> Counts {
        Counts { total, success: 0, skipped: 0, failed: 0 }
    }

    /// The number of files that have ended.
    pub open spec fn processed(self) -> nat {
        self.success + self.skipped + self.failed
    }

    /// The counters after one more file has ended with `outcome`.
    pub open spec fn record(self, outcome: Outcome) -> Counts {
        match outcome {
            Outcome::Success => Counts { success: bump(self.success), ..self },
            Outcome::Skipped => Counts { skipped: bump(self.skipped), ..self },
            Outcome::Failed(_) => Counts { failed: bump(self.failed), ..self },
        }
    }

    /// The counters after the files have ended with `outcomes`, one after
    /// the other.
    pub open spec fn record_all(self, outcomes: Seq<Outcome>) -> Counts
        decreases outcomes.len(),
    {
        if outcomes.len() == 0 {
            self
        } else {
            self.record_all(outcomes.drop_last()).record(outcomes.last())
        }
    }
}

impl View for Stats {
    type V = Counts;

    closed spec fn view(&self) -> Counts {
        Counts {
            total: self.total as nat,
            success: self.success as nat,
            skipped: self.skipped as nat,
            failed: self.failed as nat,
        }
    }
}

impl Stats {
    /// The counters of a run over `total` files, of which none has ended.
    pub fn new(total: usize) -> (r: Stats)
        ensures
            r@ == Counts::start(total as nat),
    {
        Stats { total, success: 0, failed: 0, skipped: 0 }
    }

    /// Counts one more success.
    pub fn inc_success(&mut self)
        ensures
            final(self)@ == old(self)@.record(Outcome::Success),
        no_unwind
    {
        self.success = Self::next(self.success);
    }

    /// Counts one more failure.
    pub fn inc_failed(&mut self)
        ensures
            final(self)@ == (Counts { failed: bump(old(self)@.failed), ..old(self)@ }),
        no_unwind
    {
        self.failed = Self::next(self.failed);
    }

    /// Counts one more skipped file.
    pub fn inc_skipped(&mut self)
        ensures
            final(self)@ == old(self)@.record(Outcome::Skipped),
        no_unwind
    {
        self.skipped = Self::next(self.skipped);
    }

    /// Counts one more file under the counter that its outcome names, and
    /// under no other.
    pub fn record(&mut self, outcome: &Outcome)
        ensures
            final(self)@ == old(self)@.record(*outcome),
        no_unwind
    {
        match outcome {
            Outcome::Success => self.inc_success(),
            Outcome::Skipped => self.inc_skipped(),
            Outcome::Failed(_) => self.inc_failed(),
        }
    }

    /// The counters, in the order total, success, skipped, failed.
    pub fn get_counts(&self) -> (r: (usize, usize, usize, usize))
        ensures
            r.0 == self@.total,
            r.1 == self@.success,
            r.2 == self@.skipped,
            r.3 == self@.failed,
    {
        (self.total, self.success, self.skipped, self.failed)
    }

    fn next(n: usize) -> (r: usize)
        ensures
            r == bump(n as nat),
        no_unwind
    {
        if n == usize::MAX {
            0
        } else {
            n + 1
        }
    }
}

/// The number of outcomes in `outcomes` that are a success.
pub open spec fn successes(outcomes: Seq<Outcome>) -> nat {
    outcomes.filter(|o: Outcome| o is Success).len()
}

/// The number of outcomes in `outcomes` that are skipped.
pub open spec fn skips(outcomes: Seq<Outcome>) -> nat {
    outcomes.filter(|o: Outcome| o is Skipped).len()
}

/// The number of outcomes in `outcomes` that are a failure.
pub open spec fn failures(outcomes: Seq<Outcome>) -> nat {
    outcomes.filter(|o: Outcome| o is Failed).len()
}

/// Every file that ends is counted exactly once: after any number of files
/// that fits the machine's numbers, each counter holds the number of files
/// that ended that way, and the three of them add up to the number of files
/// that have ended. The total is never touched.
pub proof fn lemma_counters_are_conserved(total: nat, outcomes: Seq<Outcome>)
    requires
        outcomes.len() <= usize::MAX,
    ensures
        Counts::start(total).record_all(outcomes).success == successes(outcomes),
        Counts::start(total).record_all(outcomes).skipped == skips(outcomes),
        Counts::start(total).record_all(outcomes).failed == failures(outcomes),
        Counts::start(total).record_all(outcomes).processed() == outcomes.len(),
        Counts::start(total).record_all(outcomes).total == total,
    decreases outcomes.len(),
{
    reveal(Seq::filter);
    if outcomes.len() > 0 {
        let before = outcomes.drop_last();
        lemma_counters_are_conserved(total, before);
        assert(outcomes == before.push(outcomes.last()));
    }
}

/// The order in which two files end does not show in the counters.
pub proof fn lemma_order_is_irrelevant(counts: Counts, first: Outcome, second: Outcome)
    ensures
        counts.record(first).record(second) == counts.record(second).record(first),
{
}

} // verus!
