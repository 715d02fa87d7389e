//! The fan-out of one run: which file is started next, and when nothing can
//! be started because every worker is busy. The scheduler hands out places
//! in the list of files and counts what comes back; running the files is
//! left to the caller.

use vstd::prelude::*;
use vstd::set_lib::*;
use crate::converter::Outcome;
use crate::stats::{Counts, Stats};

verus! {

/// An admission gate as numbers: how many slots it has, and how many are held.
pub struct GateView {
    pub capacity: nat,
    pub held: nat,
}

impl GateView {
    /// A gate has at least one slot and never hands out more than it has.
    pub open spec fn wf(self) -> bool {
        1 <= self.capacity && self.held <= self.capacity
    }
}

/// A counting gate that bounds how many files are handled at once.
#[derive(Debug, PartialEq, Eq)]
pub struct AdmissionGate {
    capacity: usize,
    held: usize,
}

impl View for AdmissionGate {
    type V = GateView;

    closed spec fn view(&self) -> GateView {
        GateView { capacity: self.capacity as nat, held: self.held as nat }
    }
}

/// The number of slots of a gate made for `workers` workers: at least one.
pub open spec fn slots_for(workers: nat) -> nat {
    if workers == 0 {
        1
    } else {
        workers
    }
}

impl AdmissionGate {
    #[verifier::type_invariant]
    closed spec fn inv(self) -> bool {
        self@.wf()
    }

    /// A gate with one slot per worker, and one slot where no worker is
    /// asked for. No slot is held.
    pub fn new(workers: usize) -> (r: AdmissionGate)
        ensures
            r@ == (GateView { capacity: slots_for(workers as nat), held: 0 }),
    {
        AdmissionGate {
            capacity: if workers == 0 {
                1
            } else {
                workers
            },
            held: 0,
        }
    }

    /// Takes a slot if one is free, and says whether it did.
    pub fn try_acquire(&mut self) -> (granted: bool)
        ensures
            old(self)@.wf(),
            final(self)@.wf(),
            granted == (old(self)@.held < old(self)@.capacity),
            final(self)@.capacity == old(self)@.capacity,
            final(self)@.held == old(self)@.held + (if granted {
                1nat
            } else {
                0nat
            }),
        no_unwind
    {
        proof {
            use_type_invariant(&*self);
        }
        if self.held < self.capacity {
            self.held = self.held + 1;
            true
        } else {
            false
        }
    }

    /// Gives a slot back if one is held, and says whether it did.
    pub fn release(&mut self) -> (released: bool)
        ensures
            old(self)@.wf(),
            final(self)@.wf(),
            released == (old(self)@.held > 0),
            final(self)@.capacity == old(self)@.capacity,
            final(self)@.held == old(self)@.held - (if released {
                1nat
            } else {
                0nat
            }),
        no_unwind
    {
        proof {
            use_type_invariant(&*self);
        }
        if self.held > 0 {
            self.held = self.held - 1;
            true
        } else {
            false
        }
    }

    /// The number of slots.
    pub fn capacity(&self) -> (r: usize)
        ensures
            r == self@.capacity,
            self@.wf(),
    {
        proof {
            use_type_invariant(self);
        }
        self.capacity
    }

    /// The number of slots that are held.
    pub fn held(&self) -> (r: usize)
        ensures
            r == self@.held,
            self@.wf(),
    {
        proof {
            use_type_invariant(self);
        }
        self.held
    }
}

/// Where a run stands, as numbers.
pub struct Progress {
    /// The number of files of the run.
    pub total: nat,
    /// The number of files that may be handled at once.
    pub capacity: nat,
    /// The number of files that were started.
    pub started: nat,
    /// The number of files that were started and have not ended.
    pub running: nat,
    /// The number of files whose handling ended abnormally, without an
    /// outcome. They are counted here and under no counter.
    pub abandoned: nat,
    /// What the files that ended with an outcome were counted as.
    pub counts: Counts,
}

/// What happens in a run: a file is started, a file ends with an outcome, or
/// the handling of a file ends abnormally.
pub enum Step {
    Start,
    Complete(Outcome),
    Abandon,
}

impl Progress {
    /// A run of `total` files with `workers` workers, before the first file
    /// is started.
    pub open spec fn initial(total: nat, workers: nat) -> Progress {
        Progress {
            total,
            capacity: slots_for(workers),
            started: 0,
            running: 0,
            abandoned: 0,
            counts: Counts::start(total),
        }
    }

    /// What holds of a run at every moment: no more files run than there are
    /// workers, every started file either runs, was counted exactly once or
    /// was abandoned, and no file is started that is not in the list.
    pub open spec fn wf(self) -> bool {
        &&& 1 <= self.capacity
        &&& self.running <= self.capacity
        &&& self.started <= self.total <= usize::MAX
        &&& self.counts.total == self.total
        &&& self.counts.processed() + self.abandoned + self.running == self.started
    }

    /// Whether a file can be started: one is left, and a worker is free.
    pub open spec fn can_start(self) -> bool {
        self.started < self.total && self.running < self.capacity
    }

    /// Whether the run is over: every file was started and has ended.
    pub open spec fn is_finished(self) -> bool {
        self.started == self.total && self.running == 0
    }

    /// The run after the next file was started.
    pub open spec fn start(self) -> Progress {
        Progress { started: self.started + 1, running: self.running + 1, ..self }
    }

    /// The run after one of the running files ended with `outcome`.
    pub open spec fn complete(self, outcome: Outcome) -> Progress {
        Progress {
            running: (self.running - 1) as nat,
            counts: self.counts.record(outcome),
            ..self
        }
    }

    /// The run after the handling of one of the running files ended
    /// abnormally: its slot is free again, and no counter moves.
    pub open spec fn abandon(self) -> Progress {
        Progress {
            running: (self.running - 1) as nat,
            abandoned: self.abandoned + 1,
            ..self
        }
    }

    /// The run after `step`. A step that cannot be taken changes nothing: no
    /// file is started while every worker is busy, and none ends that does
    /// not run.
    pub open spec fn apply(self, step: Step) -> Progress {
        match step {
            Step::Start => if self.can_start() {
                self.start()
            } else {
                self
            },
            Step::Complete(outcome) => if self.running > 0 {
                self.complete(outcome)
            } else {
                self
            },
            Step::Abandon => if self.running > 0 {
                self.abandon()
            } else {
                self
            },
        }
    }

    /// The run after `steps`, one after the other.
    pub open spec fn apply_all(self, steps: Seq<Step>) -> Progress
        decreases steps.len(),
    {
        if steps.len() == 0 {
            self
        } else {
            self.apply_all(steps.drop_last()).apply(steps.last())
        }
    }
}

/// What the scheduler asks of its caller.
#[derive(Debug, Clone, Copy, PartialEq, Eq, Structural)]
pub enum Dispatch {
    /// Start the file at this place in the list.
    Start(usize),
    /// Every worker is busy, or the last files are still running: wait for
    /// one to end.
    Wait,
    /// Every file has ended.
    Finished,
}

/// The scheduler of one run.
#[derive(Debug, PartialEq, Eq)]
pub struct Scheduler {
    total: usize,
    gate: AdmissionGate,
    abandoned: usize,
    stats: Stats,
}

impl View for Scheduler {
    type V = Progress;

    closed spec fn view(&self) -> Progress {
        Progress {
            total: self.total as nat,
            capacity: self.gate@.capacity,
            started: self.stats@.processed() + self.abandoned as nat + self.gate@.held,
            running: self.gate@.held,
            abandoned: self.abandoned as nat,
            counts: self.stats@,
        }
    }
}

impl Scheduler {
    #[verifier::type_invariant]
    closed spec fn inv(self) -> bool {
        self@.wf()
    }

    /// The scheduler of a run of `total` files with `workers` workers.
    pub fn new(total: usize, workers: usize) -> (r: Scheduler)
        ensures
            r@ == Progress::initial(total as nat, workers as nat),
    {
        Scheduler {
            total,
            gate: AdmissionGate::new(workers),
            abandoned: 0,
            stats: Stats::new(total),
        }
    }

    /// Says what is due. Where a file is left and a worker is free, the file
    /// is admitted and its place in the list is handed out; places are handed
    /// out from the first on, each once.
    pub fn next(&mut self) -> (r: Dispatch)
        ensures
            old(self)@.wf(),
            final(self)@.wf(),
            match r {
                Dispatch::Start(i) => old(self)@.can_start() && i == old(self)@.started
                    && final(self)@ == old(self)@.start(),
                Dispatch::Wait => !old(self)@.can_start() && old(self)@.running > 0
                    && final(self)@ == old(self)@,
                Dispatch::Finished => old(self)@.is_finished() && final(self)@ == old(self)@,
            },
    {
        proof {
            use_type_invariant(&*self);
        }
        let (_, success, skipped, failed) = self.stats.get_counts();
        let started: usize = success + skipped + failed + self.abandoned + self.gate.held();
        if started < self.total {
            if self.gate.try_acquire() {
                Dispatch::Start(started)
            } else {
                Dispatch::Wait
            }
        } else if self.gate.held() > 0 {
            Dispatch::Wait
        } else {
            Dispatch::Finished
        }
    }

    /// Takes note that a running file has ended: its slot is given back and
    /// its outcome is counted. Says whether a file was running; where none
    /// was, nothing changes.
    pub fn complete(&mut self, outcome: &Outcome) -> (r: bool)
        ensures
            old(self)@.wf(),
            final(self)@.wf(),
            r == (old(self)@.running > 0),
            final(self)@ == old(self)@.apply(Step::Complete(*outcome)),
    {
        proof {
            use_type_invariant(&*self);
        }
        if self.gate.release() {
            self.stats.record(outcome);
            true
        } else {
            false
        }
    }

    /// Takes note that the handling of a running file ended abnormally,
    /// without an outcome: its slot is given back, the file is counted as
    /// abandoned, and no counter moves. Says whether a file was running;
    /// where none was, nothing changes. The other files go on, and a run
    /// with an abandoned file still comes to its end.
    pub fn abandon(&mut self) -> (r: bool)
        ensures
            old(self)@.wf(),
            final(self)@.wf(),
            r == (old(self)@.running > 0),
            final(self)@ == old(self)@.apply(Step::Abandon),
    {
        proof {
            use_type_invariant(&*self);
        }
        if self.gate.release() {
            self.abandoned = self.abandoned + 1;
            true
        } else {
            false
        }
    }

    /// The number of files whose handling ended abnormally. A run in which
    /// this is not zero has failed as a whole, whatever its counters say.
    pub fn abandoned(&self) -> (r: usize)
        ensures
            r == self@.abandoned,
            self@.wf(),
    {
        proof {
            use_type_invariant(self);
        }
        self.abandoned
    }

    /// The number of files that are running.
    pub fn running(&self) -> (r: usize)
        ensures
            r == self@.running,
            self@.wf(),
    {
        proof {
            use_type_invariant(self);
        }
        self.gate.held()
    }

    /// Whether every file has ended.
    pub fn is_finished(&self) -> (r: bool)
        ensures
            r == self@.is_finished(),
            self@.wf(),
    {
        proof {
            use_type_invariant(self);
        }
        let (_, success, skipped, failed) = self.stats.get_counts();
        success + skipped + failed + self.abandoned == self.total && self.gate.held() == 0
    }

    /// The counters of the run.
    pub fn stats(&self) -> (r: &Stats)
        ensures
            r@ == self@.counts,
    {
        &self.stats
    }
}

/// A run that has not begun is well-formed, whatever the number of workers.
pub proof fn lemma_initial_wf(total: nat, workers: nat)
    requires
        total <= usize::MAX,
    ensures
        Progress::initial(total, workers).wf(),
{
}

/// No step breaks what holds of a run.
pub proof fn lemma_step_preserves_wf(progress: Progress, step: Step)
    requires
        progress.wf(),
    ensures
        progress.apply(step).wf(),
{
}

/// Whatever happens in a run, and in whatever order, at no moment do more
/// files run than there are workers, and the files counted, the files
/// abandoned and the files running are the files that were started.
pub proof fn lemma_run_is_bounded_and_conserving(total: nat, workers: nat, steps: Seq<Step>)
    requires
        total <= usize::MAX,
    ensures
        Progress::initial(total, workers).apply_all(steps).wf(),
        Progress::initial(total, workers).apply_all(steps).running <= slots_for(workers),
        workers >= 1 ==> Progress::initial(total, workers).apply_all(steps).running <= workers,
        Progress::initial(total, workers).apply_all(steps).counts.processed() + Progress::initial(
            total,
            workers,
        ).apply_all(steps).abandoned + Progress::initial(total, workers).apply_all(steps).running
            == Progress::initial(total, workers).apply_all(steps).started,
    decreases steps.len(),
{
    if steps.len() > 0 {
        lemma_run_is_bounded_and_conserving(total, workers, steps.drop_last());
        lemma_step_preserves_wf(
            Progress::initial(total, workers).apply_all(steps.drop_last()),
            steps.last(),
        );
        lemma_capacity_is_fixed(Progress::initial(total, workers), steps);
    }
}

/// No step changes the number of files or the number of workers.
pub proof fn lemma_capacity_is_fixed(progress: Progress, steps: Seq<Step>)
    ensures
        progress.apply_all(steps).capacity == progress.capacity,
        progress.apply_all(steps).total == progress.total,
    decreases steps.len(),
{
    if steps.len() > 0 {
        lemma_capacity_is_fixed(progress, steps.drop_last());
    }
}

/// When a run is over, every file of it was counted exactly once or was
/// abandoned: where no file was abandoned, the three counters add up to the
/// number of files.
pub proof fn lemma_finished_run_counts_every_file(progress: Progress)
    requires
        progress.wf(),
        progress.is_finished(),
    ensures
        progress.counts.success + progress.counts.skipped + progress.counts.failed
            + progress.abandoned == progress.total,
        progress.abandoned == 0 ==> progress.counts.success + progress.counts.skipped
            + progress.counts.failed == progress.total,
{
}

/// What happens in a run, told file by file: the next file of the list is
/// started, or the file at a place of the list ends with its outcome.
pub enum FileStep {
    Start,
    End(int),
}

/// A run together with the places of the files that have ended.
pub struct FileRun {
    pub progress: Progress,
    pub ended: Set<int>,
}

/// The places among `files` whose file ends as a success.
pub open spec fn successes_among(outcomes: Seq<Outcome>, files: Set<int>) -> Set<int> {
    Set::new(|i: int| files.contains(i) && outcomes[i] is Success)
}

/// The places among `files` whose file ends as skipped.
pub open spec fn skips_among(outcomes: Seq<Outcome>, files: Set<int>) -> Set<int> {
    Set::new(|i: int| files.contains(i) && outcomes[i] is Skipped)
}

/// The places among `files` whose file ends as failed.
pub open spec fn failures_among(outcomes: Seq<Outcome>, files: Set<int>) -> Set<int> {
    Set::new(|i: int| files.contains(i) && outcomes[i] is Failed)
}

/// The counters of a finished run over files with the given outcomes, read
/// off the list alone.
pub open spec fn counts_of(outcomes: Seq<Outcome>) -> Counts {
    Counts {
        total: outcomes.len(),
        success: successes_among(outcomes, set_int_range(0, outcomes.len() as int)).len(),
        skipped: skips_among(outcomes, set_int_range(0, outcomes.len() as int)).len(),
        failed: failures_among(outcomes, set_int_range(0, outcomes.len() as int)).len(),
    }
}

impl FileRun {
    /// A run over `total` files with `workers` workers, before the first
    /// file is started.
    pub open spec fn initial(total: nat, workers: nat) -> FileRun {
        FileRun { progress: Progress::initial(total, workers), ended: Set::empty() }
    }

    /// The run after `step`, where the file at place `i` ends with
    /// `outcomes[i]`. A file is started only while a worker is free, and a
    /// file ends only once and only after it was started; a step that cannot
    /// be taken changes nothing.
    pub open spec fn apply(self, step: FileStep, outcomes: Seq<Outcome>) -> FileRun {
        match step {
            FileStep::Start => FileRun { progress: self.progress.apply(Step::Start), ..self },
            FileStep::End(i) => if 0 <= i < self.progress.started && !self.ended.contains(i) {
                FileRun {
                    progress: self.progress.apply(Step::Complete(outcomes[i])),
                    ended: self.ended.insert(i),
                }
            } else {
                self
            },
        }
    }

    /// The run after `steps`, one after the other.
    pub open spec fn apply_all(self, steps: Seq<FileStep>, outcomes: Seq<Outcome>) -> FileRun
        decreases steps.len(),
    {
        if steps.len() == 0 {
            self
        } else {
            self.apply_all(steps.drop_last(), outcomes).apply(steps.last(), outcomes)
        }
    }

    /// What holds of such a run at every moment: the files that ended were
    /// started, every started file runs or has ended, and each counter holds
    /// the number of ended files with that outcome.
    pub open spec fn wf(self, outcomes: Seq<Outcome>) -> bool {
        &&& self.progress.wf()
        &&& self.progress.abandoned == 0
        &&& self.progress.total == outcomes.len()
        &&& self.ended.finite()
        &&& self.ended.subset_of(set_int_range(0, self.progress.started as int))
        &&& self.ended.len() + self.progress.running == self.progress.started
        &&& self.progress.counts.success == successes_among(outcomes, self.ended).len()
        &&& self.progress.counts.skipped == skips_among(outcomes, self.ended).len()
        &&& self.progress.counts.failed == failures_among(outcomes, self.ended).len()
    }
}

/// No step breaks what holds of a run that is told file by file.
pub proof fn lemma_file_step_preserves_wf(run: FileRun, step: FileStep, outcomes: Seq<Outcome>)
    requires
        run.wf(outcomes),
    ensures
        run.apply(step, outcomes).wf(outcomes),
{
    let started = run.progress.started as int;
    match step {
        FileStep::Start => {
            assert(set_int_range(0, started).subset_of(set_int_range(0, started + 1)));
        },
        FileStep::End(i) => {
            if 0 <= i < started && !run.ended.contains(i) {
                lemma_int_range(0, started);
                lemma_len_subset(run.ended.insert(i), set_int_range(0, started));
                assert(run.progress.running > 0);
                lemma_len_subset(successes_among(outcomes, run.ended), run.ended);
                lemma_len_subset(skips_among(outcomes, run.ended), run.ended);
                lemma_len_subset(failures_among(outcomes, run.ended), run.ended);
                let after = run.ended.insert(i);
                assert(successes_among(outcomes, after) =~= if outcomes[i] is Success {
                    successes_among(outcomes, run.ended).insert(i)
                } else {
                    successes_among(outcomes, run.ended)
                });
                assert(skips_among(outcomes, after) =~= if outcomes[i] is Skipped {
                    skips_among(outcomes, run.ended).insert(i)
                } else {
                    skips_among(outcomes, run.ended)
                });
                assert(failures_among(outcomes, after) =~= if outcomes[i] is Failed {
                    failures_among(outcomes, run.ended).insert(i)
                } else {
                    failures_among(outcomes, run.ended)
                });
            }
        },
    }
}

/// Whatever happens in a run that is told file by file, what holds of it at
/// the beginning holds of it throughout.
pub proof fn lemma_file_run_wf(outcomes: Seq<Outcome>, workers: nat, steps: Seq<FileStep>)
    requires
        outcomes.len() <= usize::MAX,
    ensures
        FileRun::initial(outcomes.len(), workers).apply_all(steps, outcomes).wf(outcomes),
    decreases steps.len(),
{
    if steps.len() > 0 {
        lemma_file_run_wf(outcomes, workers, steps.drop_last());
        lemma_file_step_preserves_wf(
            FileRun::initial(outcomes.len(), workers).apply_all(steps.drop_last(), outcomes),
            steps.last(),
            outcomes,
        );
    } else {
        assert(successes_among(outcomes, Set::<int>::empty()) =~= Set::<int>::empty());
        assert(skips_among(outcomes, Set::<int>::empty()) =~= Set::<int>::empty());
        assert(failures_among(outcomes, Set::<int>::empty()) =~= Set::<int>::empty());
    }
}

/// The counters of a finished run are those of its list of files: they
/// depend on the outcome of each file, and on nothing else. Neither the
/// number of workers nor the order in which the files were started and have
/// ended shows in them.
pub proof fn lemma_finished_run_counts_the_list(
    outcomes: Seq<Outcome>,
    workers: nat,
    steps: Seq<FileStep>,
)
    requires
        outcomes.len() <= usize::MAX,
        FileRun::initial(outcomes.len(), workers).apply_all(steps, outcomes).progress.is_finished(),
    ensures
        FileRun::initial(outcomes.len(), workers).apply_all(steps, outcomes).progress.counts
            == counts_of(outcomes),
{
    let run = FileRun::initial(outcomes.len(), workers).apply_all(steps, outcomes);
    lemma_file_run_wf(outcomes, workers, steps);
    lemma_int_range(0, outcomes.len() as int);
    lemma_subset_equality(run.ended, set_int_range(0, outcomes.len() as int));
    assert(run.ended == set_int_range(0, outcomes.len() as int));
}

/// Two runs over the same files, in which every file ends with the same
/// outcome, end with the same counters, whatever their numbers of workers and
/// whatever the order in which their files ended.
pub proof fn lemma_counters_do_not_depend_on_workers(
    outcomes: Seq<Outcome>,
    workers: nat,
    steps: Seq<FileStep>,
    other_workers: nat,
    other_steps: Seq<FileStep>,
)
    requires
        outcomes.len() <= usize::MAX,
        FileRun::initial(outcomes.len(), workers).apply_all(steps, outcomes).progress.is_finished(),
        FileRun::initial(outcomes.len(), other_workers).apply_all(
            other_steps,
            outcomes,
        ).progress.is_finished(),
    ensures
        FileRun::initial(outcomes.len(), workers).apply_all(steps, outcomes).progress.counts
            == FileRun::initial(outcomes.len(), other_workers).apply_all(
            other_steps,
            outcomes,
        ).progress.counts,
{
    lemma_finished_run_counts_the_list(outcomes, workers, steps);
    lemma_finished_run_counts_the_list(outcomes, other_workers, other_steps);
}

} // verus!
