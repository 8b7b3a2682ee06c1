use vstd::prelude::*;

use crate::error::UpdateError;
use crate::progress::Progress;
use crate::update::step::{StepAction, StepOutcome, UpdateStep};

verus! {

/// Whether one outcome lets the run advance to the next step.
pub open spec fn continues(o: StepOutcome) -> bool {
    o is Continue
}

/// A well-formed record of a run over `n` steps: one outcome for each
/// step that executed, in order. Every outcome before the last is a clean
/// continue, the first step always runs, and the run stops short of `n`
/// only on an outcome that ends it.
pub open spec fn run_record(log: Seq<StepOutcome>, n: nat) -> bool {
    &&& log.len() <= n
    &&& (forall|i: int| 0 <= i < log.len() - 1 ==> continues(#[trigger] log[i]))
    &&& (log.len() < n ==> log.len() > 0 && !continues(log.last()))
    &&& (n > 0 ==> log.len() > 0)
}

/// The result of a run with record `log`: the error of a failing step,
/// a verification failure where a step's check refuted it, and success
/// otherwise — including runs ended by `Cancel`, `Complete`, or the
/// cancellation flag.
pub open spec fn run_result(log: Seq<StepOutcome>) -> Result<(), UpdateError> {
    if log.len() == 0 {
        Ok(())
    } else {
        match log.last() {
            StepOutcome::Error(e) => Err(e),
            StepOutcome::VerifyFailed => Err(UpdateError::Verification),
            _ => Ok(()),
        }
    }
}

/// Runs an ordered list of steps against one shared payload, uniformly
/// handling cancellation, completion and failure. The ghost `log` records
/// what each executed step did; `execute`'s contract ties the returned
/// result to that record.
pub struct UpdateProcedure<T, S> {
    title: String,
    progress: Progress,
    steps: Vec<S>,
    data: T,
    log: Ghost<Seq<StepOutcome>>,
    starts: Ghost<Seq<Progress>>,
}

impl<T, S: UpdateStep<T>> UpdateProcedure<T, S> {
    pub closed spec fn spec_title(self) -> Seq<char> {
        self.title@
    }

    pub closed spec fn spec_progress(self) -> Progress {
        self.progress
    }

    pub closed spec fn spec_steps(self) -> Seq<S> {
        self.steps@
    }

    pub closed spec fn spec_data(self) -> T {
        self.data
    }

    /// The record of the last run: one outcome per executed step.
    pub closed spec fn spec_log(self) -> Seq<StepOutcome> {
        self.log@
    }

    /// The progress each executed step started from.
    pub closed spec fn spec_starts(self) -> Seq<Progress> {
        self.starts@
    }

    pub fn new(title: String, data: T) -> (r: Self)
        ensures
            r.spec_title() == title@,
            r.spec_data() == data,
            r.spec_steps() == Seq::<S>::empty(),
            r.spec_log() == Seq::<StepOutcome>::empty(),
            r.spec_progress() == Progress::spec_fresh(),
    {
        UpdateProcedure {
            title,
            progress: Progress::default(),
            steps: Vec::new(),
            data,
            log: Ghost(Seq::empty()),
            starts: Ghost(Seq::empty()),
        }
    }

    /// Appends a step; steps execute in the order they were added.
    pub fn add_step(&mut self, step: S)
        ensures
            final(self).spec_steps() == old(self).spec_steps().push(step),
            final(self).spec_title() == old(self).spec_title(),
            final(self).spec_data() == old(self).spec_data(),
            final(self).spec_progress() == old(self).spec_progress(),
            final(self).spec_log() == old(self).spec_log(),
            final(self).spec_starts() == old(self).spec_starts(),
    {
        self.steps.push(step)
    }

    pub fn title(&self) -> (r: &String)
        ensures
            r@ == self.spec_title(),
    {
        &self.title
    }

    pub fn progress(&self) -> (r: &Progress)
        ensures
            *r == self.spec_progress(),
    {
        &self.progress
    }

    pub fn steps(&self) -> (r: &Vec<S>)
        ensures
            r@ == self.spec_steps(),
    {
        &self.steps
    }

    pub fn data(&self) -> (r: &T)
        ensures
            *r == self.spec_data(),
    {
        &self.data
    }

    /// Runs the steps in order. Each step sees a freshly reset progress;
    /// a step that returns `Cancel` or `Complete` ends the run
    /// successfully without running the steps after it; a step's error
    /// aborts the run with that error and nothing after it runs; a step
    /// that continues but fails its own check aborts the run with a
    /// verification failure. Every executed step starts from a freshly
    /// reset progress — the starts record carries one fresh value per
    /// executed step. Progress is marked complete on every exit, the
    /// error path included.
    pub fn execute(&mut self) -> (r: Result<(), UpdateError>)
        ensures
            final(self).spec_steps() == old(self).spec_steps(),
            final(self).spec_title() == old(self).spec_title(),
            run_record(final(self).spec_log(), old(self).spec_steps().len()),
            r == run_result(final(self).spec_log()),
            final(self).spec_starts().len() == final(self).spec_log().len(),
            forall|i: int| 0 <= i < final(self).spec_starts().len()
                ==> final(self).spec_starts()[i] == Progress::spec_fresh(),
            final(self).spec_progress().complete,
    {
        self.log = Ghost(Seq::empty());
        self.starts = Ghost(Seq::empty());
        let n = self.steps.len();
        let mut idx: usize = 0;
        while idx < n
            invariant
                n == self.steps.len(),
                idx <= n,
                self.log@.len() == idx,
                self.starts@.len() == idx,
                forall|i: int| 0 <= i < idx ==> continues(#[trigger] self.log@[i]),
                forall|i: int| 0 <= i < idx ==> self.starts@[i] == Progress::spec_fresh(),
                self.steps == old(self).steps,
                self.title == old(self).title,
            decreases n - idx,
        {
            self.progress.reset();
            self.starts = Ghost(self.starts@.push(self.progress));

            let step = &self.steps[idx];
            match step.exec(&mut self.data, &mut self.progress) {
                Err(e) => {
                    self.log = Ghost(self.log@.push(StepOutcome::Error(e)));
                    self.progress.set_complete(true);
                    return Err(e);
                },
                Ok(StepAction::Cancel) => {
                    self.log = Ghost(self.log@.push(StepOutcome::Cancel));
                    self.progress.set_complete(true);
                    return Ok(());
                },
                Ok(StepAction::Complete) => {
                    self.log = Ghost(self.log@.push(StepOutcome::Complete));
                    self.progress.set_complete(true);
                    return Ok(());
                },
                Ok(StepAction::Continue) => {
                    let step = &self.steps[idx];
                    if !step.verify(&self.data) {
                        self.log = Ghost(self.log@.push(StepOutcome::VerifyFailed));
                        self.progress.set_complete(true);
                        return Err(UpdateError::Verification);
                    }
                    if self.progress.cancelled() {
                        self.log = Ghost(self.log@.push(StepOutcome::Flagged));
                        self.progress.set_complete(true);
                        return Ok(());
                    }
                    self.log = Ghost(self.log@.push(StepOutcome::Continue));
                },
            }

            idx = idx + 1;
        }

        self.progress.set_complete(true);
        Ok(())
    }
}

/// Where every executed step continued cleanly, the whole sequence ran
/// and the run succeeded.
pub proof fn lemma_run_all_continue(log: Seq<StepOutcome>, n: nat)
    requires
        run_record(log, n),
        forall|i: int| 0 <= i < log.len() ==> continues(#[trigger] log[i]),
    ensures
        log.len() == n,
        run_result(log) == Ok::<(), UpdateError>(()),
{
}

/// A step that returned `Cancel` ended the run: the run succeeded and no
/// step after it executed.
pub proof fn lemma_run_cancel(log: Seq<StepOutcome>, n: nat, k: int)
    requires
        run_record(log, n),
        0 <= k < log.len(),
        log[k] is Cancel,
    ensures
        run_result(log) == Ok::<(), UpdateError>(()),
        log.len() == k + 1,
{
}

/// A step that returned `Complete` ended the run successfully and no step
/// after it executed, whatever the remaining steps would have done.
pub proof fn lemma_run_complete(log: Seq<StepOutcome>, n: nat, k: int)
    requires
        run_record(log, n),
        0 <= k < log.len(),
        log[k] is Complete,
    ensures
        run_result(log) == Ok::<(), UpdateError>(()),
        log.len() == k + 1,
{
}

/// A step that failed aborted the run with exactly its error, and no step
/// after it executed.
pub proof fn lemma_run_error(log: Seq<StepOutcome>, n: nat, k: int, e: UpdateError)
    requires
        run_record(log, n),
        0 <= k < log.len(),
        log[k] == StepOutcome::Error(e),
    ensures
        run_result(log) == Err::<(), UpdateError>(e),
        log.len() == k + 1,
{
}

/// A step that continued but failed its check aborted the run with a
/// verification failure, distinct from a failure of the step itself, and
/// no step after it executed.
pub proof fn lemma_run_verify_failed(log: Seq<StepOutcome>, n: nat, k: int)
    requires
        run_record(log, n),
        0 <= k < log.len(),
        log[k] is VerifyFailed,
    ensures
        run_result(log) == Err::<(), UpdateError>(UpdateError::Verification),
        log.len() == k + 1,
{
}

} // verus!
