//! The order of the steps a capture worker takes in one run: prepare and
//! start the stream, wait for the stop signal, stop the stream, let it go and
//! let samples in flight settle, complete the WAV file, convert it, exit.
//!
//! The worker asks `worker_action` what to do in its phase, does it, and
//! hands the outcome to `worker_next`, which gives the next phase.

use vstd::prelude::*;

verus! {

/// Where a worker is in its run.
#[derive(Clone, Copy, Debug, PartialEq, Eq, Structural)]
pub enum WorkerPhase {
    /// The stream is being set up and started.
    Preparing,
    /// The stream runs; the worker waits for its stop signal.
    Recording,
    /// The stop signal has arrived; the stream is to be stopped.
    Stopping,
    /// The stream is stopped; it is let go and samples in flight settle.
    Draining,
    /// The WAV file is to be completed.
    Finalizing,
    /// The WAV file is complete and is to be converted.
    Converting,
    /// The run is over, successfully or not.
    Finished,
}

/// What happened when the worker did what its phase asks.
#[derive(Clone, Copy, Debug, PartialEq, Eq, Structural)]
pub enum WorkerEvent {
    /// The step succeeded.
    Done,
    /// The step failed; the run ends with its error.
    Failed,
    /// The stop signal arrived, or its sender went away.
    StopSignal,
}

/// What the worker is to do next.
#[derive(Clone, Copy, Debug, PartialEq, Eq, Structural)]
pub enum WorkerAction {
    /// Set up the stream and the WAV file, and start the stream.
    PrepareAndStart,
    /// Wait for the stop signal.
    WaitForStop,
    /// Report the stop to the controller, then stop the stream (an error in
    /// stopping is ignored).
    StopStream,
    /// Let the stream go and wait for samples in flight.
    DropStreamAndSettle,
    /// Patch the WAV header with the final sizes.
    FinalizeWav,
    /// Run the converter on the WAV file.
    Convert,
    /// Leave, reporting the run's result.
    Exit,
}

/// The action of each phase.
pub open spec fn spec_action(p: WorkerPhase) -> WorkerAction {
    match p {
        WorkerPhase::Preparing => WorkerAction::PrepareAndStart,
        WorkerPhase::Recording => WorkerAction::WaitForStop,
        WorkerPhase::Stopping => WorkerAction::StopStream,
        WorkerPhase::Draining => WorkerAction::DropStreamAndSettle,
        WorkerPhase::Finalizing => WorkerAction::FinalizeWav,
        WorkerPhase::Converting => WorkerAction::Convert,
        WorkerPhase::Finished => WorkerAction::Exit,
    }
}

/// The phase after event `e` in phase `p`. Preparing, completing the file
/// and converting can fail, which ends the run; stopping the stream and
/// letting it go cannot. Only the stop signal ends recording. Any other event
/// leaves the phase as it is.
pub open spec fn spec_next(p: WorkerPhase, e: WorkerEvent) -> WorkerPhase {
    match (p, e) {
        (WorkerPhase::Preparing, WorkerEvent::Done) => WorkerPhase::Recording,
        (WorkerPhase::Preparing, WorkerEvent::Failed) => WorkerPhase::Finished,
        (WorkerPhase::Recording, WorkerEvent::StopSignal) => WorkerPhase::Stopping,
        (WorkerPhase::Stopping, WorkerEvent::Done) => WorkerPhase::Draining,
        (WorkerPhase::Draining, WorkerEvent::Done) => WorkerPhase::Finalizing,
        (WorkerPhase::Finalizing, WorkerEvent::Done) => WorkerPhase::Converting,
        (WorkerPhase::Finalizing, WorkerEvent::Failed) => WorkerPhase::Finished,
        (WorkerPhase::Converting, WorkerEvent::Done) => WorkerPhase::Finished,
        (WorkerPhase::Converting, WorkerEvent::Failed) => WorkerPhase::Finished,
        _ => p,
    }
}

/// The phase a worker is in after the events `es`, starting from preparing.
pub open spec fn phase_after(es: Seq<WorkerEvent>) -> WorkerPhase
    decreases es.len(),
{
    if es.len() == 0 {
        WorkerPhase::Preparing
    } else {
        spec_next(phase_after(es.drop_last()), es.last())
    }
}

/// What the worker is to do in phase `p`.
pub fn worker_action(p: WorkerPhase) -> (res: WorkerAction)
    ensures
        res == spec_action(p),
{
    match p {
        WorkerPhase::Preparing => WorkerAction::PrepareAndStart,
        WorkerPhase::Recording => WorkerAction::WaitForStop,
        WorkerPhase::Stopping => WorkerAction::StopStream,
        WorkerPhase::Draining => WorkerAction::DropStreamAndSettle,
        WorkerPhase::Finalizing => WorkerAction::FinalizeWav,
        WorkerPhase::Converting => WorkerAction::Convert,
        WorkerPhase::Finished => WorkerAction::Exit,
    }
}

/// The phase after event `e` in phase `p`.
pub fn worker_next(p: WorkerPhase, e: WorkerEvent) -> (res: WorkerPhase)
    ensures
        res == spec_next(p, e),
{
    match (p, e) {
        (WorkerPhase::Preparing, WorkerEvent::Done) => WorkerPhase::Recording,
        (WorkerPhase::Preparing, WorkerEvent::Failed) => WorkerPhase::Finished,
        (WorkerPhase::Recording, WorkerEvent::StopSignal) => WorkerPhase::Stopping,
        (WorkerPhase::Stopping, WorkerEvent::Done) => WorkerPhase::Draining,
        (WorkerPhase::Draining, WorkerEvent::Done) => WorkerPhase::Finalizing,
        (WorkerPhase::Finalizing, WorkerEvent::Done) => WorkerPhase::Converting,
        (WorkerPhase::Finalizing, WorkerEvent::Failed) => WorkerPhase::Finished,
        (WorkerPhase::Converting, WorkerEvent::Done) => WorkerPhase::Finished,
        (WorkerPhase::Converting, WorkerEvent::Failed) => WorkerPhase::Finished,
        _ => p,
    }
}

/// The phase after `k` successful steps from phase `p`.
pub open spec fn after_done_steps(p: WorkerPhase, k: nat) -> WorkerPhase
    decreases k,
{
    if k == 0 {
        p
    } else {
        after_done_steps(spec_next(p, WorkerEvent::Done), (k - 1) as nat)
    }
}

/// A worker's run always comes to an end once its stream is running and the
/// stop signal came: a failure where a step can fail (setting up, completing
/// the file, converting) ends the run at once; from the stop signal on, at
/// most four successful steps end it; an ended run stays ended whatever
/// happens. Only waiting for the stop signal holds a worker.
pub proof fn law_worker_comes_to_an_end(p: WorkerPhase, e: WorkerEvent)
    ensures
        spec_next(WorkerPhase::Preparing, WorkerEvent::Failed) == WorkerPhase::Finished,
        spec_next(WorkerPhase::Finalizing, WorkerEvent::Failed) == WorkerPhase::Finished,
        spec_next(WorkerPhase::Converting, WorkerEvent::Failed) == WorkerPhase::Finished,
        spec_next(WorkerPhase::Recording, WorkerEvent::StopSignal) == WorkerPhase::Stopping,
        spec_next(WorkerPhase::Finished, e) == WorkerPhase::Finished,
        (p == WorkerPhase::Stopping || p == WorkerPhase::Draining || p == WorkerPhase::Finalizing
            || p == WorkerPhase::Converting || p == WorkerPhase::Finished)
            ==> after_done_steps(p, 4) == WorkerPhase::Finished,
        spec_next(p, e) == WorkerPhase::Finished ==> spec_action(p) == WorkerAction::PrepareAndStart
            || spec_action(p) == WorkerAction::FinalizeWav || spec_action(p) == WorkerAction::Convert
            || p == WorkerPhase::Finished,
{
    reveal_with_fuel(after_done_steps, 5);
}

/// What a worker's history says of the phase it reached: the stream is
/// stopped only once the stop signal has come; the file is completed only
/// once the stream was let go; the converter runs only on a completed file.
pub open spec fn history_ok(p: WorkerPhase, es: Seq<WorkerEvent>) -> bool {
    &&& (p == WorkerPhase::Stopping || p == WorkerPhase::Draining || p == WorkerPhase::Finalizing
        || p == WorkerPhase::Converting) ==> es.contains(WorkerEvent::StopSignal)
    &&& (p == WorkerPhase::Finalizing || p == WorkerPhase::Converting) ==> reached(es, WorkerPhase::Finalizing)
    &&& (p == WorkerPhase::Finalizing || p == WorkerPhase::Converting) ==> reached(es, WorkerPhase::Draining)
}

/// Some prefix of `es` led into phase `p`.
pub open spec fn reached(es: Seq<WorkerEvent>, p: WorkerPhase) -> bool {
    exists|k: int| 0 <= k <= es.len() && #[trigger] phase_after(es.subrange(0, k)) == p
}

proof fn lemma_prefix_of_push(es: Seq<WorkerEvent>, e: WorkerEvent, k: int)
    requires
        0 <= k <= es.len(),
    ensures
        es.push(e).subrange(0, k) == es.subrange(0, k),
{
    assert(es.push(e).subrange(0, k) =~= es.subrange(0, k));
}

proof fn lemma_history_step(es: Seq<WorkerEvent>, e: WorkerEvent)
    requires
        history_ok(phase_after(es), es),
    ensures
        history_ok(phase_after(es.push(e)), es.push(e)),
{
    let ps = es.push(e);
    assert(ps.drop_last() =~= es);
    assert(ps.last() == e);
    let p = phase_after(es);
    let q = phase_after(ps);
    assert(q == spec_next(p, e));
    assert(ps.subrange(0, ps.len() as int) =~= ps);
    assert(phase_after(ps.subrange(0, ps.len() as int)) == q);
    if es.contains(WorkerEvent::StopSignal) {
        let i = choose|i: int| 0 <= i < es.len() && es[i] == WorkerEvent::StopSignal;
        assert(ps[i] == WorkerEvent::StopSignal);
    }
    if e == WorkerEvent::StopSignal {
        assert(ps[es.len() as int] == WorkerEvent::StopSignal);
    }
    if reached(es, WorkerPhase::Finalizing) {
        let k = choose|k: int| 0 <= k <= es.len() && #[trigger] phase_after(es.subrange(0, k)) == WorkerPhase::Finalizing;
        lemma_prefix_of_push(es, e, k);
        assert(phase_after(ps.subrange(0, k)) == WorkerPhase::Finalizing);
    }
    if reached(es, WorkerPhase::Draining) {
        let k = choose|k: int| 0 <= k <= es.len() && #[trigger] phase_after(es.subrange(0, k)) == WorkerPhase::Draining;
        lemma_prefix_of_push(es, e, k);
        assert(phase_after(ps.subrange(0, k)) == WorkerPhase::Draining);
    }
    if p == WorkerPhase::Draining {
        assert(es.subrange(0, es.len() as int) =~= es);
        lemma_prefix_of_push(es, e, es.len() as int);
        assert(phase_after(ps.subrange(0, es.len() as int)) == WorkerPhase::Draining);
    }
}

/// Whatever happens in a worker's run, it stops the stream only after its
/// stop signal came, completes the WAV file only after the stream was stopped
/// and let go, and converts the file only after completing it.
pub proof fn law_worker_steps_in_order(es: Seq<WorkerEvent>)
    ensures
        spec_action(phase_after(es)) == WorkerAction::StopStream ==> es.contains(WorkerEvent::StopSignal),
        spec_action(phase_after(es)) == WorkerAction::FinalizeWav ==> es.contains(WorkerEvent::StopSignal)
            && reached(es, WorkerPhase::Draining),
        spec_action(phase_after(es)) == WorkerAction::Convert ==> reached(es, WorkerPhase::Finalizing)
            && reached(es, WorkerPhase::Draining),
    decreases es.len(),
{
    lemma_history(es);
}

proof fn lemma_history(es: Seq<WorkerEvent>)
    ensures
        history_ok(phase_after(es), es),
    decreases es.len(),
{
    if es.len() > 0 {
        lemma_history(es.drop_last());
        assert(es.drop_last().push(es.last()) =~= es);
        lemma_history_step(es.drop_last(), es.last());
    }
}

} // verus!
