use echo::worker::{worker_action, worker_next, WorkerAction, WorkerEvent, WorkerPhase};
use echo::worker::WorkerEvent::{Done, Failed, StopSignal};

fn run(events: &[WorkerEvent]) -> (WorkerPhase, Vec<WorkerAction>) {
    let mut phase = WorkerPhase::Preparing;
    let mut actions = vec![worker_action(phase)];
    for e in events {
        phase = worker_next(phase, *e);
        actions.push(worker_action(phase));
    }
    (phase, actions)
}

#[test]
fn worker_full_run_order() {
    let (phase, actions) = run(&[Done, StopSignal, Done, Done, Done, Done]);
    assert_eq!(phase, WorkerPhase::Finished);
    assert_eq!(
        actions,
        vec![
            WorkerAction::PrepareAndStart,
            WorkerAction::WaitForStop,
            WorkerAction::StopStream,
            WorkerAction::DropStreamAndSettle,
            WorkerAction::FinalizeWav,
            WorkerAction::Convert,
            WorkerAction::Exit,
        ]
    );
}

#[test]
fn worker_waits_for_stop_signal() {
    let (phase, _) = run(&[Done, Done, Failed, Done]);
    assert_eq!(phase, WorkerPhase::Recording);
}

#[test]
fn worker_setup_failure_exits() {
    let (phase, actions) = run(&[WorkerEvent::Failed]);
    assert_eq!(phase, WorkerPhase::Finished);
    assert_eq!(actions.last(), Some(&WorkerAction::Exit));
}

#[test]
fn worker_finalize_failure_skips_conversion() {
    let (phase, actions) = run(&[Done, StopSignal, Done, Done, Failed]);
    assert_eq!(phase, WorkerPhase::Finished);
    assert!(!actions.contains(&WorkerAction::Convert));
}

#[test]
fn worker_stop_ignores_failures() {
    let (phase, _) = run(&[Done, StopSignal, Failed]);
    assert_eq!(phase, WorkerPhase::Stopping);
}
