use echo::capture::{
    afconvert_args, conversion_outcome, output_paths, settle_completion, stream_settings,
    CaptureController, CompletionPoll,
};

#[test]
fn new_controller_is_idle() {
    let mut c = CaptureController::new();
    assert!(!c.is_capturing());
    assert_eq!(c.try_take_completion(), None);
}

#[test]
fn start_hands_out_job_once() {
    let mut c = CaptureController::new();
    let job = c.start_audio_capture("/tmp/meeting_a.m4a".to_string());
    assert!(c.is_capturing());
    let job = job.expect("a job for the new worker");
    assert_eq!(job.file_path, "/tmp/meeting_a.m4a");
    assert!(c.start_audio_capture("/tmp/meeting_b.m4a".to_string()).is_none());
    assert!(c.is_capturing());
}

#[test]
fn stop_signals_worker() {
    let mut c = CaptureController::new();
    let job = c.start_audio_capture("/tmp/m.m4a".to_string()).unwrap();
    assert!(job.stop_rx.receiver().try_recv().is_err());
    c.stop_audio_capture();
    assert!(!c.is_capturing());
    assert_eq!(job.stop_rx.receiver().try_recv(), Ok(()));
}

#[test]
fn stop_when_idle_is_harmless() {
    let mut c = CaptureController::new();
    c.stop_audio_capture();
    c.stop_audio_capture();
    assert!(!c.is_capturing());
}

#[test]
fn result_is_taken_exactly_once() {
    let mut c = CaptureController::new();
    let job = c.start_audio_capture("/tmp/m.m4a".to_string()).unwrap();
    assert_eq!(c.try_take_completion(), None);
    c.stop_audio_capture();
    c.stop_signal_received(job.run);
    c.worker_finished(job.run);
    job.completion_tx.sender().send(Ok("/tmp/m.m4a".to_string())).unwrap();
    assert_eq!(c.try_take_completion(), Some(Ok("/tmp/m.m4a".to_string())));
    assert_eq!(c.try_take_completion(), None);
}

#[test]
fn lost_worker_reports_error() {
    let mut c = CaptureController::new();
    let job = c.start_audio_capture("/tmp/m.m4a".to_string()).unwrap();
    drop(job);
    assert_eq!(
        c.try_take_completion(),
        Some(Err("Capture worker terminated unexpectedly".to_string()))
    );
    assert!(!c.is_capturing());
    assert_eq!(c.try_take_completion(), None);
    assert!(c.start_audio_capture("/tmp/n.m4a".to_string()).is_some());
}

#[test]
fn stale_worker_does_not_end_next_run() {
    let mut c = CaptureController::new();
    let job_a = c.start_audio_capture("/tmp/a.m4a".to_string()).unwrap();
    c.stop_audio_capture();
    let job_b = c.start_audio_capture("/tmp/b.m4a".to_string()).unwrap();
    assert_ne!(job_a.run, job_b.run);
    c.stop_signal_received(job_a.run);
    c.worker_finished(job_a.run);
    assert!(c.is_capturing());
    assert!(job_b.stop_rx.receiver().try_recv().is_err());
    c.stop_audio_capture();
    assert_eq!(job_b.stop_rx.receiver().try_recv(), Ok(()));
}

#[test]
fn stop_twice_sends_one_signal() {
    let mut c = CaptureController::new();
    let job = c.start_audio_capture("/tmp/m.m4a".to_string()).unwrap();
    c.stop_audio_capture();
    c.stop_audio_capture();
    assert_eq!(job.stop_rx.receiver().try_recv(), Ok(()));
    assert!(job.stop_rx.receiver().try_recv().is_err());
}

#[test]
fn pending_result_survives_empty_poll() {
    let mut c = CaptureController::new();
    let job = c.start_audio_capture("/tmp/m.m4a".to_string()).unwrap();
    assert_eq!(c.try_take_completion(), None);
    assert_eq!(c.try_take_completion(), None);
    job.completion_tx.sender().send(Err("no display".to_string())).unwrap();
    assert_eq!(c.try_take_completion(), Some(Err("no display".to_string())));
}

#[test]
fn worker_finishing_ends_capture_and_allows_restart() {
    let mut c = CaptureController::new();
    let job = c.start_audio_capture("/tmp/a.m4a".to_string()).unwrap();
    c.worker_finished(job.run);
    assert!(!c.is_capturing());
    c.stop_audio_capture();
    let job2 = c.start_audio_capture("/tmp/b.m4a".to_string());
    assert!(job2.is_some());
    assert!(c.is_capturing());
}

#[test]
fn samples_accepted_only_while_capturing_audio() {
    let mut c = CaptureController::new();
    assert!(!c.accepts_sample(0, true));
    let job = c.start_audio_capture("/tmp/a.m4a".to_string()).unwrap();
    assert!(c.accepts_sample(job.run, true));
    assert!(!c.accepts_sample(job.run, false));
    c.stop_audio_capture();
    assert!(!c.accepts_sample(job.run, true));
}

#[test]
fn old_run_samples_refused_after_new_start() {
    let mut c = CaptureController::new();
    let job_a = c.start_audio_capture("/tmp/a.m4a".to_string()).unwrap();
    c.stop_audio_capture();
    let job_b = c.start_audio_capture("/tmp/b.m4a".to_string()).unwrap();
    c.stop_signal_received(job_a.run);
    assert!(!c.accepts_sample(job_a.run, true));
    assert!(c.accepts_sample(job_b.run, true));
}

#[test]
fn taken_result_ends_capture() {
    let mut c = CaptureController::new();
    let job = c.start_audio_capture("/tmp/a.m4a".to_string()).unwrap();
    job.completion_tx.sender().send(Ok("/tmp/a.m4a".to_string())).unwrap();
    assert_eq!(c.try_take_completion(), Some(Ok("/tmp/a.m4a".to_string())));
    assert!(!c.is_capturing());
    assert!(c.start_audio_capture("/tmp/b.m4a".to_string()).is_some());
}

#[test]
fn settle_each_poll() {
    assert_eq!(settle_completion(CompletionPoll::Ready(Ok("x".to_string()))), Some(Ok("x".to_string())));
    assert_eq!(settle_completion(CompletionPoll::Ready(Err("e".to_string()))), Some(Err("e".to_string())));
    assert_eq!(settle_completion(CompletionPoll::Empty), None);
    assert_eq!(
        settle_completion(CompletionPoll::Disconnected),
        Some(Err("Capture worker terminated unexpectedly".to_string()))
    );
}

#[test]
fn output_paths_swap_extension() {
    let (wav, m4a) = output_paths("/r/meeting_2024-01-01_000000.m4a");
    assert_eq!(wav, "/r/meeting_2024-01-01_000000.wav");
    assert_eq!(m4a, "/r/meeting_2024-01-01_000000.m4a");
    let (wav, m4a) = output_paths("/r/take");
    assert_eq!(wav, "/r/take.wav");
    assert_eq!(m4a, "/r/take.m4a");
}

#[test]
fn converter_arguments() {
    assert_eq!(
        afconvert_args("/r/a.wav", "/r/a.m4a"),
        vec!["-f", "m4af", "-d", "aac", "-b", "128000", "/r/a.wav", "/r/a.m4a"]
            .into_iter()
            .map(String::from)
            .collect::<Vec<_>>()
    );
}

#[test]
fn conversion_success_keeps_m4a() {
    let o = conversion_outcome(true, "/r/a.wav".to_string(), "/r/a.m4a".to_string());
    assert_eq!(o.result, Ok("/r/a.m4a".to_string()));
    assert!(o.remove_wav);
}

#[test]
fn conversion_failure_keeps_wav() {
    let o = conversion_outcome(false, "/r/a.wav".to_string(), "/r/a.m4a".to_string());
    assert_eq!(o.result, Ok("/r/a.wav".to_string()));
    assert!(!o.remove_wav);
}

#[test]
fn stream_settings_values() {
    let s = stream_settings();
    assert_eq!((s.width, s.height), (1, 1));
    assert!(s.captures_audio);
    assert_eq!(s.sample_rate, 48000);
    assert_eq!(s.channel_count, 2);
}
