use echo::audio::AudioRecorder;

#[test]
fn recorder_starts_idle() {
    let r = AudioRecorder::new();
    assert!(!r.is_recording());
    assert!(!r.capture.is_capturing());
}

#[test]
fn start_then_stop_recording() {
    let mut r = AudioRecorder::new();
    let job = r.start_recording("/tmp/meeting.m4a".to_string()).unwrap();
    assert!(r.is_recording());
    assert!(r.capture.is_capturing());
    r.stop_recording();
    assert!(!r.is_recording());
    assert!(!r.capture.is_capturing());
    assert_eq!(job.stop_rx.receiver().try_recv(), Ok(()));
}

#[test]
fn second_start_reuses_running_capture() {
    let mut r = AudioRecorder::new();
    let _job = r.start_recording("/tmp/a.m4a".to_string()).unwrap();
    assert!(r.start_recording("/tmp/b.m4a".to_string()).is_none());
    assert!(r.is_recording());
}

#[test]
fn stop_without_start() {
    let mut r = AudioRecorder::new();
    r.stop_recording();
    assert!(!r.is_recording());
    assert!(!r.capture.is_capturing());
}

#[test]
fn recording_flag_survives_worker_end() {
    let mut r = AudioRecorder::new();
    let job = r.start_recording("/tmp/a.m4a".to_string()).unwrap();
    r.capture.worker_finished(job.run);
    assert!(r.is_recording());
    assert!(!r.capture.is_capturing());
}
