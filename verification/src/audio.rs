//! The recording facade: a recording flag kept beside the capture controller,
//! which does the actual work.

use vstd::prelude::*;
use crate::capture::{after_stop, next_run, started, CaptureController, CaptureJob, CaptureStatus};

verus! {

/// The recorder's state: whether a recording was requested, and the state of
/// the capture controller below it.
pub struct RecorderStatus {
    pub recording: bool,
    pub capture: CaptureStatus,
}

/// After a stop request, no capture is in progress, whatever the state
/// before; a recording started from a state with no capture in progress and
/// then stopped has sent exactly one stop signal to its worker and leaves the
/// worker's result to be collected.
pub proof fn law_stop_recording_ends_capture(c: CaptureStatus, stop_id: int, result_id: int)
    ensures
        !after_stop(c).capturing,
        !c.capturing ==> started(c, stop_id, result_id).capturing,
        after_stop(started(c, stop_id, result_id)).stop_tx == Some(
            crate::capture::StopEnd { id: stop_id, sent: 1 },
        ),
        after_stop(started(c, stop_id, result_id)).completion_rx == Some(result_id),
        after_stop(started(c, stop_id, result_id)).run == next_run(c.run),
{
}

/// The recording facade.
pub struct AudioRecorder {
    recording: bool,
    /// The controller of the capture worker, which the worker thread itself
    /// also reports to.
    pub capture: CaptureController,
}

impl View for AudioRecorder {
    type V = RecorderStatus;

    closed spec fn view(&self) -> RecorderStatus {
        RecorderStatus { recording: self.recording, capture: self.capture@ }
    }
}

impl AudioRecorder {
    /// A recorder that is neither recording nor capturing.
    pub fn new() -> (res: AudioRecorder)
        ensures
            !res@.recording,
            res@.capture == crate::capture::idle(),
    {
        AudioRecorder { recording: false, capture: CaptureController::new() }
    }

    /// Starts recording to `file_path`: the recording flag is set and a
    /// capture into that file is requested. The job for a new capture worker
    /// is returned, with the other ends of the channels the controller now
    /// holds, or `None` when a capture is already running, which is then left
    /// as it is.
    pub fn start_recording(&mut self, file_path: String) -> (job: Option<CaptureJob>)
        ensures
            final(self)@.recording,
            crate::capture::status_wf(final(self)@.capture),
            old(self)@.capture.capturing ==> job is None && final(self)@.capture == old(self)@.capture,
            !old(self)@.capture.capturing ==> (job matches Some(j) && {
                &&& j.file_path@ == file_path@
                &&& final(self)@.capture == started(old(self)@.capture, j.stop_rx.id(), j.completion_tx.id())
                &&& j.run == final(self)@.capture.run
            }),
    {
        self.recording = true;
        self.capture.start_audio_capture(file_path)
    }

    /// Stops recording: the recording flag is cleared and the capture in
    /// progress, if any, is asked to stop, with one stop signal sent to its
    /// worker.
    pub fn stop_recording(&mut self)
        ensures
            !final(self)@.recording,
            crate::capture::status_wf(final(self)@.capture),
            final(self)@.capture == after_stop(old(self)@.capture),
    {
        self.recording = false;
        self.capture.stop_audio_capture();
    }

    /// Whether a recording was requested and not stopped since.
    pub fn is_recording(&self) -> (res: bool)
        ensures
            res == self@.recording,
    {
        self.recording
    }
}

} // verus!
