//! Bookkeeping of the audio-capture worker.
//!
//! One worker thread owns the capture stream for a whole run. The controller
//! here decides when a worker is to be started, hands it the ends of the two
//! channels it talks over (a stop signal in, the run's result out), signals it
//! to stop, listens to its reports, and collects its result exactly once.
//! Each run has a number, so that reports of a worker of an earlier run do not
//! disturb the run in progress. Spawning the thread and driving the capture
//! stream are left to the program around the library.

use vstd::prelude::*;
use vstd::string::*;
pub use crate::channel::{
    CaptureResult, CompletionPoll, ResultReceiver, ResultSender, StopReceiver, StopSender,
};
use crate::channel::{open_result_channel, open_stop_channel, poll_result, send_stop};

verus! {

/// The name `path` gets when its extension is replaced by `ext`.
pub uninterp spec fn path_with_extension(path: Seq<char>, ext: Seq<char>) -> Seq<char>;

/// `path` with its extension replaced by `ext`.
///
/// Calls `std::path::Path::with_extension`, whose result depends on the two
/// arguments alone and is named `path_with_extension`. The standard library
/// panics on an extension that holds a path separator: such extensions are
/// left out. A path made from a `&str` stays valid UTF-8, so the conversion
/// back to a string loses nothing.
#[verifier::external_body]
fn with_extension(path: &str, ext: &str) -> (res: String)
    requires
        !ext@.contains('/'),
    ensures
        res@ == path_with_extension(path@, ext@),
{
    std::path::Path::new(path).with_extension(ext).to_string_lossy().into_owned()
}

/// The stop sender the controller holds: the channel it belongs to and the
/// number of stop signals sent on it.
pub struct StopEnd {
    pub id: int,
    pub sent: nat,
}

/// The controller's state.
pub struct CaptureStatus {
    /// A capture run is in progress and samples are to be kept.
    pub capturing: bool,
    /// The number of the latest run started.
    pub run: u64,
    /// The sender of the latest run's stop signal, while it is held.
    pub stop_tx: Option<StopEnd>,
    /// The channel of the receiver the latest run's result arrives on,
    /// while it is held.
    pub completion_rx: Option<int>,
}

impl CaptureStatus {
    /// The controller holds a sender for a stop signal.
    pub open spec fn stop_armed(self) -> bool {
        self.stop_tx is Some
    }

    /// The controller holds a receiver for a result.
    pub open spec fn completion_pending(self) -> bool {
        self.completion_rx is Some
    }
}

/// The number of the run after run `r`.
pub open spec fn next_run(r: u64) -> u64 {
    if r == u64::MAX { 0 } else { (r + 1) as u64 }
}

/// No run in progress and nothing held.
pub open spec fn idle() -> CaptureStatus {
    CaptureStatus { capturing: false, run: 0, stop_tx: None, completion_rx: None }
}

/// Every state the controller can be in: while capturing, it can signal the
/// worker to stop.
pub open spec fn status_wf(s: CaptureStatus) -> bool {
    s.capturing ==> s.stop_armed()
}

/// The state after a run is started with a stop channel `stop_id` and a
/// result channel `result_id`: the next run number, capturing, and the new
/// sender and receiver held, nothing sent yet.
pub open spec fn started(s: CaptureStatus, stop_id: int, result_id: int) -> CaptureStatus {
    CaptureStatus {
        capturing: true,
        run: next_run(s.run),
        stop_tx: Some(StopEnd { id: stop_id, sent: 0 }),
        completion_rx: Some(result_id),
    }
}

/// The state after a stop request: nothing changes when no run is in
/// progress; otherwise samples stop being kept and one stop signal is sent on
/// the held sender, which stays held.
pub open spec fn after_stop(s: CaptureStatus) -> CaptureStatus {
    if !s.capturing {
        s
    } else {
        CaptureStatus {
            capturing: false,
            stop_tx: match s.stop_tx {
                Some(e) => Some(StopEnd { id: e.id, sent: e.sent + 1 }),
                None => None,
            },
            ..s
        }
    }
}

/// The state after the worker of run `run` reports that its stop signal
/// arrived: samples stop being kept, if that run is the latest one.
pub open spec fn after_stop_received(s: CaptureStatus, run: u64) -> CaptureStatus {
    if run == s.run {
        CaptureStatus { capturing: false, ..s }
    } else {
        s
    }
}

/// The state after the worker of run `run` reports that it finished, just
/// before it sends its result: if that run is the latest one, nothing is
/// captured and its stop sender is dropped; a report of an earlier run
/// changes nothing.
pub open spec fn after_worker_finished(s: CaptureStatus, run: u64) -> CaptureStatus {
    if run == s.run {
        CaptureStatus { capturing: false, stop_tx: None, ..s }
    } else {
        s
    }
}

/// The state after the run's result was taken, or its worker found gone
/// without one: the receiver is dropped, and the run is over, as when its
/// worker reports that it finished (which it does before sending its result):
/// nothing is captured and the stop sender is dropped.
pub open spec fn after_taken(s: CaptureStatus) -> CaptureStatus {
    CaptureStatus { capturing: false, stop_tx: None, completion_rx: None, ..s }
}

/// Whether a sample that the stream of run `run` delivers is to be written:
/// only audio, only while capturing, and only for the latest run.
pub open spec fn sample_accepted(s: CaptureStatus, run: u64, is_audio: bool) -> bool {
    s.capturing && s.run == run && is_audio
}

/// The message given when the worker went away without a result.
pub open spec fn worker_lost_message() -> Seq<char> {
    "Capture worker terminated unexpectedly"@
}

/// What taking a completion gives, and the state it leaves, when looking at
/// the held receiver found `poll`, from state `s`.
pub open spec fn completion_step(
    s: CaptureStatus,
    poll: CompletionPoll,
    res: Option<CaptureResult>,
    t: CaptureStatus,
) -> bool {
    match poll {
        CompletionPoll::Ready(r) => res == Some(r) && t == after_taken(s),
        CompletionPoll::Empty => res is None && t == s,
        CompletionPoll::Disconnected => {
            &&& res matches Some(Err(e))
            &&& e@ == worker_lost_message()
            &&& t == after_taken(s)
        },
    }
}

/// What taking a completion gives for what the channel showed: the result
/// sent, nothing yet, or an error when the worker went away without a result.
pub fn settle_completion(poll: CompletionPoll) -> (res: Option<CaptureResult>)
    ensures
        poll matches CompletionPoll::Ready(r) ==> res == Some(r),
        poll is Empty ==> res is None,
        poll is Disconnected ==> (res matches Some(Err(e)) && e@ == worker_lost_message()),
{
    match poll {
        CompletionPoll::Ready(r) => Some(r),
        CompletionPoll::Empty => None,
        CompletionPoll::Disconnected => Some(Err(String::from_str("Capture worker terminated unexpectedly"))),
    }
}

/// Every transition keeps the controller well-formed, starting from the idle
/// state, which is well-formed.
pub proof fn law_transitions_keep_wf(s: CaptureStatus, run: u64, stop_id: int, result_id: int)
    requires
        status_wf(s),
    ensures
        status_wf(idle()),
        status_wf(started(s, stop_id, result_id)),
        status_wf(after_stop(s)),
        status_wf(after_stop_received(s, run)),
        status_wf(after_worker_finished(s, run)),
        status_wf(after_taken(s)),
{
}

/// A stop request while no run is in progress changes nothing and sends
/// nothing, so stopping twice is stopping once: one signal in all.
pub proof fn law_redundant_stop_changes_nothing(s: CaptureStatus)
    ensures
        !s.capturing ==> after_stop(s) == s,
        after_stop(after_stop(s)) == after_stop(s),
{
}

/// Starting and then stopping leaves no capture in progress, sends exactly
/// one stop signal on the new run's stop channel, and leaves its result to be
/// collected.
pub proof fn law_start_then_stop(s: CaptureStatus, stop_id: int, result_id: int)
    ensures
        after_stop(started(s, stop_id, result_id)) == (CaptureStatus {
            capturing: false,
            run: next_run(s.run),
            stop_tx: Some(StopEnd { id: stop_id, sent: 1 }),
            completion_rx: Some(result_id),
        }),
{
}

/// A report of the worker of the run before the latest one changes nothing:
/// a worker that finishes late does not end the run started after it.
pub proof fn law_stale_reports_ignored(s: CaptureStatus, stop_id: int, result_id: int)
    ensures
        after_worker_finished(started(s, stop_id, result_id), s.run) == started(s, stop_id, result_id),
        after_stop_received(started(s, stop_id, result_id), s.run) == started(s, stop_id, result_id),
{
}

/// Only a start makes a result collectable: once a result has been taken
/// (or the worker found gone), stopping, the worker's reports and further
/// takes leave none to collect, so a run's result is handed out at most once.
pub proof fn law_result_handed_out_once(s: CaptureStatus, run: u64)
    ensures
        !after_taken(s).completion_pending(),
        after_stop(s).completion_rx == s.completion_rx,
        after_stop_received(s, run).completion_rx == s.completion_rx,
        after_worker_finished(s, run).completion_rx == s.completion_rx,
{
}

/// Once the run's result has been taken, or its worker found gone, no
/// capture is in progress and a new run can be started.
pub proof fn law_taken_result_ends_capture(s: CaptureStatus, stop_id: int, result_id: int)
    ensures
        !after_taken(s).capturing,
        started(after_taken(s), stop_id, result_id).capturing,
{
}

/// Once a newer run has started, samples of an earlier run are refused,
/// whatever happens to the newer run.
pub proof fn law_old_run_samples_refused(s: CaptureStatus, stop_id: int, result_id: int, is_audio: bool)
    ensures
        !sample_accepted(started(s, stop_id, result_id), s.run, is_audio),
        !sample_accepted(after_stop(started(s, stop_id, result_id)), s.run, is_audio),
{
}

/// Taking a completion follows what the look at the result channel found.
/// A result the worker sent is handed out unchanged, and the run is over.
/// While nothing has been sent and the worker is there, nothing is handed out
/// and nothing changes: the receiver is kept for the next look. Only when the
/// worker went away without sending is the error given. Conversely, a success
/// handed out is exactly what was sent, and nothing is handed out only while
/// the channel is empty.
pub proof fn law_taking_follows_channel(
    s: CaptureStatus,
    poll: CompletionPoll,
    res: Option<CaptureResult>,
    t: CaptureStatus,
)
    requires
        completion_step(s, poll, res, t),
    ensures
        poll matches CompletionPoll::Ready(r) ==> res == Some(r) && !t.completion_pending() && !t.capturing,
        poll is Empty ==> res is None && t == s && t.completion_rx == s.completion_rx,
        poll is Disconnected ==> (res matches Some(Err(e)) && e@ == worker_lost_message()) && !t.capturing,
        res matches Some(Ok(path)) ==> poll == CompletionPoll::Ready(Ok(path)),
        res matches Some(Err(e)) ==> poll == CompletionPoll::Ready(Err(e)) || poll is Disconnected,
        res is None ==> poll is Empty,
{
}

/// When the worker of the latest run reports that its stop signal arrived,
/// that run stays stopped: no capture is in progress, no sample of any run is
/// accepted, and a new run can be started; the stop sender and the result
/// receiver are kept. A report of any other run changes nothing.
pub proof fn law_stop_report_keeps_run_stopped(
    s: CaptureStatus,
    run: u64,
    sample_run: u64,
    is_audio: bool,
    stop_id: int,
    result_id: int,
)
    ensures
        !after_stop_received(s, s.run).capturing,
        !sample_accepted(after_stop_received(s, s.run), sample_run, is_audio),
        started(after_stop_received(s, s.run), stop_id, result_id).capturing,
        after_stop_received(s, s.run).stop_tx == s.stop_tx,
        after_stop_received(s, s.run).completion_rx == s.completion_rx,
        !after_stop_received(after_stop(s), s.run).capturing,
        run != s.run ==> after_stop_received(s, run) == s,
{
}

/// What a capture worker is given when it is started: where to write, the
/// number of its run, where its stop signal arrives, and where to send its
/// result.
pub struct CaptureJob {
    pub file_path: String,
    pub run: u64,
    pub stop_rx: StopReceiver,
    pub completion_tx: ResultSender,
}

/// The controller of the capture worker.
pub struct CaptureController {
    capturing: bool,
    run: u64,
    stop_tx: Option<StopSender>,
    completion_rx: Option<ResultReceiver>,
    spent_rx: Option<ResultReceiver>,
}

impl View for CaptureController {
    type V = CaptureStatus;

    closed spec fn view(&self) -> CaptureStatus {
        CaptureStatus {
            capturing: self.capturing,
            run: self.run,
            stop_tx: match self.stop_tx {
                Some(s) => Some(StopEnd { id: s.id(), sent: s.sent() }),
                None => None,
            },
            completion_rx: match self.completion_rx {
                Some(r) => Some(r.id()),
                None => None,
            },
        }
    }
}

impl CaptureController {
    /// The receiver this controller looked at last: the one it still holds,
    /// or else the one it gave up when it handed out a result; as the channel
    /// it belongs to, how often it was looked at, and what the latest look
    /// found.
    pub closed spec fn last_look(&self) -> Option<(int, nat, Option<CompletionPoll>)> {
        match self.completion_rx {
            Some(r) => Some((r.id(), r.polls(), r.last_poll())),
            None => match self.spent_rx {
                Some(r) => Some((r.id(), r.polls(), r.last_poll())),
                None => None,
            },
        }
    }

    /// How often the receiver the controller holds has been looked at.
    pub closed spec fn held_polls(&self) -> nat {
        match self.completion_rx {
            Some(r) => r.polls(),
            None => 0,
        }
    }

    #[verifier::type_invariant]
    spec fn inv(self) -> bool {
        self.capturing ==> self.stop_tx is Some
    }

    /// A controller with no run in progress.
    pub fn new() -> (res: CaptureController)
        ensures
            res@ == idle(),
            status_wf(res@),
    {
        CaptureController { capturing: false, run: 0, stop_tx: None, completion_rx: None, spent_rx: None }
    }

    /// Requests a capture into `file_path`. When a run is already in
    /// progress nothing changes and `None` is returned. Otherwise a new run,
    /// with the next number, begins: two new channels are opened, the
    /// controller keeps the stop sender and the result receiver, and the
    /// worker's job is returned with the other ends of those same channels;
    /// the sender and receiver of an earlier run are given up.
    pub fn start_audio_capture(&mut self, file_path: String) -> (job: Option<CaptureJob>)
        ensures
            status_wf(final(self)@),
            old(self)@.capturing ==> job is None && final(self)@ == old(self)@,
            !old(self)@.capturing ==> (job matches Some(j) && {
                &&& j.file_path@ == file_path@
                &&& final(self)@ == started(old(self)@, j.stop_rx.id(), j.completion_tx.id())
                &&& j.run == final(self)@.run
                &&& final(self).held_polls() == 0
            }),
    {
        proof {
            use_type_invariant(&*self);
        }
        if self.capturing {
            return None;
        }
        let (stop_tx, stop_rx) = open_stop_channel();
        let (completion_tx, completion_rx) = open_result_channel();
        let run: u64 = if self.run == u64::MAX { 0 } else { self.run + 1 };
        self.stop_tx = Some(stop_tx);
        self.completion_rx = Some(completion_rx);
        self.run = run;
        self.capturing = true;
        Some(CaptureJob { file_path, run, stop_rx, completion_tx })
    }

    /// Requests the end of the run in progress: samples stop being kept at
    /// once and one stop signal is sent to the worker on the held sender.
    /// Does nothing, and sends nothing, when no run is in progress.
    pub fn stop_audio_capture(&mut self)
        ensures
            status_wf(final(self)@),
            final(self)@ == after_stop(old(self)@),
    {
        proof {
            use_type_invariant(&*self);
        }
        if !self.capturing {
            return;
        }
        self.capturing = false;
        let mut held: Option<StopSender> = None;
        std::mem::swap(&mut held, &mut self.stop_tx);
        match held {
            Some(mut sender) => {
                send_stop(&mut sender);
                self.stop_tx = Some(sender);
            },
            None => {},
        }
    }

    /// Whether a capture run is in progress.
    pub fn is_capturing(&self) -> (res: bool)
        ensures
            res == self@.capturing,
            status_wf(self@),
    {
        proof {
            use_type_invariant(self);
        }
        self.capturing
    }

    /// Whether a sample delivered to the stream's handler of run `run` is to
    /// be written: only audio, only while capturing, and only for the latest
    /// run.
    pub fn accepts_sample(&self, run: u64, is_audio: bool) -> (res: bool)
        ensures
            res == sample_accepted(self@, run, is_audio),
            status_wf(self@),
    {
        proof {
            use_type_invariant(self);
        }
        self.capturing && self.run == run && is_audio
    }

    /// Takes the result of a finished run, without waiting, from the held
    /// receiver. Gives `None` when no receiver is held, or when no result has
    /// arrived yet (the same receiver is then kept for the next call). Gives
    /// the result when one has arrived, or an error when the worker went away
    /// without one; either way the receiver is dropped, so that a result is
    /// handed out once, and the run is over.
    pub fn try_take_completion(&mut self) -> (res: Option<CaptureResult>)
        ensures
            status_wf(final(self)@),
            !old(self)@.completion_pending() ==> res is None && final(self)@ == old(self)@,
            old(self)@.completion_pending() ==> exists|poll: CompletionPoll|
                completion_step(old(self)@, poll, res, final(self)@),
            old(self)@.completion_pending() ==> (final(self).last_look() matches Some((id, n, Some(p))) && {
                &&& old(self)@.completion_rx == Some(id)
                &&& n == old(self).held_polls() + 1
                &&& completion_step(old(self)@, p, res, final(self)@)
            }),
    {
        proof {
            use_type_invariant(&*self);
        }
        let mut held: Option<ResultReceiver> = None;
        std::mem::swap(&mut held, &mut self.completion_rx);
        let mut rx = match held {
            Some(rx) => rx,
            None => return None,
        };
        let poll = poll_result(&mut rx);
        let ghost polled = poll;
        let res = settle_completion(poll);
        if res.is_none() {
            self.completion_rx = Some(rx);
        } else {
            self.capturing = false;
            self.stop_tx = None;
            self.spent_rx = Some(rx);
        }
        proof {
            assert(completion_step(old(self)@, polled, res, self@));
        }
        res
    }

    /// Notes that the worker of run `run` received its stop signal: samples
    /// stop being kept, if that run is the latest one.
    pub fn stop_signal_received(&mut self, run: u64)
        ensures
            status_wf(final(self)@),
            final(self)@ == after_stop_received(old(self)@, run),
    {
        proof {
            use_type_invariant(&*self);
        }
        if run == self.run {
            self.capturing = false;
        }
    }

    /// Notes that the worker of run `run` finished: if that run is the
    /// latest one, nothing is captured and its stop sender is dropped; a
    /// report from a worker of an earlier run is ignored.
    pub fn worker_finished(&mut self, run: u64)
        ensures
            status_wf(final(self)@),
            final(self)@ == after_worker_finished(old(self)@, run),
    {
        proof {
            use_type_invariant(&*self);
        }
        if run == self.run {
            self.capturing = false;
            self.stop_tx = None;
        }
    }
}

/// The settings the capture stream is opened with: a one-pixel picture, and
/// the system audio as stereo at 48 kHz.
pub struct StreamSettings {
    pub width: u32,
    pub height: u32,
    pub captures_audio: bool,
    pub sample_rate: u32,
    pub channel_count: u16,
}

/// The settings the capture stream is opened with.
pub fn stream_settings() -> (res: StreamSettings)
    ensures
        res.width == 1,
        res.height == 1,
        res.captures_audio,
        res.sample_rate == 48000,
        res.channel_count == 2,
        crate::wav::format_fits(res.sample_rate, res.channel_count),
{
    StreamSettings { width: 1, height: 1, captures_audio: true, sample_rate: 48000, channel_count: 2 }
}

/// The two files of a run into `file_path`: the WAV intermediate that the
/// samples are streamed into, and the compressed M4A file it is converted
/// to; both are `file_path` with its extension replaced.
pub fn output_paths(file_path: &str) -> (res: (String, String))
    ensures
        res.0@ == path_with_extension(file_path@, "wav"@),
        res.1@ == path_with_extension(file_path@, "m4a"@),
{
    proof {
        reveal_strlit("wav");
        reveal_strlit("m4a");
    }
    (with_extension(file_path, "wav"), with_extension(file_path, "m4a"))
}

/// The arguments of the converter run on a finished WAV file: M4A container,
/// AAC at 128 kbit/s, from `wav_path` to `m4a_path`.
pub fn afconvert_args(wav_path: &str, m4a_path: &str) -> (res: Vec<String>)
    ensures
        res@.len() == 8,
        res@[0]@ == "-f"@,
        res@[1]@ == "m4af"@,
        res@[2]@ == "-d"@,
        res@[3]@ == "aac"@,
        res@[4]@ == "-b"@,
        res@[5]@ == "128000"@,
        res@[6]@ == wav_path@,
        res@[7]@ == m4a_path@,
{
    let mut res: Vec<String> = Vec::new();
    res.push(String::from_str("-f"));
    res.push(String::from_str("m4af"));
    res.push(String::from_str("-d"));
    res.push(String::from_str("aac"));
    res.push(String::from_str("-b"));
    res.push(String::from_str("128000"));
    res.push(String::from_str(wav_path));
    res.push(String::from_str(m4a_path));
    res
}

/// How a run ends once the converter has run.
pub struct ConversionOutcome {
    /// The result the run reports.
    pub result: CaptureResult,
    /// Whether the WAV intermediate is to be deleted.
    pub remove_wav: bool,
}

/// After a successful conversion the run reports the M4A file and the WAV
/// intermediate is deleted; after a failed one it reports the WAV file,
/// which is kept.
pub fn conversion_outcome(converted: bool, wav_path: String, m4a_path: String) -> (res: ConversionOutcome)
    ensures
        converted ==> (res.result matches Ok(p) && p@ == m4a_path@),
        !converted ==> (res.result matches Ok(p) && p@ == wav_path@),
        res.remove_wav == converted,
{
    if converted {
        ConversionOutcome { result: Ok(m4a_path), remove_wav: true }
    } else {
        ConversionOutcome { result: Ok(wav_path), remove_wav: false }
    }
}

} // verus!
