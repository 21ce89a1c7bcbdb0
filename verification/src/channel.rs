//! The two channels between the capture controller and its worker: one that
//! carries the stop signal to the worker, one that carries the run's result
//! back. Each end carries the identity of the channel it belongs to, and the
//! stop sender counts the signals sent on it.

use vstd::prelude::*;
use std::sync::mpsc::{Receiver, Sender};

verus! {

/// What a capture run ends with: the path of the finished audio file, or a
/// message saying why it failed.
pub type CaptureResult = Result<String, String>;

#[verifier::external_type_specification]
#[verifier::external_body]
#[verifier::reject_recursive_types(T)]
pub struct ExSender<T>(Sender<T>);

#[verifier::external_type_specification]
#[verifier::external_body]
#[verifier::reject_recursive_types(T)]
pub struct ExReceiver<T>(Receiver<T>);

/// The sending end of a stop-signal channel.
pub struct StopSender {
    tx: Sender<()>,
    id: Ghost<int>,
    sent: Ghost<nat>,
}

/// The receiving end of a stop-signal channel.
pub struct StopReceiver {
    rx: Receiver<()>,
    id: Ghost<int>,
}

/// The sending end of a result channel.
pub struct ResultSender {
    tx: Sender<CaptureResult>,
    id: Ghost<int>,
}

/// The receiving end of a result channel.
pub struct ResultReceiver {
    rx: Receiver<CaptureResult>,
    id: Ghost<int>,
    polls: Ghost<nat>,
    last: Ghost<Option<CompletionPoll>>,
}

/// What a non-blocking look at a result channel found.
pub enum CompletionPoll {
    /// The worker sent this result.
    Ready(CaptureResult),
    /// Nothing has been sent yet and the worker is still there.
    Empty,
    /// The worker went away without sending anything.
    Disconnected,
}

impl StopSender {
    /// The channel this end belongs to.
    pub closed spec fn id(&self) -> int {
        self.id@
    }

    /// How many stop signals have been sent on this end.
    pub closed spec fn sent(&self) -> nat {
        self.sent@
    }
}

impl StopReceiver {
    /// The channel this end belongs to.
    pub closed spec fn id(&self) -> int {
        self.id@
    }

    /// The standard-library receiver, on which the worker waits.
    pub fn receiver(&self) -> &Receiver<()> {
        &self.rx
    }
}

impl ResultSender {
    /// The channel this end belongs to.
    pub closed spec fn id(&self) -> int {
        self.id@
    }

    /// The standard-library sender, on which the worker sends its result.
    pub fn sender(&self) -> &Sender<CaptureResult> {
        &self.tx
    }
}

impl ResultReceiver {
    /// The channel this end belongs to.
    pub closed spec fn id(&self) -> int {
        self.id@
    }

    /// How many times this end has been looked at.
    pub closed spec fn polls(&self) -> nat {
        self.polls@
    }

    /// What the latest look at this end found, if it has been looked at.
    pub closed spec fn last_poll(&self) -> Option<CompletionPoll> {
        self.last@
    }
}

/// A new stop-signal channel: both ends belong to it, and nothing has been
/// sent on it.
///
/// Calls `std::sync::mpsc::channel`, which returns the two halves of one new
/// channel; the ghost identity given to both ends records that.
#[verifier::external_body]
pub fn open_stop_channel() -> (res: (StopSender, StopReceiver))
    ensures
        res.0.id() == res.1.id(),
        res.0.sent() == 0,
{
    let (tx, rx) = std::sync::mpsc::channel::<()>();
    (StopSender { tx, id: Ghost(0), sent: Ghost(0) }, StopReceiver { rx, id: Ghost(0) })
}

/// A new result channel: both ends belong to it, and its receiver has not
/// been looked at.
///
/// Calls `std::sync::mpsc::channel`, which returns the two halves of one new
/// channel; the ghost identity given to both ends records that, and the
/// receiver's ghost record of looks starts empty.
#[verifier::external_body]
pub fn open_result_channel() -> (res: (ResultSender, ResultReceiver))
    ensures
        res.0.id() == res.1.id(),
        res.1.polls() == 0,
        res.1.last_poll() is None,
{
    let (tx, rx) = std::sync::mpsc::channel::<CaptureResult>();
    (
        ResultSender { tx, id: Ghost(0) },
        ResultReceiver { rx, id: Ghost(0), polls: Ghost(0), last: Ghost(None) },
    )
}

/// Sends one stop signal on `sender`.
///
/// Calls `std::sync::mpsc::Sender::send`, which never blocks. The signal is
/// counted on the sender. Whether the receiver is still there to take it
/// depends on another thread, so delivery is not stated; a failed send (the
/// worker has already gone) is ignored.
#[verifier::external_body]
pub fn send_stop(sender: &mut StopSender)
    ensures
        final(sender).id() == old(sender).id(),
        final(sender).sent() == old(sender).sent() + 1,
{
    let _ = sender.tx.send(());
}

/// Looks at a result channel without waiting.
///
/// Calls `std::sync::mpsc::Receiver::try_recv` and tells its outcomes apart:
/// the value the worker sent (the channel hands out what was sent, unchanged),
/// nothing sent yet with the sender still there, or the sender gone with
/// nothing left. Which of these it finds depends on the worker thread, so that
/// is not stated; the receiver's ghost record counts the look and keeps what
/// it found.
#[verifier::external_body]
pub fn poll_result(receiver: &mut ResultReceiver) -> (res: CompletionPoll)
    ensures
        final(receiver).id() == old(receiver).id(),
        final(receiver).polls() == old(receiver).polls() + 1,
        final(receiver).last_poll() == Some(res),
{
    match receiver.rx.try_recv() {
        Ok(r) => CompletionPoll::Ready(r),
        Err(std::sync::mpsc::TryRecvError::Empty) => CompletionPoll::Empty,
        Err(std::sync::mpsc::TryRecvError::Disconnected) => CompletionPoll::Disconnected,
    }
}

} // verus!
