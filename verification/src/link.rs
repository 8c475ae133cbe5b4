use vstd::prelude::*;

use crate::protocol::{response_to, Command, Response};
use crate::ErrorCode;

verus! {

/// Capacity of each directional queue: how many entries may be outstanding
/// in one direction before an enqueue blocks.
pub const CHANNEL_CAPACITY: usize = 1024;

#[verifier::external_type_specification]
#[verifier::external_body]
#[verifier::reject_recursive_types(T)]
pub struct ExSender<T>(tokio::sync::mpsc::Sender<T>);

#[verifier::external_type_specification]
#[verifier::external_body]
#[verifier::reject_recursive_types(T)]
pub struct ExReceiver<T>(tokio::sync::mpsc::Receiver<T>);

/// Relies on tokio::sync::mpsc::channel: builds one bounded FIFO channel
/// that holds up to `cap` entries and hands back its two ends. The function
/// panics on a zero capacity, so that input is excluded here.
#[verifier::external_body]
fn new_channel<T>(cap: usize) -> (r: (
    tokio::sync::mpsc::Sender<T>,
    tokio::sync::mpsc::Receiver<T>,
))
    requires
        1 <= cap <= 0x1000_0000,
{
    tokio::sync::mpsc::channel(cap)
}

/// Relies on tokio::sync::mpsc::Sender::blocking_send: enqueues the value
/// in FIFO order, blocking the calling thread while the channel is full
/// (backpressure, nothing is ever dropped), and returns `Err` exactly when
/// the receiving half is gone. Whether that half is gone depends on another
/// thread, so nothing more is promised of the outcome. Must not be called
/// from inside an asynchronous context (it would panic there); nothing in
/// this crate runs it inside one.
#[verifier::external_body]
fn send_blocking<T>(tx: &tokio::sync::mpsc::Sender<T>, value: T) -> (accepted: bool) {
    tx.blocking_send(value).is_ok()
}

/// Relies on tokio::sync::mpsc::Receiver::blocking_recv: dequeues the next
/// entry in FIFO order, blocking while the channel is empty and some sender
/// is still alive; returns `None` exactly when the channel is empty and
/// every sender is gone. Must not be called from inside an asynchronous
/// context (it would panic there); nothing in this crate runs it inside
/// one.
#[verifier::external_body]
fn recv_blocking<T>(rx: &mut tokio::sync::mpsc::Receiver<T>) -> (r: Option<T>) {
    rx.blocking_recv()
}

/// What one non-blocking look at the response queue saw.
#[derive(Clone, Copy, Debug, PartialEq, Eq, Structural)]
pub enum PollOutcome {
    /// One response was queued; here it is.
    Ready(Response),
    /// Nothing queued, but the producing side is still alive.
    Empty,
    /// Nothing queued and the producing side is gone: permanently empty.
    Closed,
}

/// Relies on tokio::sync::mpsc::Receiver::try_recv: never blocks; returns
/// the next queued entry in FIFO order if there is one, `Empty` if none is
/// queued while a sender is still alive, and `Disconnected` only once the
/// channel is empty and every sender is gone. Which of these holds depends
/// on another thread, so nothing more is promised of the outcome.
#[verifier::external_body]
fn try_recv_response(rx: &mut tokio::sync::mpsc::Receiver<Response>) -> (r: PollOutcome) {
    match rx.try_recv() {
        Ok(resp) => PollOutcome::Ready(resp),
        Err(tokio::sync::mpsc::error::TryRecvError::Empty) => PollOutcome::Empty,
        Err(tokio::sync::mpsc::error::TryRecvError::Disconnected) => PollOutcome::Closed,
    }
}

/// The caller-facing ends of the bridge: the command sender and the
/// response receiver. Built once by `Link::open`, never reconstructed.
///
/// The Link itself adds no locking: concurrent `poll` calls from several
/// threads race on who receives which response, so a caller wanting the
/// documented ordering must funnel all polling through one thread.
pub struct Link {
    tx: tokio::sync::mpsc::Sender<Command>,
    rx: tokio::sync::mpsc::Receiver<Response>,
}

impl Link {
    /// Builds the bounded queue pair and splits it: the `Link` keeps the
    /// caller-facing ends, and the loop-facing ends (response sender,
    /// command receiver) are handed back for driving `serve_next`.
    pub fn open() -> (r: (Link, tokio::sync::mpsc::Sender<Response>, tokio::sync::mpsc::Receiver<
        Command,
    >)) {
        let (client_tx, loop_rx) = new_channel::<Command>(CHANNEL_CAPACITY);
        let (loop_tx, client_rx) = new_channel::<Response>(CHANNEL_CAPACITY);
        (Link { tx: client_tx, rx: client_rx }, loop_tx, loop_rx)
    }

    /// Submits one command: a blocking enqueue into the command queue.
    /// The calling thread suspends while the queue is at capacity; the
    /// wait is unbounded. `Success` when the queue accepted the command,
    /// `Failure` when the consuming side (the event loop) is gone —
    /// never `TryLater`.
    pub fn submit(&self, c: Command) -> (r: ErrorCode)
        ensures
            !(r is TryLater),
    {
        let accepted = send_blocking(&self.tx, c);
        submit_outcome(accepted)
    }

    /// Polls for one response: a non-blocking dequeue attempt from the
    /// response queue. Yields the response with `Success`, or `TryLater`
    /// (nothing ready yet, retry), or `Failure` (the producing side is
    /// gone and the queue is permanently empty). A response comes back
    /// exactly with `Success`.
    pub fn poll(&mut self) -> (r: (ErrorCode, Option<Response>))
        ensures
            r.0 is Success <==> r.1 is Some,
    {
        let seen = try_recv_response(&mut self.rx);
        poll_outcome(seen)
    }
}

/// The status the submission path answers with, given whether the command
/// queue accepted the command.
pub open spec fn submit_decision(accepted: bool) -> ErrorCode {
    if accepted {
        ErrorCode::Success
    } else {
        ErrorCode::Failure
    }
}

/// The status a submission reports, given whether the command queue
/// accepted the command: acceptance is `Success`, a gone consumer is
/// `Failure`, and `TryLater` never arises on the submission path.
pub fn submit_outcome(accepted: bool) -> (r: ErrorCode)
    ensures
        r == submit_decision(accepted),
{
    if accepted {
        ErrorCode::Success
    } else {
        ErrorCode::Failure
    }
}

/// The status and payload the polling path answers with, given what the
/// non-blocking dequeue saw.
pub open spec fn poll_decision(seen: PollOutcome) -> (ErrorCode, Option<Response>) {
    match seen {
        PollOutcome::Ready(resp) => (ErrorCode::Success, Some(resp)),
        PollOutcome::Empty => (ErrorCode::TryLater, None),
        PollOutcome::Closed => (ErrorCode::Failure, None),
    }
}

/// The status and payload a poll reports, given what the non-blocking
/// dequeue saw: a queued response is `Success` with that response, an
/// empty-but-open queue is `TryLater`, a permanently empty queue is
/// `Failure`; no response comes back in the latter two.
pub fn poll_outcome(seen: PollOutcome) -> (r: (ErrorCode, Option<Response>))
    ensures
        r == poll_decision(seen),
{
    match seen {
        PollOutcome::Ready(resp) => (ErrorCode::Success, Some(resp)),
        PollOutcome::Empty => (ErrorCode::TryLater, None),
        PollOutcome::Closed => (ErrorCode::Failure, None),
    }
}

/// The event loop's work for one dequeued command: answer it through the
/// protocol and deliver the response. The result says whether the loop
/// goes on: `Exit` stops it without an answer, and so does a response
/// that can no longer be delivered (the outward queue's consumer is
/// gone). The delivery is a blocking enqueue, so a full response queue
/// exerts backpressure here rather than dropping anything.
pub fn serve_command(tx: &tokio::sync::mpsc::Sender<Response>, c: &Command) -> (running: bool)
    ensures
        *c is Exit ==> !running,
{
    match response_to(c) {
        None => false,
        Some(resp) => send_blocking(tx, resp),
    }
}

/// One full turn of the event loop: a blocking dequeue of the next
/// command in FIFO order, then `serve_command` on it. The result says
/// whether the loop goes on; a gone producing side (no command can ever
/// arrive again) stops it just as `Exit` does. Drive this in a loop until
/// it returns false and the event loop has run to termination.
pub fn serve_next(
    tx: &tokio::sync::mpsc::Sender<Response>,
    rx: &mut tokio::sync::mpsc::Receiver<Command>,
) -> (running: bool) {
    match recv_blocking(rx) {
        None => false,
        Some(c) => serve_command(tx, &c),
    }
}

} // verus!
