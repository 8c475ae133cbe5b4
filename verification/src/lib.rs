//! A bridge that lets a caller outside a managed runtime drive an
//! asynchronous worker loop through a narrow boundary: submit discrete
//! commands, poll later for the responses, in lock-step order.
//!
//! The pieces: `Command` and `Response` with the command/response
//! protocol and its laws (`protocol`), the caller-facing `Link` over a
//! bounded queue pair with the event loop's turns (`link`), and the
//! bridge's state-machine model with the laws of submitting, polling and
//! termination (`model`). The raw foreign handle and the scheduler that
//! hosts the loop live outside this library; they hand plain values in
//! and take plain values back.

pub mod link;
pub mod model;
pub mod protocol;

pub use link::Link;
pub use link::PollOutcome;
pub use protocol::Command;
pub use protocol::Response;

use vstd::prelude::*;

verus! {

/// Status of a boundary operation.
///
/// `Success` reports that the call did its work. `Failure` is unrecoverable
/// for that call: an invalid handle, a terminated loop, or a construction
/// failure. `TryLater` is not an error: nothing was ready, and retrying is
/// the correct response.
#[derive(Clone, Copy, Debug, PartialEq, Eq, Structural)]
pub enum ErrorCode {
    Success,
    Failure,
    TryLater,
}

impl ErrorCode {
    /// Aborts the caller on anything but `Success`; callers must have
    /// established `Success` first, so the aborting arms are unreachable.
    pub fn unwrap(&self)
        requires
            *self is Success,
    {
        match self {
            ErrorCode::Success => {}
            ErrorCode::Failure => assert(false),
            ErrorCode::TryLater => assert(false),
        }
    }
}

} // verus!
