//! The error taxonomy of the engine.
//!
//! Every failure a caller can see is one of these, each tied to the point of
//! the exchange where it arises. `WorkerCrashed` and `ChannelClosed` are the
//! two fatal outcomes: after either, the session slot is cleared and the next
//! call spawns a fresh worker. A `WorkerReportedFailure` and a `WriteFailure`
//! leave the worker live; a `SpawnFailure` means no worker ever existed for
//! this call.

use vstd::prelude::*;
use vstd::string::StringExecFns;

use crate::codec::int_chars;

verus! {

/// What went wrong with one call.
#[derive(Debug, PartialEq, Eq)]
pub enum SidecarError {
    /// The worker could not be launched; the slot stays empty and the next
    /// call retries the spawn.
    SpawnFailure(String),
    /// The request line could not be delivered; the worker is presumed
    /// salvageable and stays live.
    WriteFailure(String),
    /// The worker answered with a failure line; its message is carried
    /// as-is. The worker stays live.
    WorkerReportedFailure(String),
    /// The worker process exited during the exchange, with the exit code if
    /// one was available. Fatal to the session.
    WorkerCrashed(Option<i32>),
    /// The event channel ended without a terminal line. Fatal to the
    /// session.
    ChannelClosed,
    /// The worker reported success, but the payload failed the operation's
    /// validation (a reserved control token where none may appear, or a
    /// missing ready token).
    ProtocolViolation(String),
    /// An explicit stop found a live worker but could not kill it. The slot
    /// is cleared anyway.
    KillFailure(String),
}

/// The descriptive message of an error, character for character.
pub open spec fn message_chars(e: SidecarError) -> Seq<char> {
    match e {
        SidecarError::SpawnFailure(m) => "failed to spawn the worker: "@ + m@,
        SidecarError::WriteFailure(m) => "failed to send the request to the worker: "@ + m@,
        SidecarError::WorkerReportedFailure(m) => m@,
        SidecarError::WorkerCrashed(c) => match c {
            Option::Some(code) => "worker crashed or stopped with code "@ + int_chars(code as int),
            Option::None => "worker crashed or stopped without an exit code"@,
        },
        SidecarError::ChannelClosed => "worker channel closed unexpectedly"@,
        SidecarError::ProtocolViolation(m) => "unexpected worker response: "@ + m@,
        SidecarError::KillFailure(m) => "failed to kill the worker process: "@ + m@,
    }
}

impl SidecarError {
    /// The error as a descriptive message for the caller.
    pub fn message(&self) -> (r: String)
        ensures
            r@ == message_chars(*self),
    {
        let mut out = String::new();
        match self {
            SidecarError::SpawnFailure(m) => {
                out.append("failed to spawn the worker: ");
                out.append(m.as_str());
            },
            SidecarError::WriteFailure(m) => {
                out.append("failed to send the request to the worker: ");
                out.append(m.as_str());
            },
            SidecarError::WorkerReportedFailure(m) => {
                out.append(m.as_str());
            },
            SidecarError::WorkerCrashed(c) => match c {
                Option::Some(code) => {
                    out.append("worker crashed or stopped with code ");
                    crate::codec::push_i32_dec(&mut out, *code);
                },
                Option::None => {
                    out.append("worker crashed or stopped without an exit code");
                },
            },
            SidecarError::ChannelClosed => {
                out.append("worker channel closed unexpectedly");
            },
            SidecarError::ProtocolViolation(m) => {
                out.append("unexpected worker response: ");
                out.append(m.as_str());
            },
            SidecarError::KillFailure(m) => {
                out.append("failed to kill the worker process: ");
                out.append(m.as_str());
            },
        }
        proof {
            assert(out@ =~= message_chars(*self));
        }
        out
    }
}

/// Whether an error forces the session slot back to `Absent`.
pub open spec fn is_fatal(e: SidecarError) -> bool {
    match e {
        SidecarError::WorkerCrashed(_) => true,
        SidecarError::ChannelClosed => true,
        _ => false,
    }
}

/// Whether an exchange outcome forces the session slot back to `Absent`.
pub open spec fn is_fatal_outcome<T>(r: Result<T, SidecarError>) -> bool {
    match r {
        Result::Ok(_) => false,
        Result::Err(e) => is_fatal(e),
    }
}

} // verus!
