//! The decisions of a connection's read loop, which carries client input to
//! the hub.
//!
//! The loop waits for either bytes from the client or cancellation; each such
//! event is handed to `read_step`, whose action the loop then carries out.
use vstd::prelude::*;
use crate::error::AttachError;
use crate::frame::{is_inbound_payload, truncate_at_zero};

verus! {

/// The OS error number of an I/O error (Linux).
pub const EIO: i32 = 5;

/// The OS error number of an invalid file descriptor (Linux).
pub const EBADF: i32 = 9;

/// The OS error number of an operation that would block (Linux).
pub const EAGAIN: i32 = 11;

/// The classes of OS error that a read loop tells apart.
#[derive(Clone, Copy, Debug, PartialEq, Eq, Structural)]
pub enum OsError {
    /// `EIO`: the client went away.
    Io,
    /// `EBADF`: the descriptor is invalid.
    BadDescriptor,
    /// `EAGAIN`: nothing to read yet.
    WouldBlock,
    /// Any other error number.
    Other(i32),
}

/// The class of the OS error number `code`.
pub open spec fn os_error_of(code: i32) -> OsError {
    if code == EIO {
        OsError::Io
    } else if code == EBADF {
        OsError::BadDescriptor
    } else if code == EAGAIN {
        OsError::WouldBlock
    } else {
        OsError::Other(code)
    }
}

/// Relies on nix::errno::Errno::from_i32, which on Linux maps 5 to `EIO`,
/// 9 to `EBADF`, 11 to `EAGAIN` and every other number to another variant.
#[verifier::external_body]
fn classify_errno(code: i32) -> (r: OsError)
    ensures
        r == os_error_of(code),
{
    match nix::errno::Errno::from_i32(code) {
        nix::errno::Errno::EIO => OsError::Io,
        nix::errno::Errno::EBADF => OsError::BadDescriptor,
        nix::errno::Errno::EAGAIN => OsError::WouldBlock,
        _ => OsError::Other(code),
    }
}

/// What one wait of a read loop brought.
#[derive(Clone, Copy, Debug, PartialEq, Eq, Structural)]
pub enum ReadOutcome {
    /// Shutdown was requested.
    Cancelled,
    /// The read returned this many bytes.
    Data(usize),
    /// The read failed, with the OS error number where there is one.
    Failed(Option<i32>),
}

/// What a read loop does next.
#[derive(Debug)]
pub enum ReadAction {
    /// Hand this input to the hub, then read again.
    Publish(Vec<u8>),
    /// Read again.
    Continue,
    /// Report this OS error number, then read again.
    Report(i32),
    /// Stop the loop: it is done.
    Exit,
    /// Stop the loop with this error.
    Fail(AttachError),
}

/// `act` is what a read loop does after `outcome`, with `buf` the frame that
/// the read filled.
pub open spec fn read_step_spec(buf: Seq<u8>, outcome: ReadOutcome, act: ReadAction) -> bool {
    match outcome {
        ReadOutcome::Cancelled => act is Exit,
        ReadOutcome::Data(n) => if n > 0 {
            act is Publish && is_inbound_payload(buf, act->Publish_0@)
        } else {
            act is Continue
        },
        ReadOutcome::Failed(None) => act == ReadAction::Fail(AttachError::MissingOsError),
        ReadOutcome::Failed(Some(code)) => match os_error_of(code) {
            OsError::Io => act is Exit,
            OsError::BadDescriptor => act == ReadAction::Fail(AttachError::BadFileDescriptor),
            OsError::WouldBlock => act is Continue,
            OsError::Other(c) => act == ReadAction::Report(c),
        },
    }
}

/// Decides what a read loop does after `outcome`. Input ends at the first zero
/// byte of the frame; `EIO` ends the loop cleanly, `EBADF` fails it, `EAGAIN`
/// and an empty read read again, and any other error is reported and the loop
/// goes on.
pub fn read_step(buf: Vec<u8>, outcome: ReadOutcome) -> (r: ReadAction)
    ensures
        read_step_spec(buf@, outcome, r),
{
    match outcome {
        ReadOutcome::Cancelled => ReadAction::Exit,
        ReadOutcome::Data(n) => {
            if n > 0 {
                ReadAction::Publish(truncate_at_zero(buf))
            } else {
                ReadAction::Continue
            }
        },
        ReadOutcome::Failed(None) => ReadAction::Fail(AttachError::MissingOsError),
        ReadOutcome::Failed(Some(code)) => match classify_errno(code) {
            OsError::Io => ReadAction::Exit,
            OsError::BadDescriptor => ReadAction::Fail(AttachError::BadFileDescriptor),
            OsError::WouldBlock => ReadAction::Continue,
            OsError::Other(c) => ReadAction::Report(c),
        },
    }
}

/// A read that fails with `EIO` ends the loop without an error, and one that
/// fails with `EBADF` fails it with `AttachError::BadFileDescriptor`, an error
/// that no other outcome gives.
pub proof fn lemma_read_error_policy(buf: Seq<u8>, outcome: ReadOutcome, act: ReadAction)
    requires
        read_step_spec(buf, outcome, act),
    ensures
        outcome == ReadOutcome::Failed(Some(EIO)) ==> act is Exit,
        outcome == ReadOutcome::Failed(Some(EBADF)) ==> act == ReadAction::Fail(
            AttachError::BadFileDescriptor,
        ),
        act == ReadAction::Fail(AttachError::BadFileDescriptor) ==> outcome
            == ReadOutcome::Failed(Some(EBADF)),
{
}

} // verus!
