//! The errors of the attach engine.
use vstd::prelude::*;

verus! {

/// Why an attach loop, or a call on the hub, failed.
#[derive(Clone, Copy, Debug, PartialEq, Eq, Structural)]
pub enum AttachError {
    /// A read from a client reported that the descriptor is invalid.
    BadFileDescriptor,
    /// A read from a client failed without an OS error number.
    MissingOsError,
    /// Client input could not be handed on: no inbound receiver is left.
    PublishFailed,
    /// Container output could not be handed on: no outbound receiver is left.
    SendFailed,
    /// The outbound channel of a write loop was closed.
    ChannelClosed,
    /// A write loop fell behind the outbound channel by this many messages.
    Lagged(u64),
    /// Writing the frame `index` of `total` frames to a client failed.
    WriteFailed { index: usize, total: usize },
    /// Writing the closing all-zero frame to a client failed.
    DoneWriteFailed,
}

} // verus!
