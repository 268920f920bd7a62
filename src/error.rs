//! Errors reported by the library.
use vstd::prelude::*;

verus! {

/// Why an operation failed.
#[derive(Debug, Clone, Copy, PartialEq, Eq, Structural)]
pub enum BridgeError {
    /// The packet does not fit in what is left of the outbound transfer.
    NoSpace,
    /// The operation was asked for with an argument it cannot serve:
    /// a flush with nothing queued, or a packet too long for the header.
    BadArgument,
    /// The transport failed to send the transfer.
    TxFailure,
    /// Received bytes do not hold a well-formed framed packet.
    RxFailure,
    /// A received message is too short or not of the expected kind.
    InvalidInput,
}

} // verus!
