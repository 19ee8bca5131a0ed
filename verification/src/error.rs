//! Reasons for which a host envelope is refused.

use vstd::prelude::*;

verus! {

/// Why an envelope could not be turned into a request.
#[derive(Debug, Clone, Copy, PartialEq, Eq, Structural)]
pub enum DecodeError {
    /// The request kind is neither `advance_state` nor `inspect_state`.
    UnrecognizedRequestKind,
    /// The payload is absent or is not hexadecimal text.
    InvalidPayloadEncoding,
    /// The sender is neither the deposit bridge nor the inbox contract.
    UnrecognizedSender,
    /// A deposit payload is not exactly 72 bytes long.
    MalformedDepositPayload,
    /// The payload is not one serialized transaction.
    MalformedTransaction,
    /// The deposited value, in native units, exceeds the largest native amount.
    AmountOutOfRange,
}

} // verus!
