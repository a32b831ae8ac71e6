//! The error taxonomy shared by the codec, the wire layer, the
//! adapters and the streaming support.

use vstd::prelude::*;

verus! {

/// Every failure the library reports.
///
/// - `InvalidNumericFormat`: a wire string is not a canonical decimal
///   literal (or does not fit the supported precision).
/// - `UnrecognizedVariant`: a tag value matches no known arm of a
///   tagged union, or an untagged union payload matches no arm.
/// - `AmbiguousUntaggedVariant`: an untagged union payload matches
///   more than one arm; the first arm is never picked silently.
/// - `UnsupportedDepthLevel`: an order-book request asked for a depth
///   level the adapter does not offer.
/// - `InvalidOrderRequest`: an order request holds contradictory
///   fields and is rejected before any transport call.
/// - `TransportError`: the transport collaborator failed; opaque here.
/// - `SequenceGapDetected`: a streamed book update does not follow its
///   predecessor contiguously.
#[derive(Clone, Copy, Debug, PartialEq, Eq, Structural)]
pub enum ExchangeError {
    InvalidNumericFormat,
    UnrecognizedVariant,
    AmbiguousUntaggedVariant,
    UnsupportedDepthLevel,
    InvalidOrderRequest,
    TransportError,
    SequenceGapDetected,
}

} // verus!
