//! Streaming market data support: sequence-gap detection.
//!
//! A streaming subscription yields book snapshots and deltas whose
//! `sequence` numbers must be contiguous. The tracker accepts exactly
//! the next expected number; everything else is a gap, reported as
//! `SequenceGapDetected` and never silently skipped, since book
//! reconstruction depends on contiguous sequence numbers.

use vstd::prelude::*;
use crate::errors::ExchangeError;

verus! {

/// Tracks the last accepted sequence number of one subscription for
/// one product. A fresh tracker (after connect or reconnect) accepts
/// any first number.
#[derive(Clone, Copy, Debug, PartialEq, Eq, Structural)]
pub struct SequenceTracker {
    pub last: Option<usize>,
}

impl SequenceTracker {
    /// A tracker for a fresh subscription.
    pub fn new() -> (r: SequenceTracker)
        ensures
            r.last is None,
    {
        SequenceTracker { last: Option::None }
    }

    /// Accept a sequence number if and only if it is contiguous with
    /// the last accepted one; accepted numbers are therefore strictly
    /// increasing, and every gap or replay is reported.
    pub fn accept(&mut self, sequence: usize) -> (r: Result<(), ExchangeError>)
        ensures
            r is Ok <==> (old(self).last is None || sequence == old(self).last->0 + 1),
            r is Ok ==> final(self).last == Option::Some(sequence),
            r matches Err(e) ==> e == ExchangeError::SequenceGapDetected && *final(self)
                == *old(self),
            old(self).last is Some && r is Ok ==> sequence > old(self).last->0,
    {
        match self.last {
            Option::None => {
                self.last = Option::Some(sequence);
                Result::Ok(())
            },
            Option::Some(p) => {
                if sequence > p && sequence - p == 1 {
                    self.last = Option::Some(sequence);
                    Result::Ok(())
                } else {
                    Result::Err(ExchangeError::SequenceGapDetected)
                }
            },
        }
    }
}

} // verus!
