use openlimits::errors::ExchangeError;
use openlimits::stream::SequenceTracker;

#[test]
fn sequence_must_be_contiguous() {
    let mut t = SequenceTracker::new();
    // A fresh subscription accepts any first number.
    assert_eq!(t.accept(10), Ok(()));
    assert_eq!(t.accept(11), Ok(()));
    assert_eq!(t.accept(12), Ok(()));
    // A gap is reported, never silently skipped.
    assert_eq!(t.accept(14), Err(ExchangeError::SequenceGapDetected));
    // The failed update does not advance the tracker.
    assert_eq!(t.accept(13), Ok(()));
    // A replay or regression is a gap too: sequences strictly increase.
    assert_eq!(t.accept(13), Err(ExchangeError::SequenceGapDetected));
    assert_eq!(t.accept(12), Err(ExchangeError::SequenceGapDetected));
}

#[test]
fn reconnect_starts_fresh() {
    let mut t = SequenceTracker::new();
    assert_eq!(t.accept(100), Ok(()));
    assert_eq!(t.accept(101), Ok(()));
    // A reconnect yields a fresh sequence; a new tracker accepts it.
    let mut t2 = SequenceTracker::new();
    assert_eq!(t2.accept(5000), Ok(()));
}
