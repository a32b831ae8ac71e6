use openlimits::decimal::{decode, encode, Decimal};
use openlimits::errors::ExchangeError;

#[test]
fn encode_simple_values() {
    assert_eq!(encode(&Decimal::new(1015, 1)), "101.5");
    assert_eq!(encode(&Decimal::new(1, 3)), "0.001");
    assert_eq!(encode(&Decimal::new(1, 1)), "0.1");
    assert_eq!(encode(&Decimal::new(0, 0)), "0");
    assert_eq!(encode(&Decimal::new(-5, 1)), "-0.5");
    assert_eq!(encode(&Decimal::new(42, 0)), "42");
    assert_eq!(
        encode(&Decimal { negative: false, mantissa: 10150, scale: 2 }),
        "101.50"
    );
}

#[test]
fn decode_simple_values() {
    assert_eq!(decode("101.5"), Ok(Decimal { negative: false, mantissa: 1015, scale: 1 }));
    assert_eq!(decode("0.001"), Ok(Decimal { negative: false, mantissa: 1, scale: 3 }));
    assert_eq!(decode("0"), Ok(Decimal { negative: false, mantissa: 0, scale: 0 }));
    assert_eq!(decode("-3.25"), Ok(Decimal { negative: true, mantissa: 325, scale: 2 }));
    // Trailing zeros are preserved, not truncated.
    assert_eq!(decode("101.50"), Ok(Decimal { negative: false, mantissa: 10150, scale: 2 }));
}

#[test]
fn decode_rejects_malformed() {
    assert_eq!(decode(""), Err(ExchangeError::InvalidNumericFormat));
    assert_eq!(decode("abc"), Err(ExchangeError::InvalidNumericFormat));
    assert_eq!(decode("1..2"), Err(ExchangeError::InvalidNumericFormat));
    assert_eq!(decode("1."), Err(ExchangeError::InvalidNumericFormat));
    assert_eq!(decode(".5"), Err(ExchangeError::InvalidNumericFormat));
    assert_eq!(decode("-"), Err(ExchangeError::InvalidNumericFormat));
    assert_eq!(decode("-0"), Err(ExchangeError::InvalidNumericFormat));
    assert_eq!(decode("01.5"), Err(ExchangeError::InvalidNumericFormat));
    assert_eq!(decode("1.5e3"), Err(ExchangeError::InvalidNumericFormat));
    assert_eq!(decode("1 5"), Err(ExchangeError::InvalidNumericFormat));
    // More digits than the 64-bit mantissa can hold.
    assert_eq!(
        decode("99999999999999999999999999"),
        Err(ExchangeError::InvalidNumericFormat)
    );
    // More fractional digits than the supported precision.
    assert_eq!(
        decode("0.00000000000000000000000000001"),
        Err(ExchangeError::InvalidNumericFormat)
    );
}

#[test]
fn decode_encode_round_trip() {
    // decode(encode(x)) == x for values ...
    for d in [
        Decimal::new(1, 3),
        Decimal::new(1015, 1),
        Decimal::new(-12345, 4),
        Decimal::new(0, 0),
        Decimal { negative: false, mantissa: u64::MAX, scale: 28 },
        Decimal { negative: true, mantissa: 7, scale: 28 },
    ] {
        assert_eq!(decode(&encode(&d)), Ok(d));
    }
    // ... and encode(decode(s)) == s for canonical wire strings.
    for s in ["101.5", "3300.5", "0.10", "-7", "18446744073709551615"] {
        assert_eq!(encode(&decode(s).unwrap()), s);
    }
}
