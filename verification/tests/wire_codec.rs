use openlimits::decimal::Decimal;
use openlimits::errors::ExchangeError;
use openlimits::model::{
    Order, OrderRequest, OrderRequestMarketType, OrderRequestType, OrderSide, OrderStatus,
    OrderStop, OrderStopType, OrderTimeInForce, OrderType, Ticker,
};
use openlimits::wire::{
    decode_order, decode_order_request, decode_ticker, encode_order, encode_order_request,
    encode_ticker, WireField, WireValue,
};

fn str_field(key: &str, value: &str) -> WireField {
    WireField { key: key.to_owned(), value: WireValue::VStr(value.to_owned()) }
}

fn limit_request(tif: Option<OrderTimeInForce>, stop: Option<OrderStop>) -> OrderRequest {
    OrderRequest {
        side: OrderSide::Buy,
        client_oid: Some("tok-1".to_owned()),
        product_id: "ETH-BTC".to_owned(),
        _type: OrderRequestType::Limit {
            price: Decimal::new(1, 3),
            size: Decimal::new(1, 1),
            post_only: true,
            time_in_force: tif,
        },
        stop,
    }
}

#[test]
fn order_request_round_trips() {
    let stop = OrderStop { stop_price: Decimal::new(95, 2), _type: OrderStopType::Loss };
    let cases = vec![
        limit_request(None, None),
        limit_request(Some(OrderTimeInForce::GTC), None),
        limit_request(Some(OrderTimeInForce::IOC), Some(stop)),
        limit_request(Some(OrderTimeInForce::FOK), None),
        limit_request(
            Some(OrderTimeInForce::GTT { expire_time: "2021-01-01T00:00:00Z".to_owned() }),
            Some(stop),
        ),
        OrderRequest {
            side: OrderSide::Sell,
            client_oid: None,
            product_id: "BNBBTC".to_owned(),
            _type: OrderRequestType::Market {
                _type: OrderRequestMarketType::Funds { funds: Decimal::new(250, 1) },
            },
            stop: None,
        },
    ];
    for q in cases {
        let fields = encode_order_request(&q);
        let back = decode_order_request(&fields).unwrap();
        assert_eq!(format!("{:?}", back), format!("{:?}", q));
    }
}

#[test]
fn unknown_tag_is_unrecognized() {
    let q = limit_request(None, None);
    let mut fields = encode_order_request(&q);
    fields[3] = str_field("type", "stop_limit");
    assert_eq!(decode_order_request(&fields).unwrap_err(), ExchangeError::UnrecognizedVariant);
    let mut fields2 = encode_order_request(&q);
    fields2[0] = str_field("side", "hold");
    assert_eq!(decode_order_request(&fields2).unwrap_err(), ExchangeError::UnrecognizedVariant);
}

#[test]
fn ambiguous_market_amounts_are_rejected() {
    // An untagged market payload carrying both arms matches several
    // variants: it must not silently pick the first.
    let fields = vec![
        str_field("side", "buy"),
        WireField { key: "client_oid".to_owned(), value: WireValue::VNull },
        str_field("product_id", "ETH-BTC"),
        str_field("type", "market"),
        str_field("size", "0.1"),
        str_field("funds", "25.0"),
    ];
    assert_eq!(
        decode_order_request(&fields).unwrap_err(),
        ExchangeError::AmbiguousUntaggedVariant
    );
    // Neither arm present matches no variant.
    let fields = vec![
        str_field("side", "buy"),
        WireField { key: "client_oid".to_owned(), value: WireValue::VNull },
        str_field("product_id", "ETH-BTC"),
        str_field("type", "market"),
    ];
    assert_eq!(decode_order_request(&fields).unwrap_err(), ExchangeError::UnrecognizedVariant);
}

#[test]
fn malformed_decimal_is_not_defaulted() {
    // A present-but-malformed numeric field fails; it is never
    // silently replaced by a default.
    let q = limit_request(None, None);
    let mut fields = encode_order_request(&q);
    fields[4] = str_field("price", "1.2.3");
    assert_eq!(decode_order_request(&fields).unwrap_err(), ExchangeError::InvalidNumericFormat);
}

fn open_order(_type: OrderType) -> Order {
    Order {
        id: "o-123".to_owned(),
        product_id: "ETH-BTC".to_owned(),
        side: OrderSide::Buy,
        stp: Some("dc".to_owned()),
        _type,
        post_only: false,
        created_at: "2021-01-01T00:00:00Z".to_owned(),
        fill_fees: Decimal::new(0, 0),
        filled_size: Decimal::new(0, 0),
        executed_value: Decimal::new(0, 0),
        status: OrderStatus::Open,
        settled: false,
        stop: None,
    }
}

#[test]
fn order_round_trips() {
    let cases = vec![
        open_order(OrderType::Limit {
            size: Decimal::new(1, 1),
            price: Decimal::new(1, 3),
            time_in_force: OrderTimeInForce::GTC,
        }),
        open_order(OrderType::Market {
            size: Decimal::new(5, 1),
            funds: Decimal::new(0, 0),
        }),
    ];
    for o in cases {
        let fields = encode_order(&o);
        let back = decode_order(&fields).unwrap();
        assert_eq!(format!("{:?}", back), format!("{:?}", o));
    }
}

#[test]
fn market_order_amounts_default_when_absent() {
    // Wire-optional `size`/`funds` on a market order default to zero
    // when the fields are missing entirely.
    let fields = vec![
        str_field("id", "o-9"),
        str_field("product_id", "ETH-BTC"),
        str_field("side", "sell"),
        WireField { key: "stp".to_owned(), value: WireValue::VNull },
        str_field("type", "market"),
        WireField { key: "post_only".to_owned(), value: WireValue::VBool(false) },
        str_field("created_at", "2021-01-01T00:00:00Z"),
        str_field("fill_fees", "0"),
        str_field("filled_size", "0"),
        str_field("executed_value", "0"),
        str_field("status", "done"),
        WireField { key: "settled".to_owned(), value: WireValue::VBool(true) },
    ];
    let o = decode_order(&fields).unwrap();
    match o._type {
        OrderType::Market { size, funds } => {
            assert_eq!(size, Decimal::new(0, 0));
            assert_eq!(funds, Decimal::new(0, 0));
        }
        _ => panic!("expected a market order"),
    }
    assert_eq!(o.status, OrderStatus::Done);
}

#[test]
fn ticker_payload_decodes_to_decimals() {
    // A ticker with price "101.5" and volume "3300.5" yields those
    // exact decimal values, not strings.
    let fields = vec![
        WireField { key: "trade_id".to_owned(), value: WireValue::VInt(365415 ) },
        str_field("price", "101.5"),
        str_field("size", "0.2"),
        str_field("bid", "101.4"),
        str_field("ask", "101.6"),
        str_field("volume", "3300.5"),
        str_field("time", "2021-01-01T00:00:00Z"),
    ];
    let t = decode_ticker(&fields).unwrap();
    assert_eq!(t.price, Decimal { negative: false, mantissa: 1015, scale: 1 });
    assert_eq!(t.volume, Decimal { negative: false, mantissa: 33005, scale: 1 });
    assert_eq!(t.trade_id, 365415);

    let back = encode_ticker(&Ticker { ..t });
    let again = decode_ticker(&back).unwrap();
    assert_eq!(again.price, Decimal { negative: false, mantissa: 1015, scale: 1 });
}
