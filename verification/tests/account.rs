use openlimits::adapter::{Coinbase, OpenLimitOrderRequest, OpenMarketOrderRequest};
use openlimits::decimal::Decimal;
use openlimits::errors::ExchangeError;
use openlimits::model::{
    Order, OrderRequestType, OrderSide, OrderStatus, OrderType, OrderTimeInForce,
};
use openlimits::wire::{decode_order_request, encode_order, WireField};

fn init() -> Coinbase {
    Coinbase::with_credential("SECRET-REDACTED", "SECRET-REDACTED", "SECRET-REDACTED", true)
}

/// A transport stub: records whether it was invoked and echoes a
/// well-formed `Open` order built from the submitted wire fields.
struct EchoTransport {
    invoked: bool,
}

impl EchoTransport {
    fn new() -> EchoTransport {
        EchoTransport { invoked: false }
    }

    fn post(&mut self, body: &Vec<WireField>) -> Vec<WireField> {
        self.invoked = true;
        let req = decode_order_request(body).unwrap();
        let _type = match req._type {
            OrderRequestType::Limit { price, size, .. } => OrderType::Limit {
                size,
                price,
                time_in_force: OrderTimeInForce::GTC,
            },
            OrderRequestType::Market { .. } => OrderType::Market {
                size: Decimal::new(0, 0),
                funds: Decimal::new(0, 0),
            },
        };
        let order = Order {
            id: "8eba9e7b-08d6-4667-90ca-6db445d743c1".to_owned(),
            product_id: req.product_id,
            side: req.side,
            stp: None,
            _type,
            post_only: false,
            created_at: "2021-01-01T00:00:00Z".to_owned(),
            fill_fees: Decimal::new(0, 0),
            filled_size: Decimal::new(0, 0),
            executed_value: Decimal::new(0, 0),
            status: OrderStatus::Open,
            settled: false,
            stop: None,
        };
        encode_order(&order)
    }
}

#[test]
fn limit_buy() {
    let exchange = init();
    let req = OpenLimitOrderRequest {
        price: Decimal::new(1, 3),
        size: Decimal::new(1, 1),
        symbol: String::from("ETH-BTC"),
    };
    let mut transport = EchoTransport::new();
    let order_req = exchange.limit_buy(&req);
    let body = exchange.place_order(&order_req).unwrap();
    let wire_resp = transport.post(&body);
    let resp = exchange.order_response(&wire_resp).unwrap();
    println!("{:?}", resp);
    assert!(transport.invoked);
    assert_eq!(resp.status, OrderStatus::Open);
    assert_eq!(resp.filled_size, Decimal::new(0, 0));
    match resp._type {
        OrderType::Limit { size, price, .. } => {
            assert_eq!(size, Decimal::new(1, 1));
            assert_eq!(price, Decimal::new(1, 3));
        }
        _ => panic!("expected a limit order"),
    }
}

#[test]
fn limit_sell() {
    let exchange = init();
    let req = OpenLimitOrderRequest {
        price: Decimal::new(1, 1),
        size: Decimal::new(1, 1),
        symbol: String::from("ETH-BTC"),
    };
    let mut transport = EchoTransport::new();
    let order_req = exchange.limit_sell(&req);
    let body = exchange.place_order(&order_req).unwrap();
    let resp = exchange.order_response(&transport.post(&body)).unwrap();
    println!("{:?}", resp);
    assert_eq!(resp.side, OrderSide::Sell);
    assert_eq!(resp.status, OrderStatus::Open);
}

#[test]
fn market_buy() {
    let exchange = init();
    let req = OpenMarketOrderRequest {
        size: Decimal::new(1, 1),
        symbol: String::from("ETH-BTC"),
    };
    let mut transport = EchoTransport::new();
    let order_req = exchange.market_buy(&req);
    let body = exchange.place_order(&order_req).unwrap();
    let resp = exchange.order_response(&transport.post(&body)).unwrap();
    println!("{:?}", resp);
    assert!(transport.invoked);
    assert_eq!(resp.status, OrderStatus::Open);
}

#[test]
fn market_sell() {
    let exchange = init();
    let req = OpenMarketOrderRequest {
        size: Decimal::new(1, 1),
        symbol: String::from("ETH-BTC"),
    };
    let mut transport = EchoTransport::new();
    let order_req = exchange.market_sell(&req);
    let body = exchange.place_order(&order_req).unwrap();
    let resp = exchange.order_response(&transport.post(&body)).unwrap();
    println!("{:?}", resp);
    assert_eq!(resp.side, OrderSide::Sell);
    assert_eq!(resp.status, OrderStatus::Open);
}

#[test]
fn contradictory_market_amounts_never_reach_the_transport() {
    let exchange = init();
    let mut transport = EchoTransport::new();
    // Both amounts set: rejected before any transport call.
    let both = exchange.market_order_request(
        OrderSide::Buy,
        "ETH-BTC",
        Some(Decimal::new(1, 1)),
        Some(Decimal::new(25, 0)),
    );
    assert_eq!(both.unwrap_err(), ExchangeError::InvalidOrderRequest);
    // Neither amount set: rejected too.
    let neither = exchange.market_order_request(OrderSide::Buy, "ETH-BTC", None, None);
    assert_eq!(neither.unwrap_err(), ExchangeError::InvalidOrderRequest);
    assert!(!transport.invoked);
    // Exactly one amount: accepted and submitted.
    let ok = exchange
        .market_order_request(OrderSide::Buy, "ETH-BTC", Some(Decimal::new(1, 1)), None)
        .unwrap();
    let body = exchange.place_order(&ok).unwrap();
    let resp = exchange.order_response(&transport.post(&body)).unwrap();
    assert!(transport.invoked);
    assert_eq!(resp.status, OrderStatus::Open);
}
