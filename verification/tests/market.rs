use openlimits::adapter::{Coinbase, OrderBookRequest};
use openlimits::client::{Binance, HttpMethod};
use openlimits::errors::ExchangeError;
use openlimits::model::{Book, BookLevel, BookRecordL1, BookRecordL2, BookRecordL3};

#[test]
fn order_book() {
    let exchange = Binance::new();
    let req = OrderBookRequest { symbol: "BNBBTC".to_string() };
    let resp = exchange.order_book(&req);
    println!("{:?}", resp);
    assert_eq!(resp.method, HttpMethod::Get);
    assert_eq!(resp.path, "/api/v1/depth");
    assert_eq!(resp.params, vec![("symbol".to_string(), "BNBBTC".to_string())]);
}

#[test]
fn unsupported_depth_level_is_rejected_without_transport() {
    let exchange = Coinbase::new(true);
    let req = OrderBookRequest { symbol: "ETH-BTC".to_string() };
    // Levels 1..=3 are offered.
    for depth in 1..=3u8 {
        let q = exchange.order_book(&req, depth).unwrap();
        assert_eq!(q.level, depth);
        assert_eq!(q.path, "/products/ETH-BTC/book");
    }
    // Anything else fails before any transport call.
    assert_eq!(
        exchange.order_book(&req, 0).unwrap_err(),
        ExchangeError::UnsupportedDepthLevel
    );
    assert_eq!(
        exchange.order_book(&req, 4).unwrap_err(),
        ExchangeError::UnsupportedDepthLevel
    );
}

#[test]
fn book_levels_carry_their_depth() {
    assert_eq!(BookRecordL1::level(), 1);
    assert_eq!(BookRecordL2::level(), 2);
    assert_eq!(BookRecordL3::level(), 3);
    let book: Book<BookRecordL2> = Book { sequence: 7, bids: vec![], asks: vec![] };
    assert_eq!(book.sequence, 7);
}
