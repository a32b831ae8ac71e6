//! The per-exchange adapter decisions and the unified facade.
//!
//! Every network-bound step is a suspension point performed by the
//! transport collaborator; this module holds the decisions around it:
//! validating a request before anything is sent, translating it into
//! its wire shape, and normalizing the wire response back into the
//! domain model. A caller (or the surrounding binary) performs the
//! transport call exactly when a preparation step succeeds.

use vstd::prelude::*;
use vstd::string::StringExecFns;
use crate::client::Binance;
use crate::client::HttpMethod;
use crate::client::PreparedRequest;
use crate::client::Transport;
use crate::decimal::Decimal;
use crate::errors::ExchangeError;
use crate::model::Order;
use crate::model::OrderModel;
use crate::model::OrderRequest;
use crate::model::OrderRequestMarketType;
use crate::model::OrderRequestType;
use crate::model::OrderSide;
use crate::model::OrderStop;
use crate::wire;
use crate::wire::WireField;
use crate::wire::fields_view;

verus! {

/// A simplified limit-order intent, as the unified facade takes it.
#[derive(Clone, Debug)]
pub struct OpenLimitOrderRequest {
    pub price: Decimal,
    pub size: Decimal,
    pub symbol: String,
}

/// A simplified market-order intent, as the unified facade takes it.
#[derive(Clone, Debug)]
pub struct OpenMarketOrderRequest {
    pub size: Decimal,
    pub symbol: String,
}

/// An order-book query, as the unified facade takes it.
#[derive(Clone, Debug)]
pub struct OrderBookRequest {
    pub symbol: String,
}

/// A prepared order-book query: the path for the transport and the
/// depth level it asks for.
#[derive(Clone, Debug)]
pub struct BookQuery {
    pub path: String,
    pub level: u8,
}

/// Does an `OrderRequest` hold only representable decimals?
pub fn check_order_request(req: &OrderRequest) -> (r: bool)
    ensures
        r == req@.wf(),
{
    let type_ok: bool = match &req._type {
        OrderRequestType::Limit { price, size, .. } => price.check_wf() && size.check_wf(),
        OrderRequestType::Market { _type } => match _type {
            OrderRequestMarketType::Size { size } => size.check_wf(),
            OrderRequestMarketType::Funds { funds } => funds.check_wf(),
        },
    };
    let stop_ok: bool = match &req.stop {
        Option::Some(st) => st.stop_price.check_wf(),
        Option::None => true,
    };
    type_ok && stop_ok
}

/// The Coinbase adapter: translates between the domain model and the
/// Coinbase wire shapes; the transport collaborator signs and sends.
#[derive(Clone, Debug)]
pub struct Coinbase {
    pub transport: Transport,
    pub sandbox: bool,
}

impl Coinbase {
    /// An unauthenticated adapter.
    pub fn new(sandbox: bool) -> (r: Coinbase)
        ensures
            r.sandbox == sandbox,
            r.transport.api_key is None,
    {
        Coinbase { transport: Transport::new(), sandbox }
    }

    /// An adapter with signing credentials.
    pub fn with_credential(api_key: &str, api_secret: &str, passphrase: &str, sandbox: bool) -> (r:
        Coinbase)
        ensures
            r.sandbox == sandbox,
            r.transport.api_key matches Option::Some(k) && k@ == api_key@,
            r.transport.api_secret matches Option::Some(s) && s@ == api_secret@,
            r.transport.passphrase matches Option::Some(p) && p@ == passphrase@,
    {
        let mut transport = Transport::with_credential(api_key, api_secret);
        transport.passphrase = Option::Some(passphrase.to_owned());
        transport.sandbox = sandbox;
        Coinbase { transport, sandbox }
    }

    /// The request a limit buy places: a `Limit` variant with the
    /// caller's price and size, no idempotency token and no stop.
    pub fn limit_buy(&self, req: &OpenLimitOrderRequest) -> (r: OrderRequest)
        ensures
            r.side == OrderSide::Buy,
            r.client_oid is None,
            r.product_id@ == req.symbol@,
            r._type matches OrderRequestType::Limit { price, size, post_only, time_in_force }
                && price == req.price && size == req.size && !post_only && time_in_force is None,
            r.stop is None,
    {
        OrderRequest {
            side: OrderSide::Buy,
            client_oid: Option::None,
            product_id: req.symbol.clone(),
            _type: OrderRequestType::Limit {
                price: req.price,
                size: req.size,
                post_only: false,
                time_in_force: Option::None,
            },
            stop: Option::None,
        }
    }

    /// The request a limit sell places.
    pub fn limit_sell(&self, req: &OpenLimitOrderRequest) -> (r: OrderRequest)
        ensures
            r.side == OrderSide::Sell,
            r.client_oid is None,
            r.product_id@ == req.symbol@,
            r._type matches OrderRequestType::Limit { price, size, post_only, time_in_force }
                && price == req.price && size == req.size && !post_only && time_in_force is None,
            r.stop is None,
    {
        OrderRequest {
            side: OrderSide::Sell,
            client_oid: Option::None,
            product_id: req.symbol.clone(),
            _type: OrderRequestType::Limit {
                price: req.price,
                size: req.size,
                post_only: false,
                time_in_force: Option::None,
            },
            stop: Option::None,
        }
    }

    /// The request a market buy places: the `Size` arm of the market
    /// union.
    pub fn market_buy(&self, req: &OpenMarketOrderRequest) -> (r: OrderRequest)
        ensures
            r.side == OrderSide::Buy,
            r.client_oid is None,
            r.product_id@ == req.symbol@,
            r._type matches OrderRequestType::Market { _type } && _type
                == (OrderRequestMarketType::Size { size: req.size }),
            r.stop is None,
    {
        OrderRequest {
            side: OrderSide::Buy,
            client_oid: Option::None,
            product_id: req.symbol.clone(),
            _type: OrderRequestType::Market {
                _type: OrderRequestMarketType::Size { size: req.size },
            },
            stop: Option::None,
        }
    }

    /// The request a market sell places.
    pub fn market_sell(&self, req: &OpenMarketOrderRequest) -> (r: OrderRequest)
        ensures
            r.side == OrderSide::Sell,
            r.client_oid is None,
            r.product_id@ == req.symbol@,
            r._type matches OrderRequestType::Market { _type } && _type
                == (OrderRequestMarketType::Size { size: req.size }),
            r.stop is None,
    {
        OrderRequest {
            side: OrderSide::Sell,
            client_oid: Option::None,
            product_id: req.symbol.clone(),
            _type: OrderRequestType::Market {
                _type: OrderRequestMarketType::Size { size: req.size },
            },
            stop: Option::None,
        }
    }

    /// Build a market order from wire-optional amounts. Exactly one
    /// of `size` and `funds` must be present: both, or neither, is
    /// `InvalidOrderRequest`, and nothing is handed to the transport.
    pub fn market_order_request(
        &self,
        side: OrderSide,
        symbol: &str,
        size: Option<Decimal>,
        funds: Option<Decimal>,
    ) -> (r: Result<OrderRequest, ExchangeError>)
        ensures
            r is Ok <==> (size is Some <==> funds is None),
            r matches Result::Err(e) ==> e == ExchangeError::InvalidOrderRequest,
            r matches Result::Ok(q) ==> q.side == side && q.product_id@ == symbol@ && q.stop
                is None && q.client_oid is None && (q._type matches OrderRequestType::Market {
                _type,
            } && _type == (match size {
                Option::Some(s) => OrderRequestMarketType::Size { size: s },
                Option::None => OrderRequestMarketType::Funds { funds: funds->0 },
            })),
    {
        let amount: OrderRequestMarketType;
        match (size, funds) {
            (Option::Some(_), Option::Some(_)) => {
                return Result::Err(ExchangeError::InvalidOrderRequest);
            },
            (Option::None, Option::None) => {
                return Result::Err(ExchangeError::InvalidOrderRequest);
            },
            (Option::Some(s), Option::None) => {
                amount = OrderRequestMarketType::Size { size: s };
            },
            (Option::None, Option::Some(f)) => {
                amount = OrderRequestMarketType::Funds { funds: f };
            },
        }
        Result::Ok(
            OrderRequest {
                side,
                client_oid: Option::None,
                product_id: symbol.to_owned(),
                _type: OrderRequestType::Market { _type: amount },
                stop: Option::None,
            },
        )
    }

    /// Validate an order request and translate it into its wire
    /// fields. Succeeds exactly on well-formed requests; on failure
    /// nothing may be handed to the transport.
    pub fn place_order(&self, req: &OrderRequest) -> (r: Result<Vec<WireField>, ExchangeError>)
        ensures
            r is Ok <==> req@.wf(),
            r matches Result::Ok(f) ==> fields_view(f@) == wire::spec_encode_order_request(req@),
            r matches Result::Err(e) ==> e == ExchangeError::InvalidOrderRequest,
    {
        if !check_order_request(req) {
            return Result::Err(ExchangeError::InvalidOrderRequest);
        }
        Result::Ok(wire::encode_order_request(req))
    }

    /// Normalize the transport's response to a placed (or fetched)
    /// order.
    pub fn order_response(&self, fields: &Vec<WireField>) -> (r: Result<Order, ExchangeError>)
        ensures
            r matches Result::Ok(o) ==> wire::spec_decode_order(fields_view(fields@))
                == Result::<OrderModel, ExchangeError>::Ok(o@),
            r matches Result::Err(e) ==> wire::spec_decode_order(fields_view(fields@))
                == Result::<OrderModel, ExchangeError>::Err(e),
    {
        wire::decode_order(fields)
    }

    /// Prepare an order-book query at a depth level. Coinbase offers
    /// levels 1, 2 and 3; anything else is `UnsupportedDepthLevel`,
    /// and nothing is handed to the transport.
    pub fn order_book(&self, req: &OrderBookRequest, depth: u8) -> (r: Result<
        BookQuery,
        ExchangeError,
    >)
        ensures
            r is Ok <==> 1 <= depth <= 3,
            r matches Result::Err(e) ==> e == ExchangeError::UnsupportedDepthLevel,
            r matches Result::Ok(q) ==> q.level == depth && q.path@ == "/products/"@
                + req.symbol@ + "/book"@,
    {
        if depth < 1 || depth > 3 {
            return Result::Err(ExchangeError::UnsupportedDepthLevel);
        }
        let mut path: String = "/products/".to_owned();
        path.append(req.symbol.as_str());
        path.append("/book");
        Result::Ok(BookQuery { path, level: depth })
    }

    /// Cancel an order: the path of the `DELETE` the transport must
    /// send.
    pub fn cancel_order(&self, id: &str) -> (r: String)
        ensures
            r@ == "/orders/"@ + id@,
    {
        let mut path: String = "/orders/".to_owned();
        path.append(id);
        path
    }

    /// Fetch an order: the path of the `GET` the transport must send.
    pub fn get_order(&self, id: &str) -> (r: String)
        ensures
            r@ == "/orders/"@ + id@,
    {
        let mut path: String = "/orders/".to_owned();
        path.append(id);
        path
    }

    /// List the tradable products: the path of the `GET`.
    pub fn list_products(&self) -> (r: String)
        ensures
            r@ == "/products"@,
    {
        "/products".to_owned()
    }
}

impl Binance {
    /// Prepare the depth (order book) query for a symbol.
    pub fn order_book(&self, req: &OrderBookRequest) -> (r: PreparedRequest)
        ensures
            r.method == HttpMethod::Get,
            r.path@ == "/api/v1/depth"@,
            r.params@.len() == 1,
            r.params@[0].0@ == "symbol"@,
            r.params@[0].1@ == req.symbol@,
    {
        let mut params: Vec<(String, String)> = Vec::new();
        params.push(("symbol".to_owned(), req.symbol.clone()));
        PreparedRequest { method: HttpMethod::Get, path: "/api/v1/depth".to_owned(), params }
    }
}

} // verus!
