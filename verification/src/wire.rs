//! The adapter wire layer.
//!
//! An exchange payload is a flat list of named fields (tagged unions
//! are flattened into the record that carries them). The codec here
//! turns domain values into such field lists and back, enforcing the
//! tagged-union rules: an unknown tag is `UnrecognizedVariant`, an
//! untagged union payload matching several arms is
//! `AmbiguousUntaggedVariant`, and monetary fields travel as canonical
//! decimal strings.

use vstd::prelude::*;
use crate::decimal;
use crate::decimal::Decimal;
use crate::decimal::spec_encode_decimal;
use crate::decimal::spec_decode_decimal;
use crate::errors::ExchangeError;
use crate::model::Order;
use crate::model::OrderModel;
use crate::model::OrderType;
use crate::model::OrderTypeModel;
use crate::model::OrderStatus;
use crate::model::Ticker;
use crate::model::TickerModel;
use crate::model::OrderRequest;
use crate::model::OrderRequestModel;
use crate::model::OrderRequestType;
use crate::model::OrderRequestTypeModel;
use crate::model::OrderRequestMarketType;
use crate::model::OrderSide;
use crate::model::OrderStop;
use crate::model::OrderStopType;
use crate::model::OrderTimeInForce;
use crate::model::OrderTimeInForceModel;

verus! {

/// One wire value: a string, a boolean, an integer or a null.
#[derive(Clone, Debug)]
pub enum WireValue {
    VStr(String),
    VBool(bool),
    VInt(i64),
    VNull,
}

/// The ghost model of a wire value.
pub enum WireVal {
    WStr(Seq<char>),
    WBool(bool),
    WInt(int),
    WNull,
}

impl View for WireValue {
    type V = WireVal;

    open spec fn view(&self) -> WireVal {
        match self {
            WireValue::VStr(s) => WireVal::WStr(s@),
            WireValue::VBool(b) => WireVal::WBool(*b),
            WireValue::VInt(i) => WireVal::WInt(*i as int),
            WireValue::VNull => WireVal::WNull,
        }
    }
}

/// One named wire field.
#[derive(Clone, Debug)]
pub struct WireField {
    pub key: String,
    pub value: WireValue,
}

/// The ghost model of a wire field.
pub struct WField {
    pub key: Seq<char>,
    pub value: WireVal,
}

impl View for WireField {
    type V = WField;

    open spec fn view(&self) -> WField {
        WField { key: self.key@, value: self.value@ }
    }
}

/// The ghost model of a whole field list.
pub open spec fn fields_view(fs: Seq<WireField>) -> Seq<WField> {
    Seq::new(fs.len(), |i: int| fs[i]@)
}

// ---------------------------------------------------------------------
// Field constructors, at the model level.
// ---------------------------------------------------------------------

pub open spec fn wstr(k: Seq<char>, v: Seq<char>) -> WField {
    WField { key: k, value: WireVal::WStr(v) }
}

pub open spec fn wbool(k: Seq<char>, b: bool) -> WField {
    WField { key: k, value: WireVal::WBool(b) }
}

pub open spec fn wnull(k: Seq<char>) -> WField {
    WField { key: k, value: WireVal::WNull }
}

pub open spec fn wint(k: Seq<char>, v: int) -> WField {
    WField { key: k, value: WireVal::WInt(v) }
}

pub open spec fn wdec(k: Seq<char>, d: Decimal) -> WField {
    wstr(k, spec_encode_decimal(d))
}

pub open spec fn wopt_str(k: Seq<char>, v: Option<Seq<char>>) -> WField {
    match v {
        Option::Some(s) => wstr(k, s),
        Option::None => wnull(k),
    }
}

// ---------------------------------------------------------------------
// Tag vocabularies.
// ---------------------------------------------------------------------

pub open spec fn side_str(s: OrderSide) -> Seq<char> {
    match s {
        OrderSide::Buy => "buy"@,
        OrderSide::Sell => "sell"@,
    }
}

pub open spec fn stop_type_str(t: OrderStopType) -> Seq<char> {
    match t {
        OrderStopType::Loss => "loss"@,
        OrderStopType::Entry => "entry"@,
    }
}

pub open spec fn spec_decode_side(v: WireVal) -> Result<OrderSide, ExchangeError> {
    match v {
        WireVal::WStr(s) => {
            if s == "buy"@ {
                Result::Ok(OrderSide::Buy)
            } else if s == "sell"@ {
                Result::Ok(OrderSide::Sell)
            } else {
                Result::Err(ExchangeError::UnrecognizedVariant)
            }
        },
        _ => Result::Err(ExchangeError::UnrecognizedVariant),
    }
}

pub open spec fn spec_decode_stop_type(v: WireVal) -> Result<OrderStopType, ExchangeError> {
    match v {
        WireVal::WStr(s) => {
            if s == "loss"@ {
                Result::Ok(OrderStopType::Loss)
            } else if s == "entry"@ {
                Result::Ok(OrderStopType::Entry)
            } else {
                Result::Err(ExchangeError::UnrecognizedVariant)
            }
        },
        _ => Result::Err(ExchangeError::UnrecognizedVariant),
    }
}

/// A decimal carried as a wire string.
pub open spec fn spec_decode_wire_dec(v: WireVal) -> Result<Decimal, ExchangeError> {
    match v {
        WireVal::WStr(s) => spec_decode_decimal(s),
        _ => Result::Err(ExchangeError::UnrecognizedVariant),
    }
}

/// An optional string: a string or an explicit null.
pub open spec fn spec_decode_opt_str(v: WireVal) -> Result<Option<Seq<char>>, ExchangeError> {
    match v {
        WireVal::WStr(s) => Result::Ok(Option::Some(s)),
        WireVal::WNull => Result::Ok(Option::None),
        _ => Result::Err(ExchangeError::UnrecognizedVariant),
    }
}

// ---------------------------------------------------------------------
// Time-in-force: a tagged union on the `time_in_force` key; only
// `GTT` carries a payload.
// ---------------------------------------------------------------------

pub open spec fn spec_encode_tif(t: OrderTimeInForceModel) -> Seq<WField> {
    match t {
        OrderTimeInForceModel::GTC => seq![wstr("time_in_force"@, "GTC"@)],
        OrderTimeInForceModel::GTT { expire_time } => seq![
            wstr("time_in_force"@, "GTT"@),
            wstr("expire_time"@, expire_time),
        ],
        OrderTimeInForceModel::IOC => seq![wstr("time_in_force"@, "IOC"@)],
        OrderTimeInForceModel::FOK => seq![wstr("time_in_force"@, "FOK"@)],
    }
}

pub open spec fn spec_decode_tif(fs: Seq<WField>, i: int) -> Result<
    (OrderTimeInForceModel, int),
    ExchangeError,
> {
    if 0 <= i < fs.len() && fs[i].key == "time_in_force"@ && fs[i].value is WStr {
        let tag = fs[i].value->WStr_0;
        if tag == "GTC"@ {
            Result::Ok((OrderTimeInForceModel::GTC, i + 1))
        } else if tag == "IOC"@ {
            Result::Ok((OrderTimeInForceModel::IOC, i + 1))
        } else if tag == "FOK"@ {
            Result::Ok((OrderTimeInForceModel::FOK, i + 1))
        } else if tag == "GTT"@ {
            if i + 1 < fs.len() && fs[i + 1].key == "expire_time"@ && fs[i + 1].value is WStr {
                Result::Ok(
                    (
                        OrderTimeInForceModel::GTT { expire_time: fs[i + 1].value->WStr_0 },
                        i + 2,
                    ),
                )
            } else {
                Result::Err(ExchangeError::UnrecognizedVariant)
            }
        } else {
            Result::Err(ExchangeError::UnrecognizedVariant)
        }
    } else {
        Result::Err(ExchangeError::UnrecognizedVariant)
    }
}

// ---------------------------------------------------------------------
// The optional stop specification, flattened at the tail of a record.
// ---------------------------------------------------------------------

pub open spec fn spec_encode_stop(st: Option<OrderStop>) -> Seq<WField> {
    match st {
        Option::None => Seq::empty(),
        Option::Some(s) => seq![
            wdec("stop_price"@, s.stop_price),
            wstr("stop"@, stop_type_str(s._type)),
        ],
    }
}

/// The stop fields must be the last of the record; anything after
/// them, or a half-present stop, is rejected.
pub open spec fn spec_decode_stop(fs: Seq<WField>, i: int) -> Result<
    Option<OrderStop>,
    ExchangeError,
> {
    if i == fs.len() {
        Result::Ok(Option::None)
    } else if 0 <= i < fs.len() && fs[i].key == "stop_price"@ {
        match spec_decode_wire_dec(fs[i].value) {
            Result::Err(e) => Result::Err(e),
            Result::Ok(sp) => {
                if i + 1 < fs.len() && fs[i + 1].key == "stop"@ {
                    match spec_decode_stop_type(fs[i + 1].value) {
                        Result::Err(e) => Result::Err(e),
                        Result::Ok(tt) => {
                            if i + 2 == fs.len() {
                                Result::Ok(
                                    Option::Some(OrderStop { stop_price: sp, _type: tt }),
                                )
                            } else {
                                Result::Err(ExchangeError::UnrecognizedVariant)
                            }
                        },
                    }
                } else {
                    Result::Err(ExchangeError::UnrecognizedVariant)
                }
            },
        }
    } else {
        Result::Err(ExchangeError::UnrecognizedVariant)
    }
}

// ---------------------------------------------------------------------
// Order requests on the wire.
// ---------------------------------------------------------------------

pub open spec fn spec_encode_request_type(t: OrderRequestTypeModel) -> Seq<WField> {
    match t {
        OrderRequestTypeModel::Limit { price, size, post_only, time_in_force } => seq![
            wstr("type"@, "limit"@),
            wdec("price"@, price),
            wdec("size"@, size),
            wbool("post_only"@, post_only),
        ] + (match time_in_force {
            Option::Some(t) => spec_encode_tif(t),
            Option::None => Seq::empty(),
        }),
        OrderRequestTypeModel::Market { _type } => match _type {
            OrderRequestMarketType::Size { size } => seq![
                wstr("type"@, "market"@),
                wdec("size"@, size),
            ],
            OrderRequestMarketType::Funds { funds } => seq![
                wstr("type"@, "market"@),
                wdec("funds"@, funds),
            ],
        },
    }
}

pub open spec fn spec_encode_order_request(q: OrderRequestModel) -> Seq<WField> {
    seq![
        wstr("side"@, side_str(q.side)),
        wopt_str("client_oid"@, q.client_oid),
        wstr("product_id"@, q.product_id),
    ] + spec_encode_request_type(q._type) + spec_encode_stop(q.stop)
}

/// The `Limit` arm of a request, from the `price` field on.
pub open spec fn spec_decode_request_limit(fs: Seq<WField>) -> Result<
    (OrderRequestTypeModel, int),
    ExchangeError,
> {
    if fs.len() >= 7 && fs[4].key == "price"@ && fs[5].key == "size"@ && fs[6].key
        == "post_only"@ && fs[6].value is WBool {
        match spec_decode_wire_dec(fs[4].value) {
            Result::Err(e) => Result::Err(e),
            Result::Ok(price) => match spec_decode_wire_dec(fs[5].value) {
                Result::Err(e) => Result::Err(e),
                Result::Ok(size) => {
                    let post_only = fs[6].value->WBool_0;
                    if fs.len() > 7 && fs[7].key == "time_in_force"@ {
                        match spec_decode_tif(fs, 7) {
                            Result::Err(e) => Result::Err(e),
                            Result::Ok((t, ni)) => Result::Ok(
                                (
                                    OrderRequestTypeModel::Limit {
                                        price,
                                        size,
                                        post_only,
                                        time_in_force: Option::Some(t),
                                    },
                                    ni,
                                ),
                            ),
                        }
                    } else {
                        Result::Ok(
                            (
                                OrderRequestTypeModel::Limit {
                                    price,
                                    size,
                                    post_only,
                                    time_in_force: Option::None,
                                },
                                7,
                            ),
                        )
                    }
                },
            },
        }
    } else {
        Result::Err(ExchangeError::UnrecognizedVariant)
    }
}

/// The `Market` arm of a request: an untagged union over `{size}` or
/// `{funds}`. Both present is ambiguous; neither matches no arm.
pub open spec fn spec_decode_request_market(fs: Seq<WField>) -> Result<
    (OrderRequestTypeModel, int),
    ExchangeError,
> {
    if fs.len() > 4 && fs[4].key == "size"@ {
        if fs.len() > 5 && fs[5].key == "funds"@ {
            Result::Err(ExchangeError::AmbiguousUntaggedVariant)
        } else {
            match spec_decode_wire_dec(fs[4].value) {
                Result::Err(e) => Result::Err(e),
                Result::Ok(size) => Result::Ok(
                    (
                        OrderRequestTypeModel::Market {
                            _type: OrderRequestMarketType::Size { size },
                        },
                        5,
                    ),
                ),
            }
        }
    } else if fs.len() > 4 && fs[4].key == "funds"@ {
        match spec_decode_wire_dec(fs[4].value) {
            Result::Err(e) => Result::Err(e),
            Result::Ok(funds) => Result::Ok(
                (
                    OrderRequestTypeModel::Market {
                        _type: OrderRequestMarketType::Funds { funds },
                    },
                    5,
                ),
            ),
        }
    } else {
        Result::Err(ExchangeError::UnrecognizedVariant)
    }
}

pub open spec fn spec_decode_order_request(fs: Seq<WField>) -> Result<
    OrderRequestModel,
    ExchangeError,
> {
    if fs.len() >= 4 && fs[0].key == "side"@ && fs[1].key == "client_oid"@ && fs[2].key
        == "product_id"@ && fs[3].key == "type"@ && fs[2].value is WStr && fs[3].value is WStr {
        match spec_decode_side(fs[0].value) {
            Result::Err(e) => Result::Err(e),
            Result::Ok(side) => match spec_decode_opt_str(fs[1].value) {
                Result::Err(e) => Result::Err(e),
                Result::Ok(client_oid) => {
                    let product_id = fs[2].value->WStr_0;
                    let tag = fs[3].value->WStr_0;
                    let arm: Result<(OrderRequestTypeModel, int), ExchangeError> = if tag
                        == "limit"@ {
                        spec_decode_request_limit(fs)
                    } else if tag == "market"@ {
                        spec_decode_request_market(fs)
                    } else {
                        Result::Err(ExchangeError::UnrecognizedVariant)
                    };
                    match arm {
                        Result::Err(e) => Result::Err(e),
                        Result::Ok((t, ni)) => match spec_decode_stop(fs, ni) {
                            Result::Err(e) => Result::Err(e),
                            Result::Ok(stop) => Result::Ok(
                                OrderRequestModel {
                                    side,
                                    client_oid,
                                    product_id,
                                    _type: t,
                                    stop,
                                },
                            ),
                        },
                    }
                },
            },
        }
    } else {
        Result::Err(ExchangeError::UnrecognizedVariant)
    }
}

// ---------------------------------------------------------------------
// Executable codec helpers.
// ---------------------------------------------------------------------

/// String equality through views.
fn wire_str_eq(s: &String, lit: &str) -> (r: bool)
    ensures
        r == (s@ == lit@),
{
    let other: String = lit.to_owned();
    *s == other
}

fn decode_side(v: &WireValue) -> (r: Result<OrderSide, ExchangeError>)
    ensures
        r == spec_decode_side(v@),
{
    match v {
        WireValue::VStr(s) => {
            if wire_str_eq(s, "buy") {
                Result::Ok(OrderSide::Buy)
            } else if wire_str_eq(s, "sell") {
                Result::Ok(OrderSide::Sell)
            } else {
                Result::Err(ExchangeError::UnrecognizedVariant)
            }
        },
        _ => Result::Err(ExchangeError::UnrecognizedVariant),
    }
}

fn decode_stop_type(v: &WireValue) -> (r: Result<OrderStopType, ExchangeError>)
    ensures
        r == spec_decode_stop_type(v@),
{
    match v {
        WireValue::VStr(s) => {
            if wire_str_eq(s, "loss") {
                Result::Ok(OrderStopType::Loss)
            } else if wire_str_eq(s, "entry") {
                Result::Ok(OrderStopType::Entry)
            } else {
                Result::Err(ExchangeError::UnrecognizedVariant)
            }
        },
        _ => Result::Err(ExchangeError::UnrecognizedVariant),
    }
}

fn decode_wire_dec(v: &WireValue) -> (r: Result<Decimal, ExchangeError>)
    ensures
        r == spec_decode_wire_dec(v@),
{
    match v {
        WireValue::VStr(s) => decimal::decode(s.as_str()),
        _ => Result::Err(ExchangeError::UnrecognizedVariant),
    }
}

fn decode_opt_str(v: &WireValue) -> (r: Result<Option<String>, ExchangeError>)
    ensures
        r matches Result::Ok(o) ==> spec_decode_opt_str(v@) == Result::<
            Option<Seq<char>>,
            ExchangeError,
        >::Ok(
            match o {
                Option::Some(s) => Option::Some(s@),
                Option::None => Option::<Seq<char>>::None,
            },
        ),
        r matches Result::Err(e) ==> spec_decode_opt_str(v@) == Result::<
            Option<Seq<char>>,
            ExchangeError,
        >::Err(e),
{
    match v {
        WireValue::VStr(s) => Result::Ok(Option::Some(s.clone())),
        WireValue::VNull => Result::Ok(Option::None),
        _ => Result::Err(ExchangeError::UnrecognizedVariant),
    }
}

fn decode_tif(fields: &Vec<WireField>, i: usize) -> (r: Result<
    (OrderTimeInForce, usize),
    ExchangeError,
>)
    requires
        i <= fields.len(),
    ensures
        r matches Result::Ok(p) ==> p.1 <= fields.len() && spec_decode_tif(
            fields_view(fields@),
            i as int,
        ) == Result::<(OrderTimeInForceModel, int), ExchangeError>::Ok((p.0@, p.1 as int)),
        r matches Result::Err(e) ==> spec_decode_tif(fields_view(fields@), i as int)
            == Result::<(OrderTimeInForceModel, int), ExchangeError>::Err(e),
{
    let ghost fs = fields_view(fields@);
    if i < fields.len() && wire_str_eq(&fields[i].key, "time_in_force") {
        match &fields[i].value {
            WireValue::VStr(tag) => {
                if wire_str_eq(tag, "GTC") {
                    Result::Ok((OrderTimeInForce::GTC, i + 1))
                } else if wire_str_eq(tag, "IOC") {
                    Result::Ok((OrderTimeInForce::IOC, i + 1))
                } else if wire_str_eq(tag, "FOK") {
                    Result::Ok((OrderTimeInForce::FOK, i + 1))
                } else if wire_str_eq(tag, "GTT") {
                    if i + 1 < fields.len() && wire_str_eq(&fields[i + 1].key, "expire_time") {
                        match &fields[i + 1].value {
                            WireValue::VStr(e) => Result::Ok(
                                (OrderTimeInForce::GTT { expire_time: e.clone() }, i + 2),
                            ),
                            _ => Result::Err(ExchangeError::UnrecognizedVariant),
                        }
                    } else {
                        Result::Err(ExchangeError::UnrecognizedVariant)
                    }
                } else {
                    Result::Err(ExchangeError::UnrecognizedVariant)
                }
            },
            _ => Result::Err(ExchangeError::UnrecognizedVariant),
        }
    } else {
        Result::Err(ExchangeError::UnrecognizedVariant)
    }
}

fn decode_stop(fields: &Vec<WireField>, i: usize) -> (r: Result<
    Option<OrderStop>,
    ExchangeError,
>)
    requires
        i <= fields.len(),
    ensures
        r == spec_decode_stop(fields_view(fields@), i as int),
{
    let ghost fs = fields_view(fields@);
    if i == fields.len() {
        return Result::Ok(Option::None);
    }
    if !wire_str_eq(&fields[i].key, "stop_price") {
        return Result::Err(ExchangeError::UnrecognizedVariant);
    }
    let sp = match decode_wire_dec(&fields[i].value) {
        Result::Ok(d) => d,
        Result::Err(e) => {
            return Result::Err(e);
        },
    };
    if !(i + 1 < fields.len() && wire_str_eq(&fields[i + 1].key, "stop")) {
        return Result::Err(ExchangeError::UnrecognizedVariant);
    }
    let tt = match decode_stop_type(&fields[i + 1].value) {
        Result::Ok(t) => t,
        Result::Err(e) => {
            return Result::Err(e);
        },
    };
    if i + 2 == fields.len() {
        Result::Ok(Option::Some(OrderStop { stop_price: sp, _type: tt }))
    } else {
        Result::Err(ExchangeError::UnrecognizedVariant)
    }
}

// ---------------------------------------------------------------------
// Executable order-request codec.
// ---------------------------------------------------------------------

fn push_tif(out: &mut Vec<WireField>, t: &OrderTimeInForce)
    ensures
        fields_view(final(out)@) == fields_view(old(out)@) + spec_encode_tif(t@),
{
    match t {
        OrderTimeInForce::GTC => {
            out.push(
                WireField {
                    key: "time_in_force".to_owned(),
                    value: WireValue::VStr("GTC".to_owned()),
                },
            );
        },
        OrderTimeInForce::IOC => {
            out.push(
                WireField {
                    key: "time_in_force".to_owned(),
                    value: WireValue::VStr("IOC".to_owned()),
                },
            );
        },
        OrderTimeInForce::FOK => {
            out.push(
                WireField {
                    key: "time_in_force".to_owned(),
                    value: WireValue::VStr("FOK".to_owned()),
                },
            );
        },
        OrderTimeInForce::GTT { expire_time } => {
            out.push(
                WireField {
                    key: "time_in_force".to_owned(),
                    value: WireValue::VStr("GTT".to_owned()),
                },
            );
            out.push(
                WireField {
                    key: "expire_time".to_owned(),
                    value: WireValue::VStr(expire_time.clone()),
                },
            );
        },
    }
    proof {
        assert(fields_view(out@) =~= fields_view(old(out)@) + spec_encode_tif(t@));
    }
}

fn push_stop(out: &mut Vec<WireField>, st: &Option<OrderStop>)
    requires
        *st matches Option::Some(s) ==> s.wf(),
    ensures
        fields_view(final(out)@) == fields_view(old(out)@) + spec_encode_stop(*st),
{
    match st {
        Option::None => {
            proof {
                assert(fields_view(out@) =~= fields_view(old(out)@) + spec_encode_stop(*st));
            }
        },
        Option::Some(s) => {
            out.push(
                WireField {
                    key: "stop_price".to_owned(),
                    value: WireValue::VStr(decimal::encode(&s.stop_price)),
                },
            );
            match s._type {
                OrderStopType::Loss => {
                    out.push(
                        WireField { key: "stop".to_owned(), value: WireValue::VStr("loss".to_owned()) },
                    );
                },
                OrderStopType::Entry => {
                    out.push(
                        WireField {
                            key: "stop".to_owned(),
                            value: WireValue::VStr("entry".to_owned()),
                        },
                    );
                },
            }
            proof {
                assert(fields_view(out@) =~= fields_view(old(out)@) + spec_encode_stop(*st));
            }
        },
    }
}

/// Serialize an order request into its wire field list.
pub fn encode_order_request(q: &OrderRequest) -> (r: Vec<WireField>)
    requires
        q@.wf(),
    ensures
        fields_view(r@) == spec_encode_order_request(q@),
{
    let mut out: Vec<WireField> = Vec::new();
    let side_value: String = match q.side {
        OrderSide::Buy => "buy".to_owned(),
        OrderSide::Sell => "sell".to_owned(),
    };
    out.push(WireField { key: "side".to_owned(), value: WireValue::VStr(side_value) });
    let oid_value: WireValue = match &q.client_oid {
        Option::Some(s) => WireValue::VStr(s.clone()),
        Option::None => WireValue::VNull,
    };
    out.push(WireField { key: "client_oid".to_owned(), value: oid_value });
    out.push(
        WireField { key: "product_id".to_owned(), value: WireValue::VStr(q.product_id.clone()) },
    );
    let ghost head = fields_view(out@);
    proof {
        assert(head =~= seq![
            wstr("side"@, side_str(q@.side)),
            wopt_str("client_oid"@, q@.client_oid),
            wstr("product_id"@, q@.product_id),
        ]);
    }
    match &q._type {
        OrderRequestType::Limit { price, size, post_only, time_in_force } => {
            out.push(
                WireField { key: "type".to_owned(), value: WireValue::VStr("limit".to_owned()) },
            );
            out.push(
                WireField { key: "price".to_owned(), value: WireValue::VStr(decimal::encode(price)) },
            );
            out.push(
                WireField { key: "size".to_owned(), value: WireValue::VStr(decimal::encode(size)) },
            );
            out.push(WireField { key: "post_only".to_owned(), value: WireValue::VBool(*post_only) });
            match time_in_force {
                Option::Some(t) => {
                    push_tif(&mut out, t);
                },
                Option::None => {},
            }
            proof {
                assert(fields_view(out@) =~= head + spec_encode_request_type(q@._type));
            }
        },
        OrderRequestType::Market { _type } => {
            out.push(
                WireField { key: "type".to_owned(), value: WireValue::VStr("market".to_owned()) },
            );
            match _type {
                OrderRequestMarketType::Size { size } => {
                    out.push(
                        WireField {
                            key: "size".to_owned(),
                            value: WireValue::VStr(decimal::encode(size)),
                        },
                    );
                },
                OrderRequestMarketType::Funds { funds } => {
                    out.push(
                        WireField {
                            key: "funds".to_owned(),
                            value: WireValue::VStr(decimal::encode(funds)),
                        },
                    );
                },
            }
            proof {
                assert(fields_view(out@) =~= head + spec_encode_request_type(q@._type));
            }
        },
    }
    push_stop(&mut out, &q.stop);
    proof {
        assert(fields_view(out@) =~= spec_encode_order_request(q@));
    }
    out
}

/// Deserialize an order request from its wire field list, enforcing
/// the tagged- and untagged-union rules.
pub fn decode_order_request(fields: &Vec<WireField>) -> (r: Result<OrderRequest, ExchangeError>)
    ensures
        r matches Result::Ok(q) ==> spec_decode_order_request(fields_view(fields@))
            == Result::<OrderRequestModel, ExchangeError>::Ok(q@),
        r matches Result::Err(e) ==> spec_decode_order_request(fields_view(fields@))
            == Result::<OrderRequestModel, ExchangeError>::Err(e),
{
    let ghost fs = fields_view(fields@);
    let unrec: Result<OrderRequest, ExchangeError> = Result::Err(
        ExchangeError::UnrecognizedVariant,
    );
    if !(fields.len() >= 4 && wire_str_eq(&fields[0].key, "side") && wire_str_eq(
        &fields[1].key,
        "client_oid",
    ) && wire_str_eq(&fields[2].key, "product_id") && wire_str_eq(&fields[3].key, "type")) {
        return unrec;
    }
    let product_id: String = match &fields[2].value {
        WireValue::VStr(s) => s.clone(),
        _ => {
            return unrec;
        },
    };
    let is_limit: bool;
    match &fields[3].value {
        WireValue::VStr(tag) => {
            if wire_str_eq(tag, "limit") {
                is_limit = true;
            } else if wire_str_eq(tag, "market") {
                is_limit = false;
            } else {
                return unrec;
            }
        },
        _ => {
            return unrec;
        },
    }
    let side = match decode_side(&fields[0].value) {
        Result::Ok(s) => s,
        Result::Err(e) => {
            return Result::Err(e);
        },
    };
    let client_oid = match decode_opt_str(&fields[1].value) {
        Result::Ok(o) => o,
        Result::Err(e) => {
            return Result::Err(e);
        },
    };
    let _type: OrderRequestType;
    let ni: usize;
    if is_limit {
        if !(fields.len() >= 7 && wire_str_eq(&fields[4].key, "price") && wire_str_eq(
            &fields[5].key,
            "size",
        ) && wire_str_eq(&fields[6].key, "post_only")) {
            return unrec;
        }
        let post_only: bool = match &fields[6].value {
            WireValue::VBool(b) => *b,
            _ => {
                return unrec;
            },
        };
        let price = match decode_wire_dec(&fields[4].value) {
            Result::Ok(d) => d,
            Result::Err(e) => {
                return Result::Err(e);
            },
        };
        let size = match decode_wire_dec(&fields[5].value) {
            Result::Ok(d) => d,
            Result::Err(e) => {
                return Result::Err(e);
            },
        };
        if fields.len() > 7 && wire_str_eq(&fields[7].key, "time_in_force") {
            match decode_tif(fields, 7) {
                Result::Ok((t, n2)) => {
                    _type = OrderRequestType::Limit {
                        price,
                        size,
                        post_only,
                        time_in_force: Option::Some(t),
                    };
                    ni = n2;
                },
                Result::Err(e) => {
                    return Result::Err(e);
                },
            }
        } else {
            _type = OrderRequestType::Limit {
                price,
                size,
                post_only,
                time_in_force: Option::None,
            };
            ni = 7;
        }
    } else {
        if fields.len() > 4 && wire_str_eq(&fields[4].key, "size") {
            if fields.len() > 5 && wire_str_eq(&fields[5].key, "funds") {
                return Result::Err(ExchangeError::AmbiguousUntaggedVariant);
            }
            let size = match decode_wire_dec(&fields[4].value) {
                Result::Ok(d) => d,
                Result::Err(e) => {
                    return Result::Err(e);
                },
            };
            _type = OrderRequestType::Market { _type: OrderRequestMarketType::Size { size } };
            ni = 5;
        } else if fields.len() > 4 && wire_str_eq(&fields[4].key, "funds") {
            let funds = match decode_wire_dec(&fields[4].value) {
                Result::Ok(d) => d,
                Result::Err(e) => {
                    return Result::Err(e);
                },
            };
            _type = OrderRequestType::Market { _type: OrderRequestMarketType::Funds { funds } };
            ni = 5;
        } else {
            return unrec;
        }
    }
    let stop = match decode_stop(fields, ni) {
        Result::Ok(st) => st,
        Result::Err(e) => {
            return Result::Err(e);
        },
    };
    Result::Ok(OrderRequest { side, client_oid, product_id, _type, stop })
}

// ---------------------------------------------------------------------
// The order-request round-trip law.
// ---------------------------------------------------------------------


/// The wire vocabulary: distinct tags and keys have distinct texts.
proof fn lemma_key_vocab()
    ensures
        "buy"@ != "sell"@,
        "limit"@ != "market"@,
        "loss"@ != "entry"@,
        "size"@ != "funds"@,
        "stop_price"@ != "funds"@,
        "stop_price"@ != "size"@,
        "stop_price"@ != "time_in_force"@,
        "GTT"@ != "GTC"@,
        "GTT"@ != "IOC"@,
        "GTT"@ != "FOK"@,
        "IOC"@ != "GTC"@,
        "FOK"@ != "GTC"@,
        "FOK"@ != "IOC"@,
        "done"@ != "open"@,
        "pending"@ != "open"@,
        "pending"@ != "done"@,
        "active"@ != "open"@,
        "active"@ != "done"@,
        "active"@ != "pending"@,
        "rejected"@ != "open"@,
        "rejected"@ != "done"@,
        "rejected"@ != "pending"@,
        "rejected"@ != "active"@,
{
    reveal_strlit("buy");
    reveal_strlit("sell");
    reveal_strlit("limit");
    reveal_strlit("market");
    reveal_strlit("loss");
    reveal_strlit("entry");
    reveal_strlit("size");
    reveal_strlit("funds");
    reveal_strlit("stop_price");
    reveal_strlit("time_in_force");
    reveal_strlit("GTC");
    reveal_strlit("GTT");
    reveal_strlit("IOC");
    reveal_strlit("FOK");
    assert("buy"@.len() == 3);
    assert("sell"@.len() == 4);
    assert("limit"@.len() == 5);
    assert("market"@.len() == 6);
    assert("loss"@.len() == 4);
    assert("entry"@.len() == 5);
    assert("size"@.len() == 4);
    assert("funds"@.len() == 5);
    assert("stop_price"@.len() == 10);
    assert("time_in_force"@.len() == 13);
    reveal_strlit("open");
    reveal_strlit("done");
    reveal_strlit("pending");
    reveal_strlit("active");
    reveal_strlit("rejected");
    assert("open"@.len() == 4);
    assert("done"@.len() == 4);
    assert("pending"@.len() == 7);
    assert("active"@.len() == 6);
    assert("rejected"@.len() == 8);
    assert("open"@[0] == 'o');
    assert("done"@[0] == 'd');
    assert("GTT"@[2] == 'T');
    assert("GTC"@[2] == 'C');
    assert("IOC"@[0] == 'I');
    assert("GTC"@[0] == 'G');
    assert("FOK"@[0] == 'F');
}

/// Helper: the flattened stop tail decodes back to the stop it
/// encodes, wherever the record ends.
proof fn lemma_stop_round_trip(head: Seq<WField>, st: Option<OrderStop>)
    requires
        st matches Option::Some(s) ==> s.wf(),
    ensures
        spec_decode_stop(head + spec_encode_stop(st), head.len() as int) == Result::<
            Option<OrderStop>,
            ExchangeError,
        >::Ok(st),
{
    let e = head + spec_encode_stop(st);
    match st {
        Option::None => {
            assert(e.len() == head.len());
        },
        Option::Some(s) => {
            assert(e.len() == head.len() + 2);
            assert(e[head.len() as int] == wdec("stop_price"@, s.stop_price));
            assert(e[head.len() as int + 1] == wstr("stop"@, stop_type_str(s._type)));
            crate::decimal::lemma_decimal_round_trip(s.stop_price);
            lemma_key_vocab();
        },
    }
}

/// Round trip: every well-formed order request that is serialized to
/// its wire fields and deserialized again comes back equal, tagged
/// unions, untagged market amounts and decimal strings included.
#[verifier::rlimit(100)]
#[verifier::spinoff_prover]
pub proof fn lemma_order_request_round_trip(q: OrderRequestModel)
    requires
        q.wf(),
    ensures
        spec_decode_order_request(spec_encode_order_request(q)) == Result::<
            OrderRequestModel,
            ExchangeError,
        >::Ok(q),
{
    reveal_strlit("buy");
    reveal_strlit("sell");
    reveal_strlit("limit");
    reveal_strlit("market");
    reveal_strlit("GTC");
    reveal_strlit("GTT");
    reveal_strlit("IOC");
    reveal_strlit("FOK");
    reveal_strlit("side");
    reveal_strlit("client_oid");
    reveal_strlit("product_id");
    reveal_strlit("type");
    reveal_strlit("price");
    reveal_strlit("size");
    reveal_strlit("funds");
    reveal_strlit("post_only");
    reveal_strlit("time_in_force");
    reveal_strlit("expire_time");
    reveal_strlit("stop_price");
    reveal_strlit("stop");
    lemma_key_vocab();
    let e = spec_encode_order_request(q);
    let head = seq![
        wstr("side"@, side_str(q.side)),
        wopt_str("client_oid"@, q.client_oid),
        wstr("product_id"@, q.product_id),
    ];
    let ty = spec_encode_request_type(q._type);
    let st = spec_encode_stop(q.stop);
    assert(e == head + ty + st);
    match q.side {
        OrderSide::Buy => {
            assert(spec_decode_side(e[0].value) == Result::<OrderSide, ExchangeError>::Ok(
                OrderSide::Buy,
            ));
        },
        OrderSide::Sell => {
            assert("sell"@ != "buy"@);
            assert(spec_decode_side(e[0].value) == Result::<OrderSide, ExchangeError>::Ok(
                OrderSide::Sell,
            ));
        },
    }
    match q._type {
        OrderRequestTypeModel::Limit { price, size, post_only, time_in_force } => {
            let tifs: Seq<WField> = match time_in_force {
                Option::Some(t) => spec_encode_tif(t),
                Option::None => Seq::empty(),
            };
            assert(ty == seq![
                wstr("type"@, "limit"@),
                wdec("price"@, price),
                wdec("size"@, size),
                wbool("post_only"@, post_only),
            ] + tifs);
            assert(e[3] == wstr("type"@, "limit"@));
            assert(e[4] == wdec("price"@, price));
            assert(e[5] == wdec("size"@, size));
            assert(e[6] == wbool("post_only"@, post_only));
            crate::decimal::lemma_decimal_round_trip(price);
            crate::decimal::lemma_decimal_round_trip(size);
            let tail_at: int = 7 + tifs.len() as int;
            match time_in_force {
                Option::None => {
                    assert(e =~= head + seq![
                        wstr("type"@, "limit"@),
                        wdec("price"@, price),
                        wdec("size"@, size),
                        wbool("post_only"@, post_only),
                    ] + st);
                    if e.len() > 7 {
                        assert(e[7] == st[0]);
                        assert(e[7].key == "stop_price"@);
                        assert(e[7].key != "time_in_force"@);
                    }
                    lemma_stop_round_trip(
                        head + seq![
                            wstr("type"@, "limit"@),
                            wdec("price"@, price),
                            wdec("size"@, size),
                            wbool("post_only"@, post_only),
                        ],
                        q.stop,
                    );
                    assert(spec_decode_request_limit(e) == Result::<
                        (OrderRequestTypeModel, int),
                        ExchangeError,
                    >::Ok((q._type, 7)));
                },
                Option::Some(t) => {
                    assert(e[7] == tifs[0]);
                    assert(e[7].key == "time_in_force"@);
                    match t {
                        OrderTimeInForceModel::GTT { expire_time } => {
                            assert(e[8] == tifs[1]);
                            assert("GTT"@ != "GTC"@ && "GTT"@ != "IOC"@ && "GTT"@ != "FOK"@);
                            assert(spec_decode_tif(e, 7) == Result::<
                                (OrderTimeInForceModel, int),
                                ExchangeError,
                            >::Ok((t, 9)));
                        },
                        _ => {
                            assert("IOC"@ != "GTC"@ && "FOK"@ != "GTC"@ && "FOK"@ != "IOC"@);
                            assert(spec_decode_tif(e, 7) == Result::<
                                (OrderTimeInForceModel, int),
                                ExchangeError,
                            >::Ok((t, 8)));
                        },
                    }
                    let pre = head + seq![
                        wstr("type"@, "limit"@),
                        wdec("price"@, price),
                        wdec("size"@, size),
                        wbool("post_only"@, post_only),
                    ] + tifs;
                    assert(e =~= pre + st);
                    lemma_stop_round_trip(pre, q.stop);
                    assert(spec_decode_stop(e, tail_at) == Result::<
                        Option<OrderStop>,
                        ExchangeError,
                    >::Ok(q.stop));
                    assert(spec_decode_request_limit(e) == Result::<
                        (OrderRequestTypeModel, int),
                        ExchangeError,
                    >::Ok((q._type, tail_at)));
                },
            }
        },
        OrderRequestTypeModel::Market { _type } => {
            assert("market"@ != "limit"@);
            match _type {
                OrderRequestMarketType::Size { size } => {
                    assert(ty == seq![wstr("type"@, "market"@), wdec("size"@, size)]);
                    assert(e[3] == wstr("type"@, "market"@));
                    assert(e[4] == wdec("size"@, size));
                    crate::decimal::lemma_decimal_round_trip(size);
                    if e.len() > 5 {
                        assert(e[5] == st[0]);
                        assert(e[5].key == "stop_price"@);
                        assert(e[5].key != "funds"@);
                    }
                    lemma_stop_round_trip(head + ty, q.stop);
                    assert(spec_decode_request_market(e) == Result::<
                        (OrderRequestTypeModel, int),
                        ExchangeError,
                    >::Ok((q._type, 5)));
                },
                OrderRequestMarketType::Funds { funds } => {
                    assert(ty == seq![wstr("type"@, "market"@), wdec("funds"@, funds)]);
                    assert(e[3] == wstr("type"@, "market"@));
                    assert(e[4] == wdec("funds"@, funds));
                    assert(e[4].key != "size"@);
                    crate::decimal::lemma_decimal_round_trip(funds);
                    if e.len() > 5 {
                        assert(e[5] == st[0]);
                        assert(e[5].key == "stop_price"@);
                    }
                    lemma_stop_round_trip(head + ty, q.stop);
                    assert(spec_decode_request_market(e) == Result::<
                        (OrderRequestTypeModel, int),
                        ExchangeError,
                    >::Ok((q._type, 5)));
                },
            }
        },
    }
}

// ---------------------------------------------------------------------
// Exchange-reported orders on the wire.
// ---------------------------------------------------------------------

pub open spec fn status_str(s: OrderStatus) -> Seq<char> {
    match s {
        OrderStatus::Open => "open"@,
        OrderStatus::Done => "done"@,
        OrderStatus::Pending => "pending"@,
        OrderStatus::Active => "active"@,
        OrderStatus::Rejected => "rejected"@,
    }
}

pub open spec fn spec_decode_status(v: WireVal) -> Result<OrderStatus, ExchangeError> {
    match v {
        WireVal::WStr(s) => {
            if s == "open"@ {
                Result::Ok(OrderStatus::Open)
            } else if s == "done"@ {
                Result::Ok(OrderStatus::Done)
            } else if s == "pending"@ {
                Result::Ok(OrderStatus::Pending)
            } else if s == "active"@ {
                Result::Ok(OrderStatus::Active)
            } else if s == "rejected"@ {
                Result::Ok(OrderStatus::Rejected)
            } else {
                Result::Err(ExchangeError::UnrecognizedVariant)
            }
        },
        _ => Result::Err(ExchangeError::UnrecognizedVariant),
    }
}

pub open spec fn spec_encode_order_type(t: OrderTypeModel) -> Seq<WField> {
    match t {
        OrderTypeModel::Limit { size, price, time_in_force } => seq![
            wstr("type"@, "limit"@),
            wdec("size"@, size),
            wdec("price"@, price),
        ] + spec_encode_tif(time_in_force),
        OrderTypeModel::Market { size, funds } => seq![
            wstr("type"@, "market"@),
            wdec("size"@, size),
            wdec("funds"@, funds),
        ],
    }
}

pub open spec fn spec_encode_order(o: OrderModel) -> Seq<WField> {
    seq![
        wstr("id"@, o.id),
        wstr("product_id"@, o.product_id),
        wstr("side"@, side_str(o.side)),
        wopt_str("stp"@, o.stp),
    ] + spec_encode_order_type(o._type) + seq![
        wbool("post_only"@, o.post_only),
        wstr("created_at"@, o.created_at),
        wdec("fill_fees"@, o.fill_fees),
        wdec("filled_size"@, o.filled_size),
        wdec("executed_value"@, o.executed_value),
        wstr("status"@, status_str(o.status)),
        wbool("settled"@, o.settled),
    ] + spec_encode_stop(o.stop)
}

/// The server-side fields that close every order record, then the
/// optional stop tail.
pub open spec fn spec_decode_order_tail(fs: Seq<WField>, i: int) -> Result<
    (bool, Seq<char>, Decimal, Decimal, Decimal, OrderStatus, bool, Option<OrderStop>),
    ExchangeError,
> {
    if i + 7 <= fs.len() && fs[i].key == "post_only"@ && fs[i].value is WBool && fs[i + 1].key
        == "created_at"@ && fs[i + 1].value is WStr && fs[i + 2].key == "fill_fees"@ && fs[i
        + 3].key == "filled_size"@ && fs[i + 4].key == "executed_value"@ && fs[i + 5].key
        == "status"@ && fs[i + 6].key == "settled"@ && fs[i + 6].value is WBool {
        match spec_decode_wire_dec(fs[i + 2].value) {
            Result::Err(e) => Result::Err(e),
            Result::Ok(fill_fees) => match spec_decode_wire_dec(fs[i + 3].value) {
                Result::Err(e) => Result::Err(e),
                Result::Ok(filled_size) => match spec_decode_wire_dec(fs[i + 4].value) {
                    Result::Err(e) => Result::Err(e),
                    Result::Ok(executed_value) => match spec_decode_status(fs[i + 5].value) {
                        Result::Err(e) => Result::Err(e),
                        Result::Ok(status) => match spec_decode_stop(fs, i + 7) {
                            Result::Err(e) => Result::Err(e),
                            Result::Ok(stop) => Result::Ok(
                                (
                                    fs[i].value->WBool_0,
                                    fs[i + 1].value->WStr_0,
                                    fill_fees,
                                    filled_size,
                                    executed_value,
                                    status,
                                    fs[i + 6].value->WBool_0,
                                    stop,
                                ),
                            ),
                        },
                    },
                },
            },
        }
    } else {
        Result::Err(ExchangeError::UnrecognizedVariant)
    }
}

/// The `Limit` order type, from the `size` field on; time-in-force is
/// required on reported orders.
pub open spec fn spec_decode_order_limit(fs: Seq<WField>) -> Result<
    (OrderTypeModel, int),
    ExchangeError,
> {
    if fs.len() >= 7 && fs[5].key == "size"@ && fs[6].key == "price"@ {
        match spec_decode_wire_dec(fs[5].value) {
            Result::Err(e) => Result::Err(e),
            Result::Ok(size) => match spec_decode_wire_dec(fs[6].value) {
                Result::Err(e) => Result::Err(e),
                Result::Ok(price) => match spec_decode_tif(fs, 7) {
                    Result::Err(e) => Result::Err(e),
                    Result::Ok((t, ni)) => Result::Ok(
                        (OrderTypeModel::Limit { size, price, time_in_force: t }, ni),
                    ),
                },
            },
        }
    } else {
        Result::Err(ExchangeError::UnrecognizedVariant)
    }
}

/// The `Market` order type. `size` and `funds` are wire-optional and
/// default to zero when absent; malformed present values still fail.
pub open spec fn spec_decode_order_market(fs: Seq<WField>) -> Result<
    (OrderTypeModel, int),
    ExchangeError,
> {
    let zero = Decimal { negative: false, mantissa: 0, scale: 0 };
    let sized: Result<(Decimal, int), ExchangeError> = if fs.len() > 5 && fs[5].key == "size"@ {
        match spec_decode_wire_dec(fs[5].value) {
            Result::Err(e) => Result::Err(e),
            Result::Ok(d) => Result::Ok((d, 6)),
        }
    } else {
        Result::Ok((zero, 5))
    };
    match sized {
        Result::Err(e) => Result::Err(e),
        Result::Ok((size, i)) => {
            let funded: Result<(Decimal, int), ExchangeError> = if fs.len() > i && fs[i].key
                == "funds"@ {
                match spec_decode_wire_dec(fs[i].value) {
                    Result::Err(e) => Result::Err(e),
                    Result::Ok(d) => Result::Ok((d, i + 1)),
                }
            } else {
                Result::Ok((zero, i))
            };
            match funded {
                Result::Err(e) => Result::Err(e),
                Result::Ok((funds, ni)) => Result::Ok(
                    (OrderTypeModel::Market { size, funds }, ni),
                ),
            }
        },
    }
}

pub open spec fn spec_decode_order(fs: Seq<WField>) -> Result<OrderModel, ExchangeError> {
    if fs.len() >= 5 && fs[0].key == "id"@ && fs[0].value is WStr && fs[1].key == "product_id"@
        && fs[1].value is WStr && fs[2].key == "side"@ && fs[3].key == "stp"@ && fs[4].key
        == "type"@ && fs[4].value is WStr {
        match spec_decode_side(fs[2].value) {
            Result::Err(e) => Result::Err(e),
            Result::Ok(side) => match spec_decode_opt_str(fs[3].value) {
                Result::Err(e) => Result::Err(e),
                Result::Ok(stp) => {
                    let tag = fs[4].value->WStr_0;
                    let arm: Result<(OrderTypeModel, int), ExchangeError> = if tag == "limit"@ {
                        spec_decode_order_limit(fs)
                    } else if tag == "market"@ {
                        spec_decode_order_market(fs)
                    } else {
                        Result::Err(ExchangeError::UnrecognizedVariant)
                    };
                    match arm {
                        Result::Err(e) => Result::Err(e),
                        Result::Ok((t, ni)) => match spec_decode_order_tail(fs, ni) {
                            Result::Err(e) => Result::Err(e),
                            Result::Ok(
                                (post_only, created_at, fill_fees, filled_size, executed_value,
                                status, settled, stop),
                            ) => Result::Ok(
                                OrderModel {
                                    id: fs[0].value->WStr_0,
                                    product_id: fs[1].value->WStr_0,
                                    side,
                                    stp,
                                    _type: t,
                                    post_only,
                                    created_at,
                                    fill_fees,
                                    filled_size,
                                    executed_value,
                                    status,
                                    settled,
                                    stop,
                                },
                            ),
                        },
                    }
                },
            },
        }
    } else {
        Result::Err(ExchangeError::UnrecognizedVariant)
    }
}

// ---------------------------------------------------------------------
// Tickers on the wire.
// ---------------------------------------------------------------------

pub open spec fn spec_encode_ticker(t: TickerModel) -> Seq<WField> {
    seq![
        wint("trade_id"@, t.trade_id as int),
        wdec("price"@, t.price),
        wdec("size"@, t.size),
        wdec("bid"@, t.bid),
        wdec("ask"@, t.ask),
        wdec("volume"@, t.volume),
        wstr("time"@, t.time),
    ]
}

pub open spec fn spec_decode_ticker(fs: Seq<WField>) -> Result<TickerModel, ExchangeError> {
    if fs.len() == 7 && fs[0].key == "trade_id"@ && fs[0].value is WInt && fs[1].key == "price"@
        && fs[2].key == "size"@ && fs[3].key == "bid"@ && fs[4].key == "ask"@ && fs[5].key
        == "volume"@ && fs[6].key == "time"@ && fs[6].value is WStr && i64::MIN
        <= fs[0].value->WInt_0 <= i64::MAX {
        match spec_decode_wire_dec(fs[1].value) {
            Result::Err(e) => Result::Err(e),
            Result::Ok(price) => match spec_decode_wire_dec(fs[2].value) {
                Result::Err(e) => Result::Err(e),
                Result::Ok(size) => match spec_decode_wire_dec(fs[3].value) {
                    Result::Err(e) => Result::Err(e),
                    Result::Ok(bid) => match spec_decode_wire_dec(fs[4].value) {
                        Result::Err(e) => Result::Err(e),
                        Result::Ok(ask) => match spec_decode_wire_dec(fs[5].value) {
                            Result::Err(e) => Result::Err(e),
                            Result::Ok(volume) => Result::Ok(
                                TickerModel {
                                    trade_id: fs[0].value->WInt_0 as i64,
                                    price,
                                    size,
                                    bid,
                                    ask,
                                    volume,
                                    time: fs[6].value->WStr_0,
                                },
                            ),
                        },
                    },
                },
            },
        }
    } else {
        Result::Err(ExchangeError::UnrecognizedVariant)
    }
}

// ---------------------------------------------------------------------
// Executable order and ticker codec.
// ---------------------------------------------------------------------

fn decode_status(v: &WireValue) -> (r: Result<OrderStatus, ExchangeError>)
    ensures
        r == spec_decode_status(v@),
{
    match v {
        WireValue::VStr(s) => {
            if wire_str_eq(s, "open") {
                Result::Ok(OrderStatus::Open)
            } else if wire_str_eq(s, "done") {
                Result::Ok(OrderStatus::Done)
            } else if wire_str_eq(s, "pending") {
                Result::Ok(OrderStatus::Pending)
            } else if wire_str_eq(s, "active") {
                Result::Ok(OrderStatus::Active)
            } else if wire_str_eq(s, "rejected") {
                Result::Ok(OrderStatus::Rejected)
            } else {
                Result::Err(ExchangeError::UnrecognizedVariant)
            }
        },
        _ => Result::Err(ExchangeError::UnrecognizedVariant),
    }
}

/// Serialize an exchange-reported order into its wire field list.
pub fn encode_order(o: &Order) -> (r: Vec<WireField>)
    requires
        o@.wf(),
    ensures
        fields_view(r@) == spec_encode_order(o@),
{
    let mut out: Vec<WireField> = Vec::new();
    out.push(WireField { key: "id".to_owned(), value: WireValue::VStr(o.id.clone()) });
    out.push(
        WireField { key: "product_id".to_owned(), value: WireValue::VStr(o.product_id.clone()) },
    );
    let side_value: String = match o.side {
        OrderSide::Buy => "buy".to_owned(),
        OrderSide::Sell => "sell".to_owned(),
    };
    out.push(WireField { key: "side".to_owned(), value: WireValue::VStr(side_value) });
    let stp_value: WireValue = match &o.stp {
        Option::Some(s) => WireValue::VStr(s.clone()),
        Option::None => WireValue::VNull,
    };
    out.push(WireField { key: "stp".to_owned(), value: stp_value });
    let ghost head = fields_view(out@);
    proof {
        assert(head =~= seq![
            wstr("id"@, o@.id),
            wstr("product_id"@, o@.product_id),
            wstr("side"@, side_str(o@.side)),
            wopt_str("stp"@, o@.stp),
        ]);
    }
    match &o._type {
        OrderType::Limit { size, price, time_in_force } => {
            out.push(
                WireField { key: "type".to_owned(), value: WireValue::VStr("limit".to_owned()) },
            );
            out.push(
                WireField { key: "size".to_owned(), value: WireValue::VStr(decimal::encode(size)) },
            );
            out.push(
                WireField { key: "price".to_owned(), value: WireValue::VStr(decimal::encode(price)) },
            );
            push_tif(&mut out, time_in_force);
            proof {
                assert(fields_view(out@) =~= head + spec_encode_order_type(o@._type));
            }
        },
        OrderType::Market { size, funds } => {
            out.push(
                WireField { key: "type".to_owned(), value: WireValue::VStr("market".to_owned()) },
            );
            out.push(
                WireField { key: "size".to_owned(), value: WireValue::VStr(decimal::encode(size)) },
            );
            out.push(
                WireField { key: "funds".to_owned(), value: WireValue::VStr(decimal::encode(funds)) },
            );
            proof {
                assert(fields_view(out@) =~= head + spec_encode_order_type(o@._type));
            }
        },
    }
    let ghost mid = fields_view(out@);
    out.push(WireField { key: "post_only".to_owned(), value: WireValue::VBool(o.post_only) });
    out.push(
        WireField { key: "created_at".to_owned(), value: WireValue::VStr(o.created_at.clone()) },
    );
    out.push(
        WireField {
            key: "fill_fees".to_owned(),
            value: WireValue::VStr(decimal::encode(&o.fill_fees)),
        },
    );
    out.push(
        WireField {
            key: "filled_size".to_owned(),
            value: WireValue::VStr(decimal::encode(&o.filled_size)),
        },
    );
    out.push(
        WireField {
            key: "executed_value".to_owned(),
            value: WireValue::VStr(decimal::encode(&o.executed_value)),
        },
    );
    let status_value: String = match o.status {
        OrderStatus::Open => "open".to_owned(),
        OrderStatus::Done => "done".to_owned(),
        OrderStatus::Pending => "pending".to_owned(),
        OrderStatus::Active => "active".to_owned(),
        OrderStatus::Rejected => "rejected".to_owned(),
    };
    out.push(WireField { key: "status".to_owned(), value: WireValue::VStr(status_value) });
    out.push(WireField { key: "settled".to_owned(), value: WireValue::VBool(o.settled) });
    proof {
        assert(fields_view(out@) =~= mid + seq![
            wbool("post_only"@, o@.post_only),
            wstr("created_at"@, o@.created_at),
            wdec("fill_fees"@, o@.fill_fees),
            wdec("filled_size"@, o@.filled_size),
            wdec("executed_value"@, o@.executed_value),
            wstr("status"@, status_str(o@.status)),
            wbool("settled"@, o@.settled),
        ]);
    }
    push_stop(&mut out, &o.stop);
    proof {
        assert(fields_view(out@) =~= spec_encode_order(o@));
    }
    out
}

fn decode_order_limit(fields: &Vec<WireField>) -> (r: Result<(OrderType, usize), ExchangeError>)
    ensures
        r matches Result::Ok(p) ==> p.1 <= fields.len() && spec_decode_order_limit(
            fields_view(fields@),
        ) == Result::<(OrderTypeModel, int), ExchangeError>::Ok((p.0@, p.1 as int)),
        r matches Result::Err(e) ==> spec_decode_order_limit(fields_view(fields@)) == Result::<
            (OrderTypeModel, int),
            ExchangeError,
        >::Err(e),
{
    let ghost fs = fields_view(fields@);
    if !(fields.len() >= 7 && wire_str_eq(&fields[5].key, "size") && wire_str_eq(
        &fields[6].key,
        "price",
    )) {
        return Result::Err(ExchangeError::UnrecognizedVariant);
    }
    let size = match decode_wire_dec(&fields[5].value) {
        Result::Ok(d) => d,
        Result::Err(e) => {
            return Result::Err(e);
        },
    };
    let price = match decode_wire_dec(&fields[6].value) {
        Result::Ok(d) => d,
        Result::Err(e) => {
            return Result::Err(e);
        },
    };
    match decode_tif(fields, 7) {
        Result::Ok((t, n2)) => Result::Ok((OrderType::Limit { size, price, time_in_force: t }, n2)),
        Result::Err(e) => Result::Err(e),
    }
}

fn decode_order_market(fields: &Vec<WireField>) -> (r: Result<(OrderType, usize), ExchangeError>)
    requires
        fields.len() >= 5,
    ensures
        r matches Result::Ok(p) ==> p.1 <= fields.len() && spec_decode_order_market(
            fields_view(fields@),
        ) == Result::<(OrderTypeModel, int), ExchangeError>::Ok((p.0@, p.1 as int)),
        r matches Result::Err(e) ==> spec_decode_order_market(fields_view(fields@)) == Result::<
            (OrderTypeModel, int),
            ExchangeError,
        >::Err(e),
{
    let ghost fs = fields_view(fields@);
    let sized: Result<(Decimal, usize), ExchangeError> = if fields.len() > 5 && wire_str_eq(
        &fields[5].key,
        "size",
    ) {
        match decode_wire_dec(&fields[5].value) {
            Result::Ok(d) => Result::Ok((d, 6)),
            Result::Err(e) => Result::Err(e),
        }
    } else {
        Result::Ok((Decimal::zero(), 5))
    };
    let (size, i) = match sized {
        Result::Ok(p) => p,
        Result::Err(e) => {
            return Result::Err(e);
        },
    };
    let funded: Result<(Decimal, usize), ExchangeError> = if fields.len() > i && wire_str_eq(
        &fields[i].key,
        "funds",
    ) {
        match decode_wire_dec(&fields[i].value) {
            Result::Ok(d) => Result::Ok((d, i + 1)),
            Result::Err(e) => Result::Err(e),
        }
    } else {
        Result::Ok((Decimal::zero(), i))
    };
    let (funds, ni) = match funded {
        Result::Ok(p) => p,
        Result::Err(e) => {
            return Result::Err(e);
        },
    };
    Result::Ok((OrderType::Market { size, funds }, ni))
}

fn decode_order_tail(fields: &Vec<WireField>, ni: usize) -> (r: Result<
    (bool, String, Decimal, Decimal, Decimal, OrderStatus, bool, Option<OrderStop>),
    ExchangeError,
>)
    requires
        ni <= fields.len(),
    ensures
        r matches Result::Ok(p) ==> spec_decode_order_tail(fields_view(fields@), ni as int)
            == Result::<
            (bool, Seq<char>, Decimal, Decimal, Decimal, OrderStatus, bool, Option<OrderStop>),
            ExchangeError,
        >::Ok((p.0, p.1@, p.2, p.3, p.4, p.5, p.6, p.7)),
        r matches Result::Err(e) ==> spec_decode_order_tail(fields_view(fields@), ni as int)
            == Result::<
            (bool, Seq<char>, Decimal, Decimal, Decimal, OrderStatus, bool, Option<OrderStop>),
            ExchangeError,
        >::Err(e),
{
    let ghost fs = fields_view(fields@);
    let unrec = ExchangeError::UnrecognizedVariant;
    if !(fields.len() >= 7 && ni <= fields.len() - 7 && wire_str_eq(&fields[ni].key, "post_only")
        && wire_str_eq(&fields[ni + 1].key, "created_at") && wire_str_eq(
        &fields[ni + 2].key,
        "fill_fees",
    ) && wire_str_eq(&fields[ni + 3].key, "filled_size") && wire_str_eq(
        &fields[ni + 4].key,
        "executed_value",
    ) && wire_str_eq(&fields[ni + 5].key, "status") && wire_str_eq(
        &fields[ni + 6].key,
        "settled",
    )) {
        return Result::Err(unrec);
    }
    let post_only: bool = match &fields[ni].value {
        WireValue::VBool(b) => *b,
        _ => {
            return Result::Err(unrec);
        },
    };
    let created_at: String = match &fields[ni + 1].value {
        WireValue::VStr(s) => s.clone(),
        _ => {
            return Result::Err(unrec);
        },
    };
    let settled: bool = match &fields[ni + 6].value {
        WireValue::VBool(b) => *b,
        _ => {
            return Result::Err(unrec);
        },
    };
    let fill_fees = match decode_wire_dec(&fields[ni + 2].value) {
        Result::Ok(d) => d,
        Result::Err(e) => {
            return Result::Err(e);
        },
    };
    let filled_size = match decode_wire_dec(&fields[ni + 3].value) {
        Result::Ok(d) => d,
        Result::Err(e) => {
            return Result::Err(e);
        },
    };
    let executed_value = match decode_wire_dec(&fields[ni + 4].value) {
        Result::Ok(d) => d,
        Result::Err(e) => {
            return Result::Err(e);
        },
    };
    let status = match decode_status(&fields[ni + 5].value) {
        Result::Ok(s) => s,
        Result::Err(e) => {
            return Result::Err(e);
        },
    };
    let stop = match decode_stop(fields, ni + 7) {
        Result::Ok(st) => st,
        Result::Err(e) => {
            return Result::Err(e);
        },
    };
    Result::Ok((post_only, created_at, fill_fees, filled_size, executed_value, status, settled, stop))
}

/// Deserialize an exchange-reported order; a market order's absent
/// `size` or `funds` defaults to zero, a malformed one still fails.
#[verifier::rlimit(100)]
#[verifier::spinoff_prover]
pub fn decode_order(fields: &Vec<WireField>) -> (r: Result<Order, ExchangeError>)
    ensures
        r matches Result::Ok(o) ==> spec_decode_order(fields_view(fields@)) == Result::<
            OrderModel,
            ExchangeError,
        >::Ok(o@),
        r matches Result::Err(e) ==> spec_decode_order(fields_view(fields@)) == Result::<
            OrderModel,
            ExchangeError,
        >::Err(e),
{
    let ghost fs = fields_view(fields@);
    let unrec: Result<Order, ExchangeError> = Result::Err(ExchangeError::UnrecognizedVariant);
    if !(fields.len() >= 5 && wire_str_eq(&fields[0].key, "id") && wire_str_eq(
        &fields[1].key,
        "product_id",
    ) && wire_str_eq(&fields[2].key, "side") && wire_str_eq(&fields[3].key, "stp")
        && wire_str_eq(&fields[4].key, "type")) {
        return unrec;
    }
    let id: String = match &fields[0].value {
        WireValue::VStr(s) => s.clone(),
        _ => {
            return unrec;
        },
    };
    let product_id: String = match &fields[1].value {
        WireValue::VStr(s) => s.clone(),
        _ => {
            return unrec;
        },
    };
    let is_limit: bool;
    match &fields[4].value {
        WireValue::VStr(tag) => {
            if wire_str_eq(tag, "limit") {
                is_limit = true;
            } else if wire_str_eq(tag, "market") {
                is_limit = false;
            } else {
                return unrec;
            }
        },
        _ => {
            return unrec;
        },
    }
    let side = match decode_side(&fields[2].value) {
        Result::Ok(s) => s,
        Result::Err(e) => {
            return Result::Err(e);
        },
    };
    let stp = match decode_opt_str(&fields[3].value) {
        Result::Ok(o) => o,
        Result::Err(e) => {
            return Result::Err(e);
        },
    };
    let arm = if is_limit {
        decode_order_limit(fields)
    } else {
        decode_order_market(fields)
    };
    let (_type, ni) = match arm {
        Result::Ok(p) => p,
        Result::Err(e) => {
            return Result::Err(e);
        },
    };
    let tail = match decode_order_tail(fields, ni) {
        Result::Ok(t) => t,
        Result::Err(e) => {
            return Result::Err(e);
        },
    };
    let (post_only, created_at, fill_fees, filled_size, executed_value, status, settled, stop) =
        tail;
    Result::Ok(
        Order {
            id,
            product_id,
            side,
            stp,
            _type,
            post_only,
            created_at,
            fill_fees,
            filled_size,
            executed_value,
            status,
            settled,
            stop,
        },
    )
}

/// Serialize a ticker into its wire field list.
pub fn encode_ticker(t: &Ticker) -> (r: Vec<WireField>)
    requires
        t@.wf(),
    ensures
        fields_view(r@) == spec_encode_ticker(t@),
{
    let mut out: Vec<WireField> = Vec::new();
    out.push(WireField { key: "trade_id".to_owned(), value: WireValue::VInt(t.trade_id) });
    out.push(
        WireField { key: "price".to_owned(), value: WireValue::VStr(decimal::encode(&t.price)) },
    );
    out.push(
        WireField { key: "size".to_owned(), value: WireValue::VStr(decimal::encode(&t.size)) },
    );
    out.push(WireField { key: "bid".to_owned(), value: WireValue::VStr(decimal::encode(&t.bid)) });
    out.push(WireField { key: "ask".to_owned(), value: WireValue::VStr(decimal::encode(&t.ask)) });
    out.push(
        WireField { key: "volume".to_owned(), value: WireValue::VStr(decimal::encode(&t.volume)) },
    );
    out.push(WireField { key: "time".to_owned(), value: WireValue::VStr(t.time.clone()) });
    proof {
        assert(fields_view(out@) =~= spec_encode_ticker(t@));
    }
    out
}

/// Deserialize a ticker: string-encoded decimals become exact decimal
/// values, never strings.
pub fn decode_ticker(fields: &Vec<WireField>) -> (r: Result<Ticker, ExchangeError>)
    ensures
        r matches Result::Ok(t) ==> spec_decode_ticker(fields_view(fields@)) == Result::<
            TickerModel,
            ExchangeError,
        >::Ok(t@),
        r matches Result::Err(e) ==> spec_decode_ticker(fields_view(fields@)) == Result::<
            TickerModel,
            ExchangeError,
        >::Err(e),
{
    let ghost fs = fields_view(fields@);
    let unrec: Result<Ticker, ExchangeError> = Result::Err(ExchangeError::UnrecognizedVariant);
    if !(fields.len() == 7 && wire_str_eq(&fields[0].key, "trade_id") && wire_str_eq(
        &fields[1].key,
        "price",
    ) && wire_str_eq(&fields[2].key, "size") && wire_str_eq(&fields[3].key, "bid")
        && wire_str_eq(&fields[4].key, "ask") && wire_str_eq(&fields[5].key, "volume")
        && wire_str_eq(&fields[6].key, "time")) {
        return unrec;
    }
    let trade_id: i64 = match &fields[0].value {
        WireValue::VInt(i) => *i,
        _ => {
            return unrec;
        },
    };
    let time: String = match &fields[6].value {
        WireValue::VStr(s) => s.clone(),
        _ => {
            return unrec;
        },
    };
    let price = match decode_wire_dec(&fields[1].value) {
        Result::Ok(d) => d,
        Result::Err(e) => {
            return Result::Err(e);
        },
    };
    let size = match decode_wire_dec(&fields[2].value) {
        Result::Ok(d) => d,
        Result::Err(e) => {
            return Result::Err(e);
        },
    };
    let bid = match decode_wire_dec(&fields[3].value) {
        Result::Ok(d) => d,
        Result::Err(e) => {
            return Result::Err(e);
        },
    };
    let ask = match decode_wire_dec(&fields[4].value) {
        Result::Ok(d) => d,
        Result::Err(e) => {
            return Result::Err(e);
        },
    };
    let volume = match decode_wire_dec(&fields[5].value) {
        Result::Ok(d) => d,
        Result::Err(e) => {
            return Result::Err(e);
        },
    };
    Result::Ok(Ticker { trade_id, price, size, bid, ask, volume, time })
}

// ---------------------------------------------------------------------
// The order and ticker round-trip laws.
// ---------------------------------------------------------------------

/// Helper: the server-side tail fields decode back to what they
/// encode, wherever the record begins.
proof fn lemma_order_tail_round_trip(pre: Seq<WField>, o: OrderModel)
    requires
        o.wf(),
    ensures
        spec_decode_order_tail(
            pre + seq![
                wbool("post_only"@, o.post_only),
                wstr("created_at"@, o.created_at),
                wdec("fill_fees"@, o.fill_fees),
                wdec("filled_size"@, o.filled_size),
                wdec("executed_value"@, o.executed_value),
                wstr("status"@, status_str(o.status)),
                wbool("settled"@, o.settled),
            ] + spec_encode_stop(o.stop),
            pre.len() as int,
        ) == Result::<
            (bool, Seq<char>, Decimal, Decimal, Decimal, OrderStatus, bool, Option<OrderStop>),
            ExchangeError,
        >::Ok(
            (
                o.post_only,
                o.created_at,
                o.fill_fees,
                o.filled_size,
                o.executed_value,
                o.status,
                o.settled,
                o.stop,
            ),
        ),
{
    lemma_key_vocab();
    let tail7 = seq![
        wbool("post_only"@, o.post_only),
        wstr("created_at"@, o.created_at),
        wdec("fill_fees"@, o.fill_fees),
        wdec("filled_size"@, o.filled_size),
        wdec("executed_value"@, o.executed_value),
        wstr("status"@, status_str(o.status)),
        wbool("settled"@, o.settled),
    ];
    let e = pre + tail7 + spec_encode_stop(o.stop);
    let i = pre.len() as int;
    assert(e[i] == tail7[0]);
    assert(e[i + 1] == tail7[1]);
    assert(e[i + 2] == tail7[2]);
    assert(e[i + 3] == tail7[3]);
    assert(e[i + 4] == tail7[4]);
    assert(e[i + 5] == tail7[5]);
    assert(e[i + 6] == tail7[6]);
    crate::decimal::lemma_decimal_round_trip(o.fill_fees);
    crate::decimal::lemma_decimal_round_trip(o.filled_size);
    crate::decimal::lemma_decimal_round_trip(o.executed_value);
    match o.status {
        OrderStatus::Open => {},
        OrderStatus::Done => {},
        OrderStatus::Pending => {},
        OrderStatus::Active => {},
        OrderStatus::Rejected => {},
    }
    assert(spec_decode_status(e[i + 5].value) == Result::<OrderStatus, ExchangeError>::Ok(
        o.status,
    ));
    assert(e =~= (pre + tail7) + spec_encode_stop(o.stop));
    lemma_stop_round_trip(pre + tail7, o.stop);
}

/// Round trip: every well-formed exchange-reported order that is
/// serialized to its wire fields and deserialized again comes back
/// equal.
#[verifier::rlimit(100)]
#[verifier::spinoff_prover]
pub proof fn lemma_order_round_trip(o: OrderModel)
    requires
        o.wf(),
    ensures
        spec_decode_order(spec_encode_order(o)) == Result::<OrderModel, ExchangeError>::Ok(o),
{
    lemma_key_vocab();
    let e = spec_encode_order(o);
    let head = seq![
        wstr("id"@, o.id),
        wstr("product_id"@, o.product_id),
        wstr("side"@, side_str(o.side)),
        wopt_str("stp"@, o.stp),
    ];
    let ty = spec_encode_order_type(o._type);
    let tail7 = seq![
        wbool("post_only"@, o.post_only),
        wstr("created_at"@, o.created_at),
        wdec("fill_fees"@, o.fill_fees),
        wdec("filled_size"@, o.filled_size),
        wdec("executed_value"@, o.executed_value),
        wstr("status"@, status_str(o.status)),
        wbool("settled"@, o.settled),
    ];
    let st = spec_encode_stop(o.stop);
    assert(e == head + ty + tail7 + st);
    match o.side {
        OrderSide::Buy => {},
        OrderSide::Sell => {},
    }
    assert(spec_decode_side(e[2].value) == Result::<OrderSide, ExchangeError>::Ok(o.side));
    match o._type {
        OrderTypeModel::Limit { size, price, time_in_force } => {
            let tifs = spec_encode_tif(time_in_force);
            assert(ty == seq![
                wstr("type"@, "limit"@),
                wdec("size"@, size),
                wdec("price"@, price),
            ] + tifs);
            assert(e[4] == wstr("type"@, "limit"@));
            assert(e[5] == wdec("size"@, size));
            assert(e[6] == wdec("price"@, price));
            crate::decimal::lemma_decimal_round_trip(size);
            crate::decimal::lemma_decimal_round_trip(price);
            assert(e[7] == tifs[0]);
            match time_in_force {
                OrderTimeInForceModel::GTT { expire_time } => {
                    assert(e[8] == tifs[1]);
                    assert(spec_decode_tif(e, 7) == Result::<
                        (OrderTimeInForceModel, int),
                        ExchangeError,
                    >::Ok((time_in_force, 9)));
                },
                _ => {
                    assert(spec_decode_tif(e, 7) == Result::<
                        (OrderTimeInForceModel, int),
                        ExchangeError,
                    >::Ok((time_in_force, 8)));
                },
            }
            let ni = 7 + tifs.len() as int;
            assert(spec_decode_order_limit(e) == Result::<
                (OrderTypeModel, int),
                ExchangeError,
            >::Ok((o._type, ni)));
            let pre = head + ty;
            assert(pre.len() == ni);
            assert(e =~= pre + tail7 + st);
            lemma_order_tail_round_trip(pre, o);
        },
        OrderTypeModel::Market { size, funds } => {
            assert(ty == seq![
                wstr("type"@, "market"@),
                wdec("size"@, size),
                wdec("funds"@, funds),
            ]);
            assert(e[4] == wstr("type"@, "market"@));
            assert(e[5] == wdec("size"@, size));
            assert(e[6] == wdec("funds"@, funds));
            crate::decimal::lemma_decimal_round_trip(size);
            crate::decimal::lemma_decimal_round_trip(funds);
            assert(spec_decode_order_market(e) == Result::<
                (OrderTypeModel, int),
                ExchangeError,
            >::Ok((o._type, 7)));
            let pre = head + ty;
            assert(pre.len() == 7);
            assert(e =~= pre + tail7 + st);
            lemma_order_tail_round_trip(pre, o);
        },
    }
}

/// Round trip: a ticker's wire fields decode back to the same
/// decimal values and text.
pub proof fn lemma_ticker_round_trip(t: TickerModel)
    requires
        t.wf(),
    ensures
        spec_decode_ticker(spec_encode_ticker(t)) == Result::<TickerModel, ExchangeError>::Ok(t),
{
    let e = spec_encode_ticker(t);
    crate::decimal::lemma_decimal_round_trip(t.price);
    crate::decimal::lemma_decimal_round_trip(t.size);
    crate::decimal::lemma_decimal_round_trip(t.bid);
    crate::decimal::lemma_decimal_round_trip(t.ask);
    crate::decimal::lemma_decimal_round_trip(t.volume);
}

} // verus!
