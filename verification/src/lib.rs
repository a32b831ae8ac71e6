//! A unified client model for cryptocurrency exchange APIs: an exact
//! decimal/string codec, an exchange-agnostic domain model with tagged
//! variants, wire-format encoding and decoding for the per-exchange
//! adapters, and the request builders of the unified trading facade.

pub mod adapter;
pub mod client;
pub mod decimal;
pub mod errors;
pub mod model;
pub mod stream;
pub mod wire;
