//! Verified core of a multi-exchange cryptocurrency trading client.
//!
//! The library holds what the exchange adapters compute: symbol and market-id
//! conversions, timeframe tables, status mappings, the parsing of exchange
//! payloads into unified records, request signing and request building.
//! Network transport lives outside the library.

pub mod dec;
pub mod text;
pub mod json;
pub mod crypto;
pub mod time;
pub mod types;
pub mod common;
pub mod ws;
pub mod book;
pub mod luno;
pub mod onetrading;
pub mod mercado;
pub mod kucoinfutures;
pub mod ndax;
pub mod novadax;
pub mod mexc;
pub mod oxfun;
pub mod kucoin_futures_ws;
pub mod lbank_ws;
pub mod luno_ws;
pub mod krakenfutures_ws;
pub mod mexc_ws;
pub mod ndax_ws;
pub mod oceanex_ws;
