//! Building blocks for two small Aleo utilities: the request and response
//! rules of a REST client for a node, and the bookkeeping of a proof
//! throughput prober. Everything here works on plain values; sockets,
//! threads and clocks belong to the caller.

pub mod client;
pub mod error;
pub mod http;
pub mod json;
pub mod prober;
pub mod text;
