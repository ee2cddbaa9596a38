//! Control engine of a payment-channel node: wire framing, request/response
//! correlation with timeouts, signature collection for channel transactions,
//! invoice bookkeeping, multi-hop HTLC routing and the node's dispatch rules.
pub mod byte_map;
pub mod digest;
pub mod error;
pub mod framing;
pub mod invoice;
pub mod message;
pub mod node;
pub mod pending_txn;
pub mod processor;
pub mod protocol;
pub mod routing;
pub mod service;
