//! Quoting on-chain token swaps through DEX aggregators (0x, 1inch and the
//! Balancer smart order router) behind one domain vocabulary.
pub mod amount;
pub mod balancer;
pub mod domain;
pub mod hex;
pub mod http;
pub mod oneinch;
pub mod zeroex;
