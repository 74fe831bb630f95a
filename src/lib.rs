//! Throughput harness for keypair generation and ECDSA verification on
//! secp256k1: the per-iteration rules of three concurrency strategies, the
//! unique message each signature covers, and the counters they fill.

pub mod counters;
pub mod crypto;
pub mod cycle;
pub mod message;
pub mod pipeline;
pub mod pool;
pub mod serial;
