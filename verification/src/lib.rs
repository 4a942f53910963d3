//! A multi-channel TCP card-ingestion core: a fixed-width frame codec, a
//! deterministic card lookup table, a per-table connection registry, and the
//! pure decision logic of the listener and per-connection loops.
//!
//! All I/O (binding, accepting, reading, writing) lives outside this crate;
//! the functions here are pure state transitions and data operations with
//! verified contracts.

pub mod card_lookup;
pub mod card_processor;
pub mod config;
pub mod connection_pool;
pub mod protocol;
pub mod tcp_server;
pub mod utils;
