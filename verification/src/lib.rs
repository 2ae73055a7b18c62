//! Verified core of a DDD-style service skeleton: configuration model,
//! connection planning, Kafka consumer bookkeeping and cache decisions.

pub mod text;
pub mod config;
pub mod kafka_consumer;
pub mod connection;
pub mod cache;
pub mod wiring;
pub mod server;
