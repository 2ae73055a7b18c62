//! Everything the service decides before it opens a connection: client
//! configurations, addresses, pool sizes and protocol options.

pub mod kafka_conn;
pub mod redis_conn;
pub mod postgres_conn;
pub mod scylla_conn;
pub mod s3_conn;
pub mod qdrant_conn;
pub mod grpc_conn;
