//! Bookkeeping of the Kafka consumer: offsets to commit, routing of
//! messages to topic pipelines, and the decisions of the consume loop.

pub mod commit;
pub mod message;
pub mod pipeline;
pub mod runtime;
