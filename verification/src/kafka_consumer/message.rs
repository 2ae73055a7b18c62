//! A consumed message as the handlers see it.

use vstd::prelude::*;

verus! {

/// One message taken off a topic partition.
#[derive(Debug)]
pub struct MQMessage {
    pub topic: String,
    pub partition: i32,
    pub offset: i64,
    pub key: Option<Vec<u8>>,
    pub value: Option<Vec<u8>>,
    /// Header name and value; a header without a value carries no bytes.
    pub headers: Vec<(String, Vec<u8>)>,
}

} // verus!
