//! Cache decisions: the in-process cache's policy and counters, and the
//! shape of commands and replies of the distributed cache.

pub mod moka_cache;
pub mod redis_cache;
