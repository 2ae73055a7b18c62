//! The DDD layers wired at startup:
//! connections -> repositories -> services -> use cases.

pub mod repositories;
pub mod services;
pub mod use_cases;
