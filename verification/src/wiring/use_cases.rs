//! Application use cases, which orchestrate domain services.

use vstd::prelude::*;

use super::services::Services;

verus! {

/// Application use cases (none are defined yet).
#[derive(Debug)]
pub struct UseCases {}

impl Default for UseCases {
    fn default() -> (r: Self)
        ensures
            r == (UseCases {}),
    {
        UseCases {}
    }
}

/// Builds the use cases on top of the services; this never fails.
pub fn build(_services: &Services) -> (r: Result<UseCases, anyhow::Error>)
    ensures
        r is Ok,
{
    Ok(UseCases {})
}

} // verus!
