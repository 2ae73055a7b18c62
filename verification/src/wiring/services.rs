//! Domain services, which depend only on repository interfaces.

use vstd::prelude::*;

use super::repositories::Repositories;

verus! {

/// Domain services (none are defined yet).
#[derive(Debug)]
pub struct Services {}

impl Default for Services {
    fn default() -> (r: Self)
        ensures
            r == (Services {}),
    {
        Services {}
    }
}

/// Builds the domain services on top of the repositories; this never fails.
pub fn build(_repositories: &Repositories) -> (r: Result<Services, anyhow::Error>)
    ensures
        r is Ok,
{
    Ok(Services {})
}

} // verus!
