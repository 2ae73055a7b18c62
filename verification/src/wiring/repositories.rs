//! Concrete repositories bound to the connection pools.

use vstd::prelude::*;

verus! {

/// Concrete repository implementations (none are bound yet).
#[derive(Debug)]
pub struct Repositories {}

impl Default for Repositories {
    fn default() -> (r: Self) {
        Repositories {}
    }
}

} // verus!
