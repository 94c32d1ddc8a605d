//! Values that requests carry.

use vstd::prelude::*;

verus! {

/// What a login request carries.
#[derive(Debug, PartialEq, Eq)]
pub struct LoginRequests {
    pub username: String,
    pub password: String,
}

} // verus!
