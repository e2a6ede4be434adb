//! The middleware that runs before every route.

use vstd::prelude::*;

use crate::request::Rejection;

verus! {

/// Middleware that extracts authentication data from a request. No scheme of
/// authentication is configured, so it extracts nothing and lets every
/// request through.
#[derive(Clone, Copy, Debug)]
pub struct ExtractAuthData;

impl ExtractAuthData {
    /// Runs before the route's handler: lets the request through unchanged.
    pub fn before(&self) -> (r: Result<(), Rejection>)
        ensures
            r is Ok,
    {
        Ok(())
    }
}

} // verus!
