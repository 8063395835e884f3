//! Values fixed when the application starts.

use vstd::prelude::*;

verus! {

/// The address under which the application is reachable from outside.
#[derive(Debug, PartialEq, Eq)]
pub struct ApplicationBaseUrl(pub String);

} // verus!
