//! The HTTP statuses the authentication core answers with.

use vstd::prelude::*;

verus! {

/// The request lacks valid credentials, or is not entitled to the resource.
pub const UNAUTHORIZED: u16 = 401;

/// Something failed on the server's side.
pub const INTERNAL_SERVER_ERROR: u16 = 500;

} // verus!
