//! The error of the plain login route.

use crate::models::user::UserError;
use crate::status::UNAUTHORIZED;
use vstd::prelude::*;

verus! {

/// A failure answered by the plain login route.
#[derive(Debug, PartialEq, Eq, Structural, Clone, Copy)]
pub enum Error {
    /// The login failed. The cause is kept for the log and never sent out.
    LoginFail(UserError),
}

impl Error {
    /// The status sent to the client: the same for every cause.
    pub fn status(&self) -> (code: u16)
        ensures
            code == UNAUTHORIZED,
    {
        UNAUTHORIZED
    }

    /// The message sent to the client: the same for every cause.
    pub fn body(&self) -> (text: &'static str)
        ensures
            text@ == "Unable to login"@,
    {
        "Unable to login"
    }
}

} // verus!
