//! The owner guard: a user reaches only the resources under their own id.

use crate::models::user::User;
use crate::text::same_text;
use vstd::prelude::*;

verus! {

/// The body with which the guard turns a request away.
pub fn unauthorized() -> (text: &'static str)
    ensures
        text@ == "Unauthorized"@,
{
    "Unauthorized"
}

/// An attempt to reach another user's resources, for the audit log.
#[derive(Debug, PartialEq, Eq)]
pub struct CrossUserAccess {
    /// The id of the authenticated user.
    pub subject: String,
    /// The owner id that the path named.
    pub target: String,
}

/// Lets a request through exactly where the authenticated user's id is the
/// owner id of the path; otherwise reports who tried to reach whom.
pub fn session_owner_guard(user: &User, user_id: &str) -> (r: Result<(), CrossUserAccess>)
    ensures
        r is Ok <==> user.id@ == user_id@,
        r is Err ==> r->Err_0.subject@ == user.id@ && r->Err_0.target@ == user_id@,
{
    if same_text(user.id.as_str(), user_id) {
        Ok(())
    } else {
        Err(CrossUserAccess { subject: user.id.clone(), target: user_id.to_owned() })
    }
}

} // verus!
