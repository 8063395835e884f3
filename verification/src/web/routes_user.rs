//! The user routes: who may change a profile, and how failures are answered.

use crate::models::user::{UpdateUser, User, UserError};
use crate::status::{INTERNAL_SERVER_ERROR, UNAUTHORIZED};
use crate::text::same_text;
use vstd::prelude::*;

verus! {

/// Why a request on users failed.
#[derive(Debug, PartialEq, Eq, Structural, Clone, Copy)]
pub enum UserWebError {
    /// The caller is not the user of the path.
    Unauthorized,
    /// The store failed.
    DbError(UserError),
}

impl UserWebError {
    /// The status sent to the client.
    pub fn status(&self) -> (code: u16)
        ensures
            code == match *self {
                UserWebError::Unauthorized => UNAUTHORIZED,
                UserWebError::DbError(_) => INTERNAL_SERVER_ERROR,
            },
    {
        match self {
            UserWebError::Unauthorized => UNAUTHORIZED,
            UserWebError::DbError(_) => INTERNAL_SERVER_ERROR,
        }
    }

    /// The value of the `error` field sent to the client.
    pub fn body(&self) -> (text: &'static str)
        ensures
            text@ == match *self {
                UserWebError::Unauthorized => "Unauthorized"@,
                UserWebError::DbError(_) => "Data error"@,
            },
    {
        match self {
            UserWebError::Unauthorized => "Unauthorized",
            UserWebError::DbError(_) => "Data error",
        }
    }
}

/// Lets a profile update through exactly where the caller is the user that
/// the path names.
pub fn may_update_user(current_user: &User, target_user_id: &str) -> (r: Result<(), UserWebError>)
    ensures
        r == if current_user.id@ == target_user_id@ {
            Ok::<(), UserWebError>(())
        } else {
            Err::<(), UserWebError>(UserWebError::Unauthorized)
        },
{
    if same_text(current_user.id.as_str(), target_user_id) {
        Ok(())
    } else {
        Err(UserWebError::Unauthorized)
    }
}

/// Lets a change to a profile through exactly where the path, the caller
/// and the change itself all name one user, so that no caller can reach
/// another user's record through the body of the request.
pub fn may_apply_update(current_user: &User, target_user_id: &str, update: &UpdateUser) -> (r:
    Result<(), UserWebError>)
    ensures
        r == if current_user.id@ == target_user_id@ && update.id@ == current_user.id@ {
            Ok::<(), UserWebError>(())
        } else {
            Err::<(), UserWebError>(UserWebError::Unauthorized)
        },
{
    match may_update_user(current_user, target_user_id) {
        Ok(()) => if same_text(update.id.as_str(), current_user.id.as_str()) {
            Ok(())
        } else {
            Err(UserWebError::Unauthorized)
        },
        Err(e) => Err(e),
    }
}

} // verus!
