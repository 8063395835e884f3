//! The session routes of a user: who may save a session where, and how
//! failures are answered.

use crate::auth::jwt::Claims;
use crate::models::scoring_type::ScoringTypeEnum;
use crate::models::session::SessionError;
use crate::status::{INTERNAL_SERVER_ERROR, UNAUTHORIZED};
use crate::text::same_text;
use vstd::prelude::*;

verus! {

/// What a client sends to search sessions.
#[derive(Debug, PartialEq, Eq, Structural, Clone, Copy)]
pub struct SessionSearchPayload {
    pub scoring_type: Option<ScoringTypeEnum>,
}

/// Why a request on sessions failed.
#[derive(Debug, PartialEq, Eq)]
pub enum SessionWebError {
    /// The caller, named first, tried to save a session to the user named
    /// second.
    Unauthorized(String, String),
    /// An identifier could not be read; the text says why.
    BsonError(String),
    /// The session store failed.
    UnexpectedError(SessionError),
}

impl SessionWebError {
    /// The status sent to the client.
    pub fn status(&self) -> (code: u16)
        ensures
            code == if *self is Unauthorized {
                UNAUTHORIZED
            } else {
                INTERNAL_SERVER_ERROR
            },
    {
        match self {
            SessionWebError::Unauthorized(_, _) => UNAUTHORIZED,
            SessionWebError::UnexpectedError(_) => INTERNAL_SERVER_ERROR,
            SessionWebError::BsonError(_) => INTERNAL_SERVER_ERROR,
        }
    }

    /// The value of the `error` field sent to the client. An unauthorized
    /// caller learns nothing more; the other failures carry their text.
    pub fn body(&self) -> (text: String)
        ensures
            text@ == match *self {
                SessionWebError::Unauthorized(_, _) => "Unauthorized"@,
                SessionWebError::UnexpectedError(e) => match e {
                    SessionError::InvalidScoringTypeString(found) =>
                        "Invalid scoring type string: "@ + found@,
                    SessionError::NoDbConnectionError => "No database connection"@,
                    SessionError::DieselError => "Error querying the database"@,
                },
                SessionWebError::BsonError(reason) => reason@,
            },
    {
        match self {
            SessionWebError::Unauthorized(_, _) => String::from_str("Unauthorized"),
            SessionWebError::UnexpectedError(e) => e.message(),
            SessionWebError::BsonError(reason) => reason.clone(),
        }
    }
}

/// Whether `r` rejects the caller `subject` for reaching at `target`.
pub open spec fn rejects(r: Result<(), SessionWebError>, subject: Seq<char>, target: Seq<char>) -> bool {
    r matches Err(SessionWebError::Unauthorized(s, t)) && s@ == subject && t@ == target
}

/// Lets a new session through exactly where the path, the token and the
/// session all name one owner; otherwise reports the caller and the owner
/// that the session names.
pub fn may_create_session(user_id: &str, claims: &Claims, owner: &str) -> (r: Result<
    (),
    SessionWebError,
>)
    ensures
        if user_id@ == owner@ && claims.id@ == owner@ {
            r is Ok
        } else {
            rejects(r, claims.id@, owner@)
        },
{
    if !same_text(user_id, owner) || !same_text(claims.id.as_str(), owner) {
        Err(SessionWebError::Unauthorized(claims.id.clone(), owner.to_owned()))
    } else {
        Ok(())
    }
}

/// Lets a session update through exactly where the path names the user of
/// the token; otherwise reports the caller and the user that the path names.
pub fn may_update_session(user_id: &str, claims: &Claims) -> (r: Result<(), SessionWebError>)
    ensures
        if user_id@ == claims.id@ {
            r is Ok
        } else {
            rejects(r, claims.id@, user_id@)
        },
{
    if !same_text(user_id, claims.id.as_str()) {
        Err(SessionWebError::Unauthorized(claims.id.clone(), user_id.to_owned()))
    } else {
        Ok(())
    }
}

} // verus!
