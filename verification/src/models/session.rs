//! Errors of the session records.

use vstd::prelude::*;

verus! {

/// Why an operation on sessions failed.
#[derive(Debug, PartialEq, Eq)]
pub enum SessionError {
    /// A stored scoring type is none of the known ones.
    InvalidScoringTypeString(String),
    /// The store could not be reached.
    NoDbConnectionError,
    /// A query failed.
    DieselError,
}

impl SessionError {
    /// The text of the error.
    pub fn message(&self) -> (text: String)
        ensures
            text@ == match *self {
                SessionError::InvalidScoringTypeString(found) => "Invalid scoring type string: "@
                    + found@,
                SessionError::NoDbConnectionError => "No database connection"@,
                SessionError::DieselError => "Error querying the database"@,
            },
    {
        match self {
            SessionError::InvalidScoringTypeString(found) => String::from_str(
                "Invalid scoring type string: ",
            ).concat(found.as_str()),
            SessionError::NoDbConnectionError => String::from_str("No database connection"),
            SessionError::DieselError => String::from_str("Error querying the database"),
        }
    }
}

} // verus!
