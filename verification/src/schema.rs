//! Names of the database schema.

use vstd::prelude::*;

verus! {

/// The database's own type for a session's scoring.
#[derive(Debug, PartialEq, Eq, Structural, Clone, Copy)]
pub struct ScoringType;

impl ScoringType {
    /// The name of the type in the database.
    pub fn name(&self) -> (text: &'static str)
        ensures
            text@ == "scoring_type"@,
    {
        "scoring_type"
    }
}

} // verus!
