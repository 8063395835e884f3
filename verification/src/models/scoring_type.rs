//! How a session is scored.

use crate::models::session::SessionError;
use crate::text::{from_utf8_lossy, lossy_text};
use vstd::prelude::*;

verus! {

/// The scoring of a session: international match points or match points.
#[derive(Debug, PartialEq, Eq, Structural, Clone, Copy)]
pub enum ScoringTypeEnum {
    IMP,
    MP,
}

/// The bytes under which a scoring type is stored.
pub open spec fn stored_as(scoring: ScoringTypeEnum) -> Seq<u8> {
    match scoring {
        ScoringTypeEnum::IMP => seq![73u8, 77u8, 80u8],
        ScoringTypeEnum::MP => seq![77u8, 80u8],
    }
}

/// The scoring type that stored bytes stand for.
pub open spec fn scoring_of(bytes: Seq<u8>) -> Option<ScoringTypeEnum> {
    if bytes == stored_as(ScoringTypeEnum::IMP) {
        Some(ScoringTypeEnum::IMP)
    } else if bytes == stored_as(ScoringTypeEnum::MP) {
        Some(ScoringTypeEnum::MP)
    } else {
        None
    }
}

impl ScoringTypeEnum {
    /// The name shown to callers.
    pub fn label(&self) -> (name: &'static str)
        ensures
            name@ == match *self {
                ScoringTypeEnum::IMP => "IMP"@,
                ScoringTypeEnum::MP => "MP"@,
            },
    {
        match self {
            ScoringTypeEnum::IMP => "IMP",
            ScoringTypeEnum::MP => "MP",
        }
    }

    /// The bytes under which the scoring type is stored: its name in ASCII.
    pub fn to_sql(&self) -> (bytes: Vec<u8>)
        ensures
            bytes@ == stored_as(*self),
    {
        let mut bytes: Vec<u8> = Vec::new();
        match self {
            ScoringTypeEnum::IMP => {
                bytes.push(73u8);
                bytes.push(77u8);
                bytes.push(80u8);
            },
            ScoringTypeEnum::MP => {
                bytes.push(77u8);
                bytes.push(80u8);
            },
        }
        assert(bytes@ =~= stored_as(*self));
        bytes
    }

    /// Reads a scoring type from stored bytes. Bytes that stand for none
    /// come back, as text, in the error.
    pub fn from_sql(bytes: &[u8]) -> (r: Result<ScoringTypeEnum, SessionError>)
        ensures
            match scoring_of(bytes@) {
                Some(scoring) => r == Ok::<ScoringTypeEnum, SessionError>(scoring),
                None => r matches Err(SessionError::InvalidScoringTypeString(found)) && found@
                    == lossy_text(bytes@),
            },
    {
        if bytes.len() == 3 && bytes[0] == 73u8 && bytes[1] == 77u8 && bytes[2] == 80u8 {
            assert(bytes@ =~= stored_as(ScoringTypeEnum::IMP));
            Ok(ScoringTypeEnum::IMP)
        } else if bytes.len() == 2 && bytes[0] == 77u8 && bytes[1] == 80u8 {
            assert(bytes@ =~= stored_as(ScoringTypeEnum::MP));
            Ok(ScoringTypeEnum::MP)
        } else {
            Err(SessionError::InvalidScoringTypeString(from_utf8_lossy(bytes)))
        }
    }
}

/// Storing and reading back gives the scoring type again.
pub proof fn stored_scoring_reads_back(scoring: ScoringTypeEnum)
    ensures
        scoring_of(stored_as(scoring)) == Some(scoring),
{
    assert(stored_as(ScoringTypeEnum::IMP).len() == 3);
    assert(stored_as(ScoringTypeEnum::MP).len() == 2);
}

} // verus!
