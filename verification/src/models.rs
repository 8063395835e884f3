//! The records the authentication core works on.

pub mod scoring_type;
pub mod session;
pub mod user;
