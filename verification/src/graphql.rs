//! The operations offered over GraphQL.

pub mod user;
