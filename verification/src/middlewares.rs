//! The guards a request passes before it reaches a protected handler.

pub mod auth;
