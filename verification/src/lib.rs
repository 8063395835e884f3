//! Authentication core of a web backend: password checks, signed identity
//! tokens, and the chain of request guards that turns a bearer token into an
//! authorised user.

pub mod auth;
pub mod clock;
pub mod configuration;
pub mod error;
pub mod graphql;
pub mod middlewares;
pub mod models;
pub mod schema;
pub mod startup;
pub mod status;
pub mod text;
pub mod web;
