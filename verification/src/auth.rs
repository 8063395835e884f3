//! Credentials, tokens and the login and logout flows.

pub mod jwt;
pub mod login;
pub mod logout;
pub mod password;
pub mod salt;
