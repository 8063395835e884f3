//! The decisions the routes make before they touch any data.

pub mod routes_user;
pub mod routes_user_session;
