//! Bearer extraction, claims verification, identity lookup and the owner guard.

pub mod lookup_user;
pub mod pipeline;
pub mod session_owner_guard;
pub mod verify_jwt;
