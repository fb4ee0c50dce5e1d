//! The operations of the service.

pub mod auth;
pub mod guarantees;
pub mod todo;
