//! Token-based authentication for a small task service: issuing signed
//! identity tokens, checking bearer tokens, and deriving the claims on which
//! access is decided.

pub mod api;
pub mod claims;
pub mod clock;
pub mod decimal;
pub mod error;
pub mod gateway;
pub mod jwt;
pub mod model;
pub mod uuids;
