//! Password hashing, signed access tokens and refresh credentials.

pub mod config;
pub mod hash;
pub mod jwt;
pub mod create_refresh;
