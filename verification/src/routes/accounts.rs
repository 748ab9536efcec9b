//! Account creation, sign-in and token refresh.

pub mod create_account;
pub mod refresh_token;
pub mod signin;
