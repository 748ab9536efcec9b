//! Credential verification and token lifecycle for a web service that
//! authenticates users with short-lived signed access tokens and long-lived,
//! rotating refresh secrets.
//!
//! The crate holds the decisions; the transport layer and the credential
//! store are collaborators that hand it plain values and act on its answers.

pub mod crypto;
pub mod db;
pub mod routes;
