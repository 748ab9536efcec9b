//! The protocol entry points: what each step of account creation, sign-in and
//! refresh decides, given what the store and the client handed over.

pub mod accounts;
pub mod guard;
pub mod outcome;
