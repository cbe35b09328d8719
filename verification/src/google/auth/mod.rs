//! The authorization-code flow against the provider.

pub mod credentials;
pub mod login;
