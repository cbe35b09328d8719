//! The provider-facing parts: the authorization flow and the drive.

pub mod auth;
pub mod drive;
