//! Files, the app folder and documents in the remote drive.

pub mod action;
pub mod interface;
pub mod manager;
