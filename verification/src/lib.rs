//! Single-session client core for an OAuth2-protected document store: the
//! session store, the authorization-code flow, the app-folder provisioner and
//! the document synchronisation planner. Network calls are described as
//! [`api::Request`] values and their outcomes are handed back as
//! [`api::Reply`] values, so every decision in between is a verified function.

pub mod api;
pub mod google;
pub mod json;
pub mod settings;
pub mod state;
pub mod text;
