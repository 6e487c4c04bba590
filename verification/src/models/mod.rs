//! The account flows.
pub mod auth;
