//! Helpers shared by the account logic.
pub mod text;
pub mod types;
pub mod password;
pub mod uuid;
pub mod jwt;
