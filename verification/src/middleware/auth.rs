//! The request guards, shared with the caller resolution.
pub use crate::auth_util::{AdminUser, AuthUser, OptionalAuth};
