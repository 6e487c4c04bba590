//! Account, session and error-reporting logic of the marketplace backend:
//! request validation, bearer-token handling, the registration, login and
//! bearer-resolution flows as step functions, and the mapping of
//! authentication failures to API errors.
use vstd::prelude::*;

pub mod auth_util;
pub mod config;
pub mod error;
pub mod middleware;
pub mod models;
pub mod util;

verus! {

} // verus!
