//! Who is calling: the signed-in account, an administrator, or possibly
//! nobody.
use vstd::prelude::*;
use crate::models::auth::{AuthError, BearerStep, bearer_opening, bearer_start, header_blank, opens_with};
use crate::util::jwt::header_view;
use crate::util::text::trim_str;
use crate::util::types::{UserRow, is_admin_active};

verus! {

/// A request made by a signed-in account.
#[derive(Debug, Clone, PartialEq, Eq)]
pub struct AuthUser(pub UserRow);

/// A request made by an active administrator.
#[derive(Debug, Clone, PartialEq, Eq)]
pub struct AdminUser(pub UserRow);

/// A request that may or may not carry a signed-in account.
#[derive(Debug, Clone, PartialEq, Eq)]
pub struct OptionalAuth(pub Option<UserRow>);

/// What admin-only operations make of the resolved caller: only an account
/// that is both admin and active passes; other accounts are forbidden and a
/// failed resolution is passed on.
pub open spec fn admin_outcome(resolved: Result<UserRow, AuthError>) -> Result<UserRow, AuthError> {
    match resolved {
        Err(e) => Err(e),
        Ok(user) => if user.is_admin && user.is_active {
            Ok(user)
        } else {
            Err(AuthError::Forbidden)
        },
    }
}

/// The caller of an admin-only operation, given the resolution of its bearer
/// token.
pub fn require_admin(resolved: Result<UserRow, AuthError>) -> (r: Result<UserRow, AuthError>)
    ensures
        r == admin_outcome(resolved),
        r matches Ok(u) ==> u.is_admin && u.is_active,
{
    let user = match resolved {
        Err(e) => return Err(e),
        Ok(user) => user,
    };
    if !is_admin_active(&user) {
        return Err(AuthError::Forbidden);
    }
    Ok(user)
}

/// Where optional authentication starts: with no (or a blank) header the
/// caller is anonymous (`None`); otherwise the header is resolved as for a
/// signed-in caller.
pub fn optional_user(auth_header: Option<&str>) -> (r: Option<BearerStep>)
    ensures
        r is None <==> header_blank(header_view(auth_header)),
        r matches Some(step) ==> opens_with(step, bearer_opening(header_view(auth_header))),
        r matches Some(step) ==> step != BearerStep::Done(Err(AuthError::MissingToken)),
{
    let blank = match auth_header {
        None => true,
        Some(h) => trim_str(h).is_empty(),
    };
    if blank {
        return None;
    }
    Some(bearer_start(auth_header))
}

} // verus!
