//! The account, listing and complaint records and the request bodies the
//! API accepts, with the conversions between account views.
use vstd::prelude::*;

verus! {

/// An account as stored in the `users` table.
#[derive(Clone, Debug, PartialEq, Eq)]
pub struct UserRow {
    pub id: String,
    pub email: String,
    pub display_name: String,
    pub password_hash: String,
    pub is_active: bool,
    pub is_admin: bool,
    pub created_at: String,
    pub updated_at: String,
}

/// The part of an account that may be shown to clients: no password hash,
/// no activity flag, no timestamps.
#[derive(Clone, Debug, PartialEq, Eq)]
pub struct PublicUser {
    pub id: String,
    pub email: String,
    pub display_name: String,
    pub is_admin: bool,
}

/// The answer to a successful registration or login.
#[derive(Clone, Debug, PartialEq, Eq)]
pub struct AuthResponse {
    pub token: String,
    pub user: PublicUser,
    pub expires_at: i64,
}

/// A listing together with the display name of its seller.
#[derive(Clone, Debug, PartialEq, Eq)]
pub struct AdWithSeller {
    pub id: String,
    pub seller_id: String,
    pub seller_display_name: String,
    pub title: String,
    pub description: String,
    pub price: i64,
    pub category: String,
    pub location: String,
    pub image_url: Option<String>,
    pub created_at: String,
    pub updated_at: String,
}

/// A complaint about a listing.
#[derive(Clone, Debug, PartialEq, Eq)]
pub struct ComplaintRow {
    pub id: String,
    pub reporter_id: String,
    pub ad_id: Option<String>,
    pub reason: String,
    pub details: Option<String>,
    pub status: String,
    pub resolved_by: Option<String>,
    pub resolved_at: Option<String>,
    pub created_at: String,
}

/// Body of a registration request.
#[derive(Clone, Debug, PartialEq, Eq)]
pub struct RegisterRequest {
    pub name: String,
    pub email: String,
    pub password: String,
}

/// Body of a login request.
#[derive(Clone, Debug, PartialEq, Eq)]
pub struct LoginRequest {
    pub email: String,
    pub password: String,
}

/// Body of a request that creates a listing.
#[derive(Clone, Debug, PartialEq, Eq)]
pub struct CreateAdRequest {
    pub title: String,
    pub description: String,
    pub price: i64,
    pub category: String,
    pub location: String,
    pub image_url: Option<String>,
}

/// Body of a request that changes a listing; absent fields stay as they are.
#[derive(Clone, Debug, PartialEq, Eq, Default)]
pub struct UpdateAdRequest {
    pub title: Option<String>,
    pub description: Option<String>,
    pub price: Option<i64>,
    pub category: Option<String>,
    pub location: Option<String>,
    pub image_url: Option<String>,
}

/// Body of a request that changes an account.
#[derive(Clone, Debug, PartialEq, Eq)]
pub struct UpdateUserRequest {
    pub display_name: Option<String>,
    pub email: Option<String>,
    pub password: Option<String>,
    pub current_password: Option<String>,
}

/// Body of a request that files a complaint.
#[derive(Clone, Debug, PartialEq, Eq)]
pub struct CreateComplaintRequest {
    pub ad_id: String,
    pub reason: String,
    pub details: Option<String>,
}

/// Body of a request that changes a complaint's status.
#[derive(Clone, Debug, PartialEq, Eq)]
pub struct UpdateComplaintRequest {
    pub status: String,
}

/// The account made of the columns of a `users` row, the two flags stored
/// as integers where any non-zero value means set.
pub fn user_from_sql(
    id: String,
    email: String,
    display_name: String,
    password_hash: String,
    is_active: i32,
    is_admin: i32,
    created_at: String,
    updated_at: String,
) -> (u: UserRow)
    ensures
        u.id == id,
        u.email == email,
        u.display_name == display_name,
        u.password_hash == password_hash,
        u.is_active == (is_active != 0),
        u.is_admin == (is_admin != 0),
        u.created_at == created_at,
        u.updated_at == updated_at,
{
    UserRow {
        id,
        email,
        display_name,
        password_hash,
        is_active: is_active != 0,
        is_admin: is_admin != 0,
        created_at,
        updated_at,
    }
}

/// The public view of an account, in the abstract.
pub open spec fn public_view(u: UserRow) -> PublicUser {
    PublicUser { id: u.id, email: u.email, display_name: u.display_name, is_admin: u.is_admin }
}

/// The public view of an account: its id, e-mail, display name and admin flag.
pub fn to_public_user(u: &UserRow) -> (p: PublicUser)
    ensures
        p == public_view(*u),
{
    PublicUser {
        id: u.id.clone(),
        email: u.email.clone(),
        display_name: u.display_name.clone(),
        is_admin: u.is_admin,
    }
}

/// Whether the account is an administrator that is still active.
pub fn is_admin_active(u: &UserRow) -> (r: bool)
    ensures
        r == (u.is_admin && u.is_active),
{
    u.is_admin && u.is_active
}

} // verus!
