//! Admin identity records and the request and response shapes around them.
//! Times are milliseconds since the Unix epoch.

use vstd::prelude::*;
use crate::ids::{DocumentId, hex_text};

verus! {

/// Role of an admin account.
#[derive(Clone, Copy, Debug, PartialEq, Eq, Structural)]
pub enum AdminRole {
    SuperAdmin,
    Admin,
    Moderator,
}

/// Lower-case name of each role, as stored and reported.
pub open spec fn role_name(r: AdminRole) -> Seq<char> {
    match r {
        AdminRole::SuperAdmin => "superadmin"@,
        AdminRole::Admin => "admin"@,
        AdminRole::Moderator => "moderator"@,
    }
}

impl Default for AdminRole {
    fn default() -> (r: AdminRole)
        ensures
            r == AdminRole::Admin,
    {
        AdminRole::Admin
    }
}

impl AdminRole {
    /// Lower-case name of the role.
    pub fn as_str(&self) -> (r: &'static str)
        ensures
            r@ == role_name(*self),
    {
        match self {
            AdminRole::SuperAdmin => "superadmin",
            AdminRole::Admin => "admin",
            AdminRole::Moderator => "moderator",
        }
    }
}

/// A stored admin account.
#[derive(Debug)]
pub struct AdminUser {
    pub id: DocumentId,
    pub email: String,
    pub password_hash: String,
    pub name: String,
    pub role: AdminRole,
    pub is_active: bool,
    pub last_login_at: Option<i64>,
    pub created_at: i64,
    pub updated_at: i64,
}

#[derive(Debug)]
pub struct AdminRegisterDto {
    pub email: String,
    pub password: String,
    pub name: String,
}

#[derive(Debug)]
pub struct AdminLoginDto {
    pub email: String,
    pub password: String,
}

#[derive(Debug)]
pub struct AdminRefreshTokenDto {
    pub refresh_token: String,
}

/// Public view of an admin account.
#[derive(Debug)]
pub struct AdminUserResponse {
    pub id: String,
    pub email: String,
    pub name: String,
    pub role: String,
}

/// Tokens issued to an admin, with the account they belong to.
#[derive(Debug)]
pub struct AdminAuthResponse {
    pub access_token: String,
    pub refresh_token: String,
    pub user: AdminUserResponse,
}

/// `resp` describes `admin`: hex identifier, address, name and role name.
pub open spec fn describes(resp: AdminUserResponse, admin: AdminUser) -> bool {
    &&& resp.id@ == hex_text(admin.id@)
    &&& resp.email@ == admin.email@
    &&& resp.name@ == admin.name@
    &&& resp.role@ == role_name(admin.role)
}

impl AdminUserResponse {
    /// The public view of `admin`.
    pub fn from_admin(admin: &AdminUser) -> (r: AdminUserResponse)
        ensures
            describes(r, *admin),
    {
        AdminUserResponse {
            id: admin.id.to_hex(),
            email: admin.email.clone(),
            name: admin.name.clone(),
            role: admin.role.as_str().to_string(),
        }
    }
}

} // verus!
