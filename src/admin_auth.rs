//! Admin registration, login, token refresh and profile lookup. The account
//! store is consulted by the caller; these functions decide on what it found.

use vstd::prelude::*;
use crate::credentials::{bcrypt_verdict, hash_password, is_bcrypt_hash, verify_password};
use crate::errors::{fails_with, ApiError, ErrorKind};
use crate::guard::authenticated;
use crate::ids::{hex_text, id_bytes_of, is_id_text, lemma_hex_round_trip, DocumentId};
use crate::models::{
    describes, AdminAuthResponse, AdminLoginDto, AdminRefreshTokenDto, AdminRegisterDto, AdminRole,
    AdminUser, AdminUserResponse,
};
use crate::text::{byte_len, has_char, lower_of, lowercase, trim, trim_of};
use crate::tokens::{
    admin_payload, admin_verdict, decoded_payload, fits_i64, lemma_issued_admin_token_verifies, signed_token, JwtService,
};

verus! {

/// Why a registration form is refused, if it is: the address must hold `@`
/// and be at least five bytes long, the password at least six bytes, and the
/// name more than white space.
pub open spec fn registration_error(email: Seq<char>, password: Seq<char>, name: Seq<char>) -> Option<Seq<char>> {
    if !email.contains('@') || byte_len(email) < 5 {
        Some("Invalid email format"@)
    } else if byte_len(password) < 6 {
        Some("Password must be at least 6 characters"@)
    } else if trim_of(name).len() == 0 {
        Some("Name is required"@)
    } else {
        None
    }
}

/// Checks a registration form.
pub fn validate_registration(dto: &AdminRegisterDto) -> (r: Result<(), ApiError>)
    ensures
        r is Ok <==> registration_error(dto.email@, dto.password@, dto.name@) is None,
        r matches Err(e) ==> e.kind == ErrorKind::BadRequest
            && registration_error(dto.email@, dto.password@, dto.name@) == Some(e.message@),
{
    if !has_char(dto.email.as_str(), '@') || dto.email.as_str().as_bytes().len() < 5 {
        return Err(ApiError::bad_request("Invalid email format"));
    }
    if dto.password.as_str().as_bytes().len() < 6 {
        return Err(ApiError::bad_request("Password must be at least 6 characters"));
    }
    if trim(dto.name.as_str()).is_empty() {
        return Err(ApiError::bad_request("Name is required"));
    }
    Ok(())
}

/// Key under which an account's address is stored and looked up.
pub fn normalize_email(email: &str) -> (r: String)
    ensures
        r@ == lower_of(email@),
{
    lowercase(email)
}

/// `u` is the account that a registration form makes with the identifier
/// `id`, the password hash `password_hash` and the time `now`.
pub open spec fn registered_account(u: AdminUser, dto: AdminRegisterDto, id: Seq<u8>, password_hash: Seq<char>, now: i64) -> bool {
    &&& u.id@ == id
    &&& u.email@ == lower_of(dto.email@)
    &&& u.password_hash@ == password_hash
    &&& u.name@ == trim_of(dto.name@)
    &&& u.role == AdminRole::Admin
    &&& u.is_active
    &&& u.last_login_at == Some(now)
    &&& u.created_at == now
    &&& u.updated_at == now
}

/// The account of a registration form, once its password is hashed: the
/// address lower-cased, the name trimmed, an active admin, created, updated
/// and last logged in at `now` (milliseconds).
pub fn new_admin_user(dto: &AdminRegisterDto, id: DocumentId, now: i64, password_hash: String) -> (r: AdminUser)
    ensures
        registered_account(r, *dto, id@, password_hash@, now),
{
    let name = trim(dto.name.as_str()).to_string();
    AdminUser {
        id,
        email: lowercase(dto.email.as_str()),
        password_hash,
        name,
        role: AdminRole::Admin,
        is_active: true,
        last_login_at: Some(now),
        created_at: now,
        updated_at: now,
    }
}

/// Builds the account for a registration form: the form is checked, an
/// address already taken is refused, and the password is hashed at `cost`.
/// The account gets the identifier `id` and the time `now` (milliseconds).
pub fn admin_register(dto: &AdminRegisterDto, email_taken: bool, id: DocumentId, now: i64, cost: u32) -> (r: Result<AdminUser, ApiError>)
    ensures
        registration_error(dto.email@, dto.password@, dto.name@) matches Some(m)
            ==> fails_with(r, ErrorKind::BadRequest, m),
        registration_error(dto.email@, dto.password@, dto.name@) is None && email_taken
            ==> fails_with(r, ErrorKind::BadRequest, "Email already registered"@),
        registration_error(dto.email@, dto.password@, dto.name@) is None && !email_taken
            ==> (r is Err ==> fails_with(r, ErrorKind::InternalError, "Password hashing error"@)),
        registration_error(dto.email@, dto.password@, dto.name@) is None && !email_taken
            && (cost < 4 || cost > 31) ==> r is Err,
        r matches Ok(u) ==> {
            &&& registered_account(u, *dto, id@, u.password_hash@, now)
            &&& is_bcrypt_hash(u.password_hash@)
            &&& bcrypt_verdict(dto.password@, u.password_hash@) == Some(true)
        },
{
    match validate_registration(dto) {
        Ok(()) => {},
        Err(e) => {
            return Err(e);
        },
    }
    if email_taken {
        return Err(ApiError::bad_request("Email already registered"));
    }
    let password_hash = match hash_password(dto.password.as_str(), cost) {
        Ok(h) => h,
        Err(_) => {
            return Err(ApiError::internal_error("Password hashing error"));
        },
    };
    Ok(new_admin_user(dto, id, now, password_hash))
}

/// `resp` holds an access and a refresh token for `admin`, both issued at
/// `now` (seconds), and describes the account.
pub open spec fn issued_for(jwt: JwtService, admin: AdminUser, now: i64, resp: AdminAuthResponse) -> bool {
    &&& resp.access_token@ == signed_token(
        admin_payload(hex_text(admin.id@), admin.email@, now, (now + jwt.access_ttl) as i64),
        jwt.access_secret@,
    )
    &&& resp.refresh_token@ == signed_token(
        admin_payload(hex_text(admin.id@), admin.email@, now, (now + jwt.refresh_ttl) as i64),
        jwt.refresh_secret@,
    )
    &&& describes(resp.user, admin)
    &&& now + jwt.access_ttl >= 0 ==> decoded_payload(resp.access_token@, jwt.access_secret@) == Some(
        admin_payload(hex_text(admin.id@), admin.email@, now, (now + jwt.access_ttl) as i64),
    )
    &&& now + jwt.refresh_ttl >= 0 ==> decoded_payload(resp.refresh_token@, jwt.refresh_secret@) == Some(
        admin_payload(hex_text(admin.id@), admin.email@, now, (now + jwt.refresh_ttl) as i64),
    )
}

/// Both token lifetimes can be added to `now`.
pub open spec fn lifetimes_fit(jwt: JwtService, now: i64) -> bool {
    fits_i64(now, jwt.access_ttl) && fits_i64(now, jwt.refresh_ttl)
}

/// Issues the token pair for `admin` at `now` (seconds).
pub fn issue_auth_response(jwt: &JwtService, admin: &AdminUser, now: i64) -> (r: Result<AdminAuthResponse, ApiError>)
    ensures
        lifetimes_fit(*jwt, now) ==> (r matches Ok(resp) && issued_for(*jwt, *admin, now, resp)),
        !lifetimes_fit(*jwt, now) ==> fails_with(r, ErrorKind::InternalError, "Token generation error"@),
{
    let access_token = match jwt.admin_token_at(&admin.id, admin.email.as_str(), false, now) {
        Ok(t) => t,
        Err(_) => {
            return Err(ApiError::internal_error("Token generation error"));
        },
    };
    let refresh_token = match jwt.admin_token_at(&admin.id, admin.email.as_str(), true, now) {
        Ok(t) => t,
        Err(_) => {
            return Err(ApiError::internal_error("Token generation error"));
        },
    };
    Ok(AdminAuthResponse { access_token, refresh_token, user: AdminUserResponse::from_admin(admin) })
}

/// Decides a login on the account stored under the form's address (`None`:
/// no such account), issuing tokens at `now` (seconds).
pub fn admin_login(jwt: &JwtService, dto: &AdminLoginDto, stored: Option<AdminUser>, now: i64) -> (r: Result<AdminAuthResponse, ApiError>)
    ensures
        stored is None ==> fails_with(r, ErrorKind::Unauthorized, "Invalid email or password"@),
        stored matches Some(u) ==> {
            &&& !u.is_active ==> fails_with(r, ErrorKind::Unauthorized, "Account is deactivated"@)
            &&& u.is_active && bcrypt_verdict(dto.password@, u.password_hash@) is None
                ==> fails_with(r, ErrorKind::InternalError, "Password verification error"@)
            &&& u.is_active && bcrypt_verdict(dto.password@, u.password_hash@) == Some(false)
                ==> fails_with(r, ErrorKind::Unauthorized, "Invalid email or password"@)
            &&& u.is_active && bcrypt_verdict(dto.password@, u.password_hash@) == Some(true)
                ==> if lifetimes_fit(*jwt, now) {
                r matches Ok(resp) && issued_for(*jwt, u, now, resp)
            } else {
                fails_with(r, ErrorKind::InternalError, "Token generation error"@)
            }
            &&& r matches Ok(resp) ==> issued_for(*jwt, u, now, resp)
                && u.is_active && bcrypt_verdict(dto.password@, u.password_hash@) == Some(true)
        },
{
    let admin = match stored {
        Some(a) => a,
        None => {
            return Err(ApiError::unauthorized("Invalid email or password"));
        },
    };
    if !admin.is_active {
        return Err(ApiError::unauthorized("Account is deactivated"));
    }
    let is_valid = match verify_password(dto.password.as_str(), admin.password_hash.as_str()) {
        Ok(b) => b,
        Err(_) => {
            return Err(ApiError::internal_error("Password verification error"));
        },
    };
    if !is_valid {
        return Err(ApiError::unauthorized("Invalid email or password"));
    }
    issue_auth_response(jwt, &admin, now)
}

/// Reads the account identifier out of a refresh token checked at `now`
/// (seconds).
pub fn refresh_subject(jwt: &JwtService, dto: &AdminRefreshTokenDto, now: i64) -> (r: Result<DocumentId, ApiError>)
    ensures
        admin_verdict(decoded_payload(dto.refresh_token@, jwt.refresh_secret@), now) is Err
            ==> fails_with(r, ErrorKind::Unauthorized, "Invalid or expired refresh token"@),
        admin_verdict(decoded_payload(dto.refresh_token@, jwt.refresh_secret@), now) matches Ok(c)
            ==> if is_id_text(c.sub) {
                r matches Ok(id) && id@ == id_bytes_of(c.sub)
            } else {
                fails_with(r, ErrorKind::Unauthorized, "Invalid token"@)
            },
{
    let claims = match jwt.verify_admin_token_at(dto.refresh_token.as_str(), true, now) {
        Ok(c) => c,
        Err(_) => {
            return Err(ApiError::unauthorized("Invalid or expired refresh token"));
        },
    };
    match DocumentId::parse_str(claims.sub.as_str()) {
        Some(id) => Ok(id),
        None => Err(ApiError::unauthorized("Invalid token")),
    }
}

/// Decides a refresh on the account found under the token's subject,
/// issuing a new pair at `now` (seconds).
pub fn admin_refresh_token(jwt: &JwtService, stored: Option<AdminUser>, now: i64) -> (r: Result<AdminAuthResponse, ApiError>)
    ensures
        stored is None ==> fails_with(r, ErrorKind::Unauthorized, "Admin not found"@),
        stored matches Some(u) ==> {
            &&& !u.is_active ==> fails_with(r, ErrorKind::Unauthorized, "Account is deactivated"@)
            &&& u.is_active ==> if lifetimes_fit(*jwt, now) {
                r matches Ok(resp) && issued_for(*jwt, u, now, resp)
            } else {
                fails_with(r, ErrorKind::InternalError, "Token generation error"@)
            }
            &&& r matches Ok(resp) ==> u.is_active && issued_for(*jwt, u, now, resp)
        },
{
    let admin = match stored {
        Some(a) => a,
        None => {
            return Err(ApiError::unauthorized("Admin not found"));
        },
    };
    if !admin.is_active {
        return Err(ApiError::unauthorized("Account is deactivated"));
    }
    issue_auth_response(jwt, &admin, now)
}

/// The public view of the authenticated admin's account.
pub fn admin_me(stored: Option<AdminUser>) -> (r: Result<AdminUserResponse, ApiError>)
    ensures
        stored is None ==> fails_with(r, ErrorKind::NotFound, "Admin not found"@),
        stored matches Some(u) ==> r matches Ok(resp) && describes(resp, u),
{
    match stored {
        Some(admin) => Ok(AdminUserResponse::from_admin(&admin)),
        None => Err(ApiError::not_found("Admin not found")),
    }
}

/// The access token of a pair issued to `admin` authenticates that admin:
/// presented as a bearer header at any time before it expires, it yields
/// the admin's identifier and address.
pub proof fn lemma_issued_access_token_authenticates(
    jwt: JwtService,
    admin: AdminUser,
    now: i64,
    later: i64,
    resp: AdminAuthResponse,
)
    requires
        issued_for(jwt, admin, now, resp),
        admin.id@.len() == 12,
        fits_i64(now, jwt.access_ttl),
        now + jwt.access_ttl >= 0,
        later < now + jwt.access_ttl,
    ensures
        authenticated(jwt, Some(seq!['B', 'e', 'a', 'r', 'e', 'r', ' '] + resp.access_token@), later) == Some(
            (admin.id@, admin.email@),
        ),
{
    let prefix = seq!['B', 'e', 'a', 'r', 'e', 'r', ' '];
    let h = prefix + resp.access_token@;
    assert(h.subrange(0, 7) =~= prefix);
    assert(h.subrange(7, h.len() as int) =~= resp.access_token@);
    let exp = (now + jwt.access_ttl) as i64;
    lemma_issued_admin_token_verifies(
        resp.access_token@,
        jwt.access_secret@,
        hex_text(admin.id@),
        admin.email@,
        now,
        exp,
        later,
    );
    lemma_hex_round_trip(admin.id@);
}

} // verus!
