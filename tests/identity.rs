use backend::admin_auth::{issue_auth_response, new_admin_user, admin_login, admin_me, admin_refresh_token, normalize_email, refresh_subject, admin_register, validate_registration};
use backend::credentials::{hash_password, verify_password, CredentialError};
use backend::errors::ErrorKind;
use backend::guard::AdminGuard;
use backend::ids::DocumentId;
use backend::models::{AdminLoginDto, AdminRefreshTokenDto, AdminRegisterDto, AdminRole};
use backend::tokens::{check_admin_payload, JwtService, TokenError, TokenPayload};

const NOW: i64 = 1_700_000_000;

fn service() -> JwtService {
    JwtService::new("access-secret".to_string(), "refresh-secret".to_string(), 900, 604_800)
}

fn id(n: u8) -> DocumentId {
    DocumentId::from_bytes([n; 12])
}

fn register_dto(email: &str, password: &str, name: &str) -> AdminRegisterDto {
    AdminRegisterDto { email: email.to_string(), password: password.to_string(), name: name.to_string() }
}

#[test]
fn stored_hash_differs_and_verifies() {
    let hash = hash_password("secret1", 4).unwrap();
    assert_ne!(hash, "secret1");
    assert_eq!(hash.len(), 60);
    assert!(hash.starts_with("$2b$04$"));
    assert_eq!(verify_password("secret1", &hash), Ok(true));
    assert_eq!(verify_password("secret2", &hash), Ok(false));
    assert_eq!(verify_password("", &hash), Ok(false));
}

#[test]
fn hashing_refuses_bad_cost_and_verification_bad_hash() {
    assert_eq!(hash_password("secret1", 3), Err(CredentialError::HashingError));
    assert_eq!(hash_password("secret1", 32), Err(CredentialError::HashingError));
    assert_eq!(verify_password("secret1", "not-a-hash"), Err(CredentialError::VerificationError));
}

#[test]
fn access_token_fails_under_refresh_secret_and_back() {
    let jwt = service();
    let access = jwt.admin_token_at(&id(1), "a@x.com", false, NOW).unwrap();
    let refresh = jwt.admin_token_at(&id(1), "a@x.com", true, NOW).unwrap();
    assert_eq!(jwt.verify_admin_token_at(&access, true, NOW + 1).unwrap_err(), TokenError::InvalidToken);
    assert_eq!(jwt.verify_admin_token_at(&refresh, false, NOW + 1).unwrap_err(), TokenError::InvalidToken);
    let claims = jwt.verify_admin_token_at(&access, false, NOW + 1).unwrap();
    assert_eq!(claims.sub, "010101010101010101010101");
    assert_eq!(claims.email, "a@x.com");
    assert!(claims.is_admin);
    assert_eq!(claims.iat, NOW);
    assert_eq!(claims.exp, NOW + 900);
    let claims = jwt.verify_admin_token_at(&refresh, true, NOW + 1).unwrap();
    assert_eq!(claims.exp, NOW + 604_800);
}

#[test]
fn expired_token_is_an_expiry_error() {
    let jwt = service();
    let access = jwt.admin_token_at(&id(2), "a@x.com", false, NOW).unwrap();
    assert_eq!(jwt.verify_admin_token_at(&access, false, NOW + 900).unwrap_err(), TokenError::ExpiredToken);
    assert_eq!(jwt.verify_admin_token_at(&access, false, NOW + 5000).unwrap_err(), TokenError::ExpiredToken);
    assert!(jwt.verify_admin_token_at(&access, false, NOW + 899).is_ok());
}

#[test]
fn user_token_is_the_wrong_principal_class() {
    let jwt = service();
    let user = jwt.user_token_at(&id(3), "9999999999", false, NOW).unwrap();
    assert_eq!(jwt.verify_admin_token_at(&user, false, NOW).unwrap_err(), TokenError::WrongPrincipalClass);
    let claims = jwt.verify_token_at(&user, false, NOW).unwrap();
    assert_eq!(claims.mobile, "9999999999");
    assert_eq!(claims.sub, "030303030303030303030303");
}

#[test]
fn tampered_or_garbled_token_is_invalid() {
    let jwt = service();
    let mut access = jwt.admin_token_at(&id(4), "a@x.com", false, NOW).unwrap();
    access.push('x');
    assert_eq!(jwt.verify_admin_token_at(&access, false, NOW).unwrap_err(), TokenError::InvalidToken);
    assert_eq!(jwt.verify_admin_token_at("abc", false, NOW).unwrap_err(), TokenError::InvalidToken);
}

#[test]
fn expiry_that_overflows_is_refused() {
    let jwt = service();
    assert_eq!(jwt.admin_token_at(&id(5), "a@x.com", false, i64::MAX).unwrap_err(), TokenError::ExpiryOutOfRange);
}

#[test]
fn tokens_issued_now_verify_now() {
    let jwt = service();
    let access = jwt.generate_admin_access_token(&id(6), "b@x.com").unwrap();
    assert_eq!(jwt.verify_admin_token(&access, false).unwrap().email, "b@x.com");
    let refresh = jwt.generate_admin_refresh_token(&id(6), "b@x.com").unwrap();
    assert!(jwt.verify_admin_token(&refresh, true).is_ok());
    let user = jwt.generate_access_token(&id(6), "12345").unwrap();
    assert_eq!(jwt.verify_token(&user, false).unwrap().mobile, "12345");
    let user_refresh = jwt.generate_refresh_token(&id(6), "12345").unwrap();
    assert!(jwt.verify_token(&user_refresh, true).is_ok());
}

fn payload(exp: Option<i64>, is_admin: Option<bool>) -> TokenPayload {
    TokenPayload {
        sub: Some("s".to_string()),
        email: Some("e".to_string()),
        mobile: None,
        is_admin,
        exp,
        iat: Some(1),
    }
}

#[test]
fn payload_verdicts_in_order() {
    assert_eq!(check_admin_payload(None, 10).unwrap_err(), TokenError::InvalidToken);
    assert_eq!(check_admin_payload(Some(payload(None, Some(true))), 10).unwrap_err(), TokenError::InvalidToken);
    assert_eq!(check_admin_payload(Some(payload(Some(10), Some(false))), 10).unwrap_err(), TokenError::ExpiredToken);
    assert_eq!(check_admin_payload(Some(payload(Some(11), Some(false))), 10).unwrap_err(), TokenError::WrongPrincipalClass);
    assert_eq!(check_admin_payload(Some(payload(Some(11), None)), 10).unwrap_err(), TokenError::WrongPrincipalClass);
    let c = check_admin_payload(Some(payload(Some(11), Some(true))), 10).unwrap();
    assert_eq!((c.sub.as_str(), c.email.as_str(), c.exp, c.iat), ("s", "e", 11, 1));
}

#[test]
fn registration_validation_messages() {
    let e = validate_registration(&register_dto("ax.com", "secret1", "A")).unwrap_err();
    assert_eq!((e.kind, e.message.as_str()), (ErrorKind::BadRequest, "Invalid email format"));
    let e = validate_registration(&register_dto("a@x", "secret1", "A")).unwrap_err();
    assert_eq!(e.message, "Invalid email format");
    let e = validate_registration(&register_dto("a@x.com", "12345", "A")).unwrap_err();
    assert_eq!(e.message, "Password must be at least 6 characters");
    let e = validate_registration(&register_dto("a@x.com", "123456", "  \t ")).unwrap_err();
    assert_eq!(e.message, "Name is required");
    assert!(validate_registration(&register_dto("a@x.com", "123456", "Ann")).is_ok());
    assert_eq!(e.status_code(), 400);
}

#[test]
fn registration_builds_the_account() {
    let dto = register_dto("A@X.com", "secret1", "  Ann  ");
    let user = admin_register(&dto, false, id(7), 5_000, 4).unwrap();
    assert_eq!(user.email, "a@x.com");
    assert_eq!(user.name, "Ann");
    assert_eq!(user.role, AdminRole::Admin);
    assert!(user.is_active);
    assert_eq!(user.last_login_at, Some(5_000));
    assert_eq!((user.created_at, user.updated_at), (5_000, 5_000));
    assert_ne!(user.password_hash, "secret1");
    assert_eq!(verify_password("secret1", &user.password_hash), Ok(true));
    assert_eq!(normalize_email("A@X.com"), "a@x.com");
    let e = admin_register(&dto, true, id(7), 5_000, 4).unwrap_err();
    assert_eq!((e.kind, e.message.as_str()), (ErrorKind::BadRequest, "Email already registered"));
    let e = admin_register(&dto, false, id(7), 5_000, 2).unwrap_err();
    assert_eq!((e.kind, e.message.as_str()), (ErrorKind::InternalError, "Password hashing error"));
}

#[test]
fn register_login_me_scenario() {
    let jwt = service();
    let user = admin_register(&register_dto("a@x.com", "secret1", "Admin"), false, id(8), 1_000, 4).unwrap();
    let stored = || AdminUserCopy::of(&user);

    let login = AdminLoginDto { email: "a@x.com".to_string(), password: "secret1".to_string() };
    let resp = admin_login(&jwt, &login, Some(stored()), NOW).unwrap();
    assert!(!resp.access_token.is_empty());
    assert!(!resp.refresh_token.is_empty());
    assert_eq!(resp.user.email, "a@x.com");
    assert_eq!(resp.user.role, "admin");
    assert_eq!(resp.user.id, "080808080808080808080808");

    let header = format!("Bearer {}", resp.access_token);
    let guard = AdminGuard::from_request(&jwt, Some(&header), NOW + 10).unwrap();
    assert_eq!(guard.email, "a@x.com");
    assert_eq!(guard.admin_id.to_hex(), "080808080808080808080808");
    let me = admin_me(Some(stored())).unwrap();
    assert_eq!(me.email, "a@x.com");

    let wrong = AdminLoginDto { email: "a@x.com".to_string(), password: "secret2".to_string() };
    let e = admin_login(&jwt, &wrong, Some(stored()), NOW).unwrap_err();
    assert_eq!(e.status_code(), 401);
    assert_eq!(e.message, "Invalid email or password");
}

struct AdminUserCopy;

impl AdminUserCopy {
    fn of(u: &backend::models::AdminUser) -> backend::models::AdminUser {
        backend::models::AdminUser {
            id: u.id.copy(),
            email: u.email.clone(),
            password_hash: u.password_hash.clone(),
            name: u.name.clone(),
            role: u.role,
            is_active: u.is_active,
            last_login_at: u.last_login_at,
            created_at: u.created_at,
            updated_at: u.updated_at,
        }
    }
}

#[test]
fn login_refusals() {
    let jwt = service();
    let login = AdminLoginDto { email: "a@x.com".to_string(), password: "secret1".to_string() };
    let e = admin_login(&jwt, &login, None, NOW).unwrap_err();
    assert_eq!((e.kind, e.message.as_str()), (ErrorKind::Unauthorized, "Invalid email or password"));
    let mut user = admin_register(&register_dto("a@x.com", "secret1", "A"), false, id(9), 1, 4).unwrap();
    user.is_active = false;
    let e = admin_login(&jwt, &login, Some(user), NOW).unwrap_err();
    assert_eq!(e.message, "Account is deactivated");
    let mut user = admin_register(&register_dto("a@x.com", "secret1", "A"), false, id(9), 1, 4).unwrap();
    user.password_hash = "garbage".to_string();
    let e = admin_login(&jwt, &login, Some(user), NOW).unwrap_err();
    assert_eq!((e.kind, e.message.as_str()), (ErrorKind::InternalError, "Password verification error"));
}

#[test]
fn refresh_flow() {
    let jwt = service();
    let refresh = jwt.admin_token_at(&id(10), "r@x.com", true, NOW).unwrap();
    let subject = refresh_subject(&jwt, &AdminRefreshTokenDto { refresh_token: refresh }, NOW + 5).unwrap();
    assert_eq!(subject.to_hex(), "0a0a0a0a0a0a0a0a0a0a0a0a");
    let access = jwt.admin_token_at(&id(10), "r@x.com", false, NOW).unwrap();
    let e = refresh_subject(&jwt, &AdminRefreshTokenDto { refresh_token: access }, NOW + 5).unwrap_err();
    assert_eq!((e.kind, e.message.as_str()), (ErrorKind::Unauthorized, "Invalid or expired refresh token"));
    let e = admin_refresh_token(&jwt, None, NOW).unwrap_err();
    assert_eq!(e.message, "Admin not found");
    let user = admin_register(&register_dto("r@x.com", "secret1", "R"), false, id(10), 1, 4).unwrap();
    let resp = admin_refresh_token(&jwt, Some(user), NOW).unwrap();
    let claims = jwt.verify_admin_token_at(&resp.refresh_token, true, NOW + 1).unwrap();
    assert_eq!(claims.email, "r@x.com");
    let e = admin_me(None).unwrap_err();
    assert_eq!((e.kind, e.status_code()), (ErrorKind::NotFound, 404));
}

#[test]
fn guard_refusals() {
    let jwt = service();
    let access = jwt.admin_token_at(&id(11), "g@x.com", false, NOW).unwrap();
    assert_eq!(AdminGuard::from_request(&jwt, None, NOW).unwrap_err().status_code(), 401);
    assert!(AdminGuard::from_request(&jwt, Some(&access), NOW).is_err());
    assert!(AdminGuard::from_request(&jwt, Some(&format!("Token {}", access)), NOW).is_err());
    assert!(AdminGuard::from_request(&jwt, Some(&format!("Bearer {}", access)), NOW + 900).is_err());
    let refresh = jwt.admin_token_at(&id(11), "g@x.com", true, NOW).unwrap();
    assert!(AdminGuard::from_request(&jwt, Some(&format!("Bearer {}", refresh)), NOW).is_err());
    let bad_sub = JwtService::new("access-secret".to_string(), "x".to_string(), 900, 900);
    let ok = AdminGuard::from_request(&bad_sub, Some(&format!("Bearer {}", access)), NOW).unwrap();
    assert_eq!(ok.email, "g@x.com");
}

#[test]
fn new_account_from_a_hash() {
    let dto = register_dto("Ann@X.COM", "secret1", "\u{3000}Ann\t");
    let user = new_admin_user(&dto, id(12), 42, "stored-hash".to_string());
    assert_eq!(user.email, "ann@x.com");
    assert_eq!(user.name, "Ann");
    assert_eq!(user.password_hash, "stored-hash");
    assert_eq!(user.id.to_hex(), "0c0c0c0c0c0c0c0c0c0c0c0c");
    assert_eq!((user.created_at, user.updated_at, user.last_login_at), (42, 42, Some(42)));
    assert!(user.is_active && user.role == AdminRole::Admin);
}

#[test]
fn token_pair_issued_and_bounded() {
    let jwt = service();
    let user = new_admin_user(&register_dto("p@x.com", "secret1", "P"), id(13), 1, "h".to_string());
    let resp = issue_auth_response(&jwt, &user, NOW).unwrap();
    assert_eq!(jwt.verify_admin_token_at(&resp.access_token, false, NOW).unwrap().email, "p@x.com");
    assert_eq!(jwt.verify_admin_token_at(&resp.refresh_token, true, NOW).unwrap().sub, "0d0d0d0d0d0d0d0d0d0d0d0d");
    let e = issue_auth_response(&jwt, &user, i64::MAX).unwrap_err();
    assert_eq!((e.kind, e.message.as_str()), (ErrorKind::InternalError, "Token generation error"));
}
