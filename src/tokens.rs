//! Signed admin and user tokens: issuance with a per-kind secret and lifetime,
//! verification of signature, expiry and principal class.

use vstd::prelude::*;
use crate::ids::{DocumentId, hex_text};

verus! {

#[verifier::external_type_specification]
#[verifier::external_body]
pub struct ExJwtError(jsonwebtoken::errors::Error);

/// Claims as carried inside a signed token; a claim the token lacks is `None`.
#[derive(Debug)]
pub struct TokenPayload {
    pub sub: Option<String>,
    pub email: Option<String>,
    pub mobile: Option<String>,
    pub is_admin: Option<bool>,
    pub exp: Option<i64>,
    pub iat: Option<i64>,
}

/// Mathematical view of a token payload.
pub struct PayloadView {
    pub sub: Option<Seq<char>>,
    pub email: Option<Seq<char>>,
    pub mobile: Option<Seq<char>>,
    pub is_admin: Option<bool>,
    pub exp: Option<i64>,
    pub iat: Option<i64>,
}

pub open spec fn opt_text(o: Option<String>) -> Option<Seq<char>> {
    match o {
        Some(s) => Some(s@),
        None => None,
    }
}

impl View for TokenPayload {
    type V = PayloadView;

    open spec fn view(&self) -> PayloadView {
        PayloadView {
            sub: opt_text(self.sub),
            email: opt_text(self.email),
            mobile: opt_text(self.mobile),
            is_admin: self.is_admin,
            exp: self.exp,
            iat: self.iat,
        }
    }
}

pub open spec fn opt_payload(p: Option<TokenPayload>) -> Option<PayloadView> {
    match p {
        Some(q) => Some(q@),
        None => None,
    }
}

/// The token that signing `payload` with `secret` produces.
pub uninterp spec fn signed_token(payload: PayloadView, secret: Seq<char>) -> Seq<char>;

/// The payload that a token yields under `secret`: `None` where the signature
/// does not match, the token is malformed, or it carries no usable `exp`.
pub uninterp spec fn decoded_payload(token: Seq<char>, secret: Seq<char>) -> Option<PayloadView>;

/// Relies on `jsonwebtoken::encode` with the default header (HS256): signs the
/// claims, each absent one written as null, with the bytes of `secret`. The
/// result depends on the claims and the secret alone. An HMAC key matches the
/// HS256 header and HMAC signing cannot fail, so it always succeeds; and
/// `jsonwebtoken::decode` under the same secret reads the claims back, as
/// long as `exp` is present and not negative (the one claim it requires).
#[verifier::external_body]
fn encode_payload(payload: &TokenPayload, secret: &str) -> (r: Result<String, jsonwebtoken::errors::Error>)
    ensures
        r is Ok,
        r matches Ok(t) ==> t@ == signed_token(payload@, secret@),
        r matches Ok(t) ==> (payload.exp matches Some(e) && e >= 0 ==> decoded_payload(t@, secret@) == Some(payload@)),
{
    let mut claims = serde_json::Map::new();
    claims.insert("sub".to_string(), payload.sub.clone().into());
    claims.insert("email".to_string(), payload.email.clone().into());
    claims.insert("mobile".to_string(), payload.mobile.clone().into());
    claims.insert("is_admin".to_string(), payload.is_admin.into());
    claims.insert("exp".to_string(), payload.exp.into());
    claims.insert("iat".to_string(), payload.iat.into());
    let key = jsonwebtoken::EncodingKey::from_secret(secret.as_bytes());
    jsonwebtoken::encode(&jsonwebtoken::Header::default(), &claims, &key)
}

/// Relies on `jsonwebtoken::decode` with HS256 and its own expiry check off
/// (expiry is decided by `admin_verdict` and `user_verdict` against an
/// explicit clock): succeeds exactly when the signature matches `secret` and
/// the claims parse. Claims of another JSON type read as absent.
#[verifier::external_body]
fn decode_payload(token: &str, secret: &str) -> (r: Result<TokenPayload, jsonwebtoken::errors::Error>)
    ensures
        r is Ok <==> decoded_payload(token@, secret@) is Some,
        r matches Ok(p) ==> decoded_payload(token@, secret@) == Some(p@),
{
    let mut validation = jsonwebtoken::Validation::default();
    validation.validate_exp = false;
    let key = jsonwebtoken::DecodingKey::from_secret(secret.as_bytes());
    let c = jsonwebtoken::decode::<serde_json::Map<String, serde_json::Value>>(token, &key, &validation)?.claims;
    let text = |k: &str| c.get(k).and_then(|v| v.as_str()).map(String::from);
    Ok(TokenPayload {
        sub: text("sub"),
        email: text("email"),
        mobile: text("mobile"),
        is_admin: c.get("is_admin").and_then(|v| v.as_bool()),
        exp: c.get("exp").and_then(|v| v.as_i64()),
        iat: c.get("iat").and_then(|v| v.as_i64()),
    })
}

/// Relies on `chrono::Utc::now`: the current time in seconds since the Unix epoch.
#[verifier::external_body]
fn unix_now() -> (r: i64) {
    chrono::Utc::now().timestamp()
}

/// Why a token was not accepted, or could not be made.
#[derive(Clone, Copy, Debug, PartialEq, Eq, Structural)]
pub enum TokenError {
    /// Bad signature, malformed token or missing claim.
    InvalidToken,
    /// The token's `exp` is not after the time of verification.
    ExpiredToken,
    /// The token does not carry the admin marker.
    WrongPrincipalClass,
    /// Issued-at plus lifetime does not fit a 64-bit timestamp.
    ExpiryOutOfRange,
}

/// Claims of an admin token.
#[derive(Debug)]
pub struct AdminClaims {
    pub sub: String,
    pub email: String,
    pub is_admin: bool,
    pub exp: i64,
    pub iat: i64,
}

pub struct AdminClaimsView {
    pub sub: Seq<char>,
    pub email: Seq<char>,
    pub is_admin: bool,
    pub exp: i64,
    pub iat: i64,
}

impl View for AdminClaims {
    type V = AdminClaimsView;

    open spec fn view(&self) -> AdminClaimsView {
        AdminClaimsView {
            sub: self.sub@,
            email: self.email@,
            is_admin: self.is_admin,
            exp: self.exp,
            iat: self.iat,
        }
    }
}

/// Claims of a user (non-admin) token.
#[derive(Debug)]
pub struct Claims {
    pub sub: String,
    pub mobile: String,
    pub exp: i64,
    pub iat: i64,
}

pub struct ClaimsView {
    pub sub: Seq<char>,
    pub mobile: Seq<char>,
    pub exp: i64,
    pub iat: i64,
}

impl View for Claims {
    type V = ClaimsView;

    open spec fn view(&self) -> ClaimsView {
        ClaimsView { sub: self.sub@, mobile: self.mobile@, exp: self.exp, iat: self.iat }
    }
}

/// Verdict on a decoded admin payload at time `now`: first the signature
/// (`None`), then expiry (`exp` missing, or not after `now`), then the admin
/// marker, then the remaining claims.
pub open spec fn admin_verdict(p: Option<PayloadView>, now: i64) -> Result<AdminClaimsView, TokenError> {
    match p {
        None => Err(TokenError::InvalidToken),
        Some(p) => if p.exp is None {
            Err(TokenError::InvalidToken)
        } else if p.exp.unwrap() <= now {
            Err(TokenError::ExpiredToken)
        } else if p.is_admin != Some(true) {
            Err(TokenError::WrongPrincipalClass)
        } else if p.sub is None || p.email is None || p.iat is None {
            Err(TokenError::InvalidToken)
        } else {
            Ok(
                AdminClaimsView {
                    sub: p.sub.unwrap(),
                    email: p.email.unwrap(),
                    is_admin: true,
                    exp: p.exp.unwrap(),
                    iat: p.iat.unwrap(),
                },
            )
        },
    }
}

/// Verdict on a decoded user payload at time `now`: signature, then expiry,
/// then the remaining claims.
pub open spec fn user_verdict(p: Option<PayloadView>, now: i64) -> Result<ClaimsView, TokenError> {
    match p {
        None => Err(TokenError::InvalidToken),
        Some(p) => if p.exp is None {
            Err(TokenError::InvalidToken)
        } else if p.exp.unwrap() <= now {
            Err(TokenError::ExpiredToken)
        } else if p.sub is None || p.mobile is None || p.iat is None {
            Err(TokenError::InvalidToken)
        } else {
            Ok(
                ClaimsView {
                    sub: p.sub.unwrap(),
                    mobile: p.mobile.unwrap(),
                    exp: p.exp.unwrap(),
                    iat: p.iat.unwrap(),
                },
            )
        },
    }
}

pub open spec fn admin_result(r: Result<AdminClaims, TokenError>) -> Result<AdminClaimsView, TokenError> {
    match r {
        Ok(c) => Ok(c@),
        Err(e) => Err(e),
    }
}

pub open spec fn user_result(r: Result<Claims, TokenError>) -> Result<ClaimsView, TokenError> {
    match r {
        Ok(c) => Ok(c@),
        Err(e) => Err(e),
    }
}

/// Payload of an admin token for `sub` and `email`, issued at `iat`.
pub open spec fn admin_payload(sub: Seq<char>, email: Seq<char>, iat: i64, exp: i64) -> PayloadView {
    PayloadView {
        sub: Some(sub),
        email: Some(email),
        mobile: None,
        is_admin: Some(true),
        exp: Some(exp),
        iat: Some(iat),
    }
}

/// Payload of a user token for `sub` and `mobile`, issued at `iat`.
pub open spec fn user_payload(sub: Seq<char>, mobile: Seq<char>, iat: i64, exp: i64) -> PayloadView {
    PayloadView {
        sub: Some(sub),
        mobile: Some(mobile),
        email: None,
        is_admin: None,
        exp: Some(exp),
        iat: Some(iat),
    }
}

/// Decides an admin token from its decoded payload (`None`: the signature
/// check failed) at time `now`, in seconds.
pub fn check_admin_payload(payload: Option<TokenPayload>, now: i64) -> (r: Result<AdminClaims, TokenError>)
    ensures
        admin_result(r) == admin_verdict(opt_payload(payload), now),
{
    match payload {
        None => Err(TokenError::InvalidToken),
        Some(p) => match p.exp {
            None => Err(TokenError::InvalidToken),
            Some(exp) => {
                if exp <= now {
                    return Err(TokenError::ExpiredToken);
                }
                match p.is_admin {
                    Some(true) => {},
                    _ => {
                        return Err(TokenError::WrongPrincipalClass);
                    },
                }
                match (p.sub, p.email, p.iat) {
                    (Some(sub), Some(email), Some(iat)) => Ok(
                        AdminClaims { sub, email, is_admin: true, exp, iat },
                    ),
                    _ => Err(TokenError::InvalidToken),
                }
            },
        },
    }
}

/// Decides a user token from its decoded payload at time `now`, in seconds.
pub fn check_user_payload(payload: Option<TokenPayload>, now: i64) -> (r: Result<Claims, TokenError>)
    ensures
        user_result(r) == user_verdict(opt_payload(payload), now),
{
    match payload {
        None => Err(TokenError::InvalidToken),
        Some(p) => match p.exp {
            None => Err(TokenError::InvalidToken),
            Some(exp) => {
                if exp <= now {
                    return Err(TokenError::ExpiredToken);
                }
                match (p.sub, p.mobile, p.iat) {
                    (Some(sub), Some(mobile), Some(iat)) => Ok(Claims { sub, mobile, exp, iat }),
                    _ => Err(TokenError::InvalidToken),
                }
            },
        },
    }
}

/// `a + b` fits a 64-bit signed integer.
pub open spec fn fits_i64(a: i64, b: i64) -> bool {
    i64::MIN <= a + b <= i64::MAX
}

/// Secrets and lifetimes (in seconds) of the two token kinds.
#[derive(Debug)]
pub struct JwtService {
    pub access_secret: String,
    pub refresh_secret: String,
    pub access_ttl: i64,
    pub refresh_ttl: i64,
}

impl JwtService {
    pub open spec fn secret_of(&self, is_refresh: bool) -> Seq<char> {
        if is_refresh {
            self.refresh_secret@
        } else {
            self.access_secret@
        }
    }

    pub open spec fn ttl_of(&self, is_refresh: bool) -> i64 {
        if is_refresh {
            self.refresh_ttl
        } else {
            self.access_ttl
        }
    }

    pub fn new(access_secret: String, refresh_secret: String, access_ttl: i64, refresh_ttl: i64) -> (r: JwtService)
        ensures
            r.access_secret@ == access_secret@,
            r.refresh_secret@ == refresh_secret@,
            r.access_ttl == access_ttl,
            r.refresh_ttl == refresh_ttl,
    {
        JwtService { access_secret, refresh_secret, access_ttl, refresh_ttl }
    }

    fn secret(&self, is_refresh: bool) -> (r: &str)
        ensures
            r@ == self.secret_of(is_refresh),
    {
        if is_refresh {
            self.refresh_secret.as_str()
        } else {
            self.access_secret.as_str()
        }
    }

    fn ttl(&self, is_refresh: bool) -> (r: i64)
        ensures
            r == self.ttl_of(is_refresh),
    {
        if is_refresh {
            self.refresh_ttl
        } else {
            self.access_ttl
        }
    }

    /// Signs a token for `payload`'s claims with the secret of its kind.
    fn sign(&self, payload: &TokenPayload, is_refresh: bool) -> (r: String)
        ensures
            r@ == signed_token(payload@, self.secret_of(is_refresh)),
            payload.exp matches Some(e) && e >= 0 ==> decoded_payload(r@, self.secret_of(is_refresh))
                == Some(payload@),
    {
        match encode_payload(payload, self.secret(is_refresh)) {
            Ok(t) => t,
            Err(_) => {
                assert(false);
                String::new()
            },
        }
    }

    /// Issues an admin token of the given kind at time `now` (seconds): the
    /// subject is the identifier's hex text, the admin marker is set, and it
    /// expires the kind's lifetime after `now`.
    pub fn admin_token_at(&self, admin_id: &DocumentId, email: &str, is_refresh: bool, now: i64) -> (r: Result<String, TokenError>)
        ensures
            !fits_i64(now, self.ttl_of(is_refresh)) <==> r == Err::<String, TokenError>(TokenError::ExpiryOutOfRange),
            fits_i64(now, self.ttl_of(is_refresh)) ==> r is Ok,
            r matches Ok(t) ==> t@ == signed_token(
                admin_payload(hex_text(admin_id@), email@, now, (now + self.ttl_of(is_refresh)) as i64),
                self.secret_of(is_refresh),
            ),
            r matches Ok(t) ==> (now + self.ttl_of(is_refresh) >= 0 ==> decoded_payload(t@, self.secret_of(is_refresh))
                == Some(admin_payload(hex_text(admin_id@), email@, now, (now + self.ttl_of(is_refresh)) as i64))),
    {
        let exp = match now.checked_add(self.ttl(is_refresh)) {
            Some(e) => e,
            None => {
                return Err(TokenError::ExpiryOutOfRange);
            },
        };
        let payload = TokenPayload {
            sub: Some(admin_id.to_hex()),
            email: Some(email.to_string()),
            mobile: None,
            is_admin: Some(true),
            exp: Some(exp),
            iat: Some(now),
        };
        Ok(self.sign(&payload, is_refresh))
    }

    /// Issues a user token of the given kind at time `now` (seconds).
    pub fn user_token_at(&self, user_id: &DocumentId, mobile: &str, is_refresh: bool, now: i64) -> (r: Result<String, TokenError>)
        ensures
            !fits_i64(now, self.ttl_of(is_refresh)) <==> r == Err::<String, TokenError>(TokenError::ExpiryOutOfRange),
            fits_i64(now, self.ttl_of(is_refresh)) ==> r is Ok,
            r matches Ok(t) ==> t@ == signed_token(
                user_payload(hex_text(user_id@), mobile@, now, (now + self.ttl_of(is_refresh)) as i64),
                self.secret_of(is_refresh),
            ),
            r matches Ok(t) ==> (now + self.ttl_of(is_refresh) >= 0 ==> decoded_payload(t@, self.secret_of(is_refresh))
                == Some(user_payload(hex_text(user_id@), mobile@, now, (now + self.ttl_of(is_refresh)) as i64))),
    {
        let exp = match now.checked_add(self.ttl(is_refresh)) {
            Some(e) => e,
            None => {
                return Err(TokenError::ExpiryOutOfRange);
            },
        };
        let payload = TokenPayload {
            sub: Some(user_id.to_hex()),
            email: None,
            mobile: Some(mobile.to_string()),
            is_admin: None,
            exp: Some(exp),
            iat: Some(now),
        };
        Ok(self.sign(&payload, is_refresh))
    }

    /// Verifies an admin token of the given kind at time `now` (seconds).
    pub fn verify_admin_token_at(&self, token: &str, is_refresh: bool, now: i64) -> (r: Result<AdminClaims, TokenError>)
        ensures
            admin_result(r) == admin_verdict(decoded_payload(token@, self.secret_of(is_refresh)), now),
    {
        let decoded = match decode_payload(token, self.secret(is_refresh)) {
            Ok(p) => Some(p),
            Err(_) => None,
        };
        check_admin_payload(decoded, now)
    }

    /// Verifies a user token of the given kind at time `now` (seconds).
    pub fn verify_token_at(&self, token: &str, is_refresh: bool, now: i64) -> (r: Result<Claims, TokenError>)
        ensures
            user_result(r) == user_verdict(decoded_payload(token@, self.secret_of(is_refresh)), now),
    {
        let decoded = match decode_payload(token, self.secret(is_refresh)) {
            Ok(p) => Some(p),
            Err(_) => None,
        };
        check_user_payload(decoded, now)
    }

    /// Issues an access token for a user, issued now.
    pub fn generate_access_token(&self, user_id: &DocumentId, mobile: &str) -> (r: Result<String, TokenError>)
        ensures
            r matches Err(e) ==> e == TokenError::ExpiryOutOfRange,
            r matches Ok(t) ==> exists|now: i64|
                t@ == signed_token(
                    #[trigger] user_payload(hex_text(user_id@), mobile@, now, (now + self.access_ttl) as i64),
                    self.access_secret@,
                ),
    {
        self.user_token_at(user_id, mobile, false, unix_now())
    }

    /// Issues a refresh token for a user, issued now.
    pub fn generate_refresh_token(&self, user_id: &DocumentId, mobile: &str) -> (r: Result<String, TokenError>)
        ensures
            r matches Err(e) ==> e == TokenError::ExpiryOutOfRange,
            r matches Ok(t) ==> exists|now: i64|
                t@ == signed_token(
                    #[trigger] user_payload(hex_text(user_id@), mobile@, now, (now + self.refresh_ttl) as i64),
                    self.refresh_secret@,
                ),
    {
        self.user_token_at(user_id, mobile, true, unix_now())
    }

    /// Verifies a user token of the given kind now.
    pub fn verify_token(&self, token: &str, is_refresh: bool) -> (r: Result<Claims, TokenError>)
        ensures
            exists|now: i64|
                user_result(r) == #[trigger] user_verdict(decoded_payload(token@, self.secret_of(is_refresh)), now),
    {
        self.verify_token_at(token, is_refresh, unix_now())
    }

    /// Issues an admin access token, issued now.
    pub fn generate_admin_access_token(&self, admin_id: &DocumentId, email: &str) -> (r: Result<String, TokenError>)
        ensures
            r matches Err(e) ==> e == TokenError::ExpiryOutOfRange,
            r matches Ok(t) ==> exists|now: i64|
                t@ == signed_token(
                    #[trigger] admin_payload(hex_text(admin_id@), email@, now, (now + self.access_ttl) as i64),
                    self.access_secret@,
                ),
    {
        self.admin_token_at(admin_id, email, false, unix_now())
    }

    /// Issues an admin refresh token, issued now.
    pub fn generate_admin_refresh_token(&self, admin_id: &DocumentId, email: &str) -> (r: Result<String, TokenError>)
        ensures
            r matches Err(e) ==> e == TokenError::ExpiryOutOfRange,
            r matches Ok(t) ==> exists|now: i64|
                t@ == signed_token(
                    #[trigger] admin_payload(hex_text(admin_id@), email@, now, (now + self.refresh_ttl) as i64),
                    self.refresh_secret@,
                ),
    {
        self.admin_token_at(admin_id, email, true, unix_now())
    }

    /// Verifies an admin token of the given kind now.
    pub fn verify_admin_token(&self, token: &str, is_refresh: bool) -> (r: Result<AdminClaims, TokenError>)
        ensures
            exists|now: i64|
                admin_result(r) == #[trigger] admin_verdict(decoded_payload(token@, self.secret_of(is_refresh)), now),
    {
        self.verify_admin_token_at(token, is_refresh, unix_now())
    }
}

/// A token issued for an admin verifies, under the secret it was signed
/// with, at every time before its expiry, and yields the claims it was
/// issued with.
pub proof fn lemma_issued_admin_token_verifies(
    token: Seq<char>,
    secret: Seq<char>,
    sub: Seq<char>,
    email: Seq<char>,
    iat: i64,
    exp: i64,
    now: i64,
)
    requires
        decoded_payload(token, secret) == Some(admin_payload(sub, email, iat, exp)),
        now < exp,
    ensures
        admin_verdict(decoded_payload(token, secret), now) == Ok::<AdminClaimsView, TokenError>(
            AdminClaimsView { sub, email, is_admin: true, exp, iat },
        ),
{
}

/// A token is never accepted once its `exp` is not after the time of
/// verification: whatever else it carries, a token whose signature checks
/// out is then refused as expired, not as a signature or class failure.
pub proof fn lemma_expired_token_refused(p: PayloadView, now: i64)
    requires
        p.exp matches Some(exp) && exp <= now,
    ensures
        admin_verdict(Some(p), now) == Err::<AdminClaimsView, TokenError>(TokenError::ExpiredToken),
        user_verdict(Some(p), now) == Err::<ClaimsView, TokenError>(TokenError::ExpiredToken),
{
}

} // verus!
