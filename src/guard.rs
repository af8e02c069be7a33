//! Authentication of admin requests from their `Authorization` header.

use vstd::prelude::*;
use crate::errors::{fails_with, ApiError, ErrorKind};
use crate::ids::{id_bytes_of, is_id_text, DocumentId};
use crate::text::starts_with;
use crate::tokens::{admin_verdict, decoded_payload, JwtService};

verus! {

/// The token of a bearer header: what follows a leading `Bearer `.
pub open spec fn bearer_token(h: Seq<char>) -> Option<Seq<char>> {
    let p = seq!['B', 'e', 'a', 'r', 'e', 'r', ' '];
    if p.len() <= h.len() && h.subrange(0, 7) == p {
        Some(h.subrange(7, h.len() as int))
    } else {
        None
    }
}

/// Identity that a request header proves at time `now` (seconds): the header
/// must be present and carry a bearer token, the token must verify as an
/// admin access token, and its subject must be identifier text.
pub open spec fn authenticated(jwt: JwtService, header: Option<Seq<char>>, now: i64) -> Option<(Seq<u8>, Seq<char>)> {
    match header {
        None => None,
        Some(h) => match bearer_token(h) {
            None => None,
            Some(t) => match admin_verdict(decoded_payload(t, jwt.access_secret@), now) {
                Err(_) => None,
                Ok(c) => if is_id_text(c.sub) {
                    Some((id_bytes_of(c.sub), c.email))
                } else {
                    None
                },
            },
        },
    }
}

pub open spec fn opt_str(o: Option<&str>) -> Option<Seq<char>> {
    match o {
        Some(s) => Some(s@),
        None => None,
    }
}

/// An authenticated admin.
#[derive(Debug)]
pub struct AdminGuard {
    pub admin_id: DocumentId,
    pub email: String,
}

impl AdminGuard {
    /// Authenticates a request from its `Authorization` header at time `now`
    /// (seconds); every failure is an authentication failure.
    pub fn from_request(jwt: &JwtService, authorization: Option<&str>, now: i64) -> (r: Result<AdminGuard, ApiError>)
        ensures
            r is Ok <==> authenticated(*jwt, opt_str(authorization), now) is Some,
            r matches Ok(g) ==> authenticated(*jwt, opt_str(authorization), now) == Some((g.admin_id@, g.email@)),
            r is Err ==> fails_with(r, ErrorKind::Unauthorized, "Invalid or missing admin token"@),
    {
        let header = match authorization {
            Some(h) => h,
            None => {
                return Err(ApiError::unauthorized("Invalid or missing admin token"));
            },
        };
        let prefix = "Bearer ";
        proof {
            reveal_strlit("Bearer ");
            assert(prefix@ =~= seq!['B', 'e', 'a', 'r', 'e', 'r', ' ']);
        }
        if !starts_with(header, prefix) {
            return Err(ApiError::unauthorized("Invalid or missing admin token"));
        }
        let n = header.unicode_len();
        let token = header.substring_char(7, n);
        let claims = match jwt.verify_admin_token_at(token, false, now) {
            Ok(c) => c,
            Err(_) => {
                return Err(ApiError::unauthorized("Invalid or missing admin token"));
            },
        };
        match DocumentId::parse_str(claims.sub.as_str()) {
            Some(admin_id) => Ok(AdminGuard { admin_id, email: claims.email }),
            None => Err(ApiError::unauthorized("Invalid or missing admin token")),
        }
    }
}

} // verus!
