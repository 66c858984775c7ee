//! The guard in front of the routes that need a session.

use crate::text::texts;
use crate::web::token::{Claims, ClaimsView, read_token, token_claims};
use vstd::prelude::*;

verus! {

/// The status that turns away a request without a good session.
pub const STATUS_UNAUTHORIZED: u16 = 401;

/// The claims of the session that a request shows, if it is to be let in:
/// the request carries a session cookie, its token is well made, signed under
/// the secret of the service and for one of the audience, and its expiry lies
/// after `now`.
pub open spec fn session_spec(
    cookie: Option<Seq<char>>,
    secret: Seq<char>,
    audience: Seq<Seq<char>>,
    now: u64,
) -> Option<ClaimsView> {
    match cookie {
        None => None,
        Some(token) => match token_claims(token, secret, audience) {
            None => None,
            Some(claims) => if claims.exp > now {
                Some(claims)
            } else {
                None
            },
        },
    }
}

/// Whether a session lets a request in, given what the token of its cookie
/// was read as: there must be claims, and their expiry must lie after `now`.
pub fn session_of(claims: Option<Claims>, now: u64) -> (session: Result<Claims, u16>)
    ensures
        match claims {
            Some(c) => if c.exp > now {
                session is Ok && session->Ok_0@ == c@
            } else {
                session is Err && session->Err_0 == STATUS_UNAUTHORIZED
            },
            None => session is Err && session->Err_0 == STATUS_UNAUTHORIZED,
        },
{
    match claims {
        Some(claims) => if claims.exp > now {
            Ok(claims)
        } else {
            Err(STATUS_UNAUTHORIZED)
        },
        None => Err(STATUS_UNAUTHORIZED),
    }
}

/// The text that may be absent, as what it holds.
pub open spec fn maybe_str(text: Option<&str>) -> Option<Seq<char>> {
    match text {
        Some(t) => Some(t@),
        None => None,
    }
}

/// Decides whether a request is let in. `cookie` is the value of the session
/// cookie, where the request carries one; `now` is the time in seconds since
/// 1970. A request that is let in yields the claims of its session; one that
/// is not yields the status with which it is turned away.
pub fn mw_require_auth(cookie: Option<&str>, secret: &str, audience: &Vec<String>, now: u64) -> (session:
    Result<Claims, u16>)
    ensures
        match session_spec(maybe_str(cookie), secret@, texts(audience@), now) {
            Some(claims) => session is Ok && session->Ok_0@ == claims,
            None => session is Err && session->Err_0 == STATUS_UNAUTHORIZED,
        },
{
    match cookie {
        Some(token) => session_of(read_token(token, secret, audience), now),
        None => Err(STATUS_UNAUTHORIZED),
    }
}

} // verus!
