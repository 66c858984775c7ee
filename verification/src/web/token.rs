//! The session token: what it claims, how it is made and how it is read.

use crate::error::{ErrorView, MyError};
use crate::settings::{look_up, must_be_set, required, setting};
use crate::text::{maybe_text, split_commas, split_spec, texts};
use vstd::prelude::*;
use vstd::string::*;

verus! {

/// The name of the cookie that carries the session token.
pub const AUTH_TOKEN: &'static str = "auth-token";

/// Whom the tokens of this service are made for.
pub const AUDIENCE: &'static str = "http://localhost:8080";

/// How long a token is good for where nothing else is said: a day, in
/// seconds.
pub const DAY: u64 = 86400;

/// What a session token claims.
#[derive(Debug, PartialEq, Eq)]
pub struct Claims {
    /// For whom the token is made.
    pub aud: String,
    /// Until when the token is good, in seconds since 1970.
    pub exp: u64,
    /// When the token was made, in seconds since 1970.
    pub iat: u64,
    /// Who made the token.
    pub iss: String,
    /// The user that the token stands for.
    pub sub: String,
}

/// What [`Claims`] hold.
pub struct ClaimsView {
    pub aud: Seq<char>,
    pub exp: u64,
    pub iat: u64,
    pub iss: Seq<char>,
    pub sub: Seq<char>,
}

impl View for Claims {
    type V = ClaimsView;

    open spec fn view(&self) -> ClaimsView {
        ClaimsView { aud: self.aud@, exp: self.exp, iat: self.iat, iss: self.iss@, sub: self.sub@ }
    }
}

/// The claims of a token made at `now` for the user `sub`, good for `exp`
/// seconds.
pub open spec fn claims_at(sub: Seq<char>, exp: u64, now: u64) -> ClaimsView {
    ClaimsView { aud: AUDIENCE@, exp: (now + exp) as u64, iat: now, iss: Seq::empty(), sub }
}

impl Claims {
    /// The claims of a token made at `now`, in seconds since 1970, for the
    /// user `sub`, good for `exp` seconds.
    pub fn new(sub: String, exp: u64, now: u64) -> (claims: Claims)
        requires
            now + exp <= u64::MAX,
        ensures
            claims@ == claims_at(sub@, exp, now),
    {
        Claims { aud: String::from_str(AUDIENCE), exp: now + exp, iat: now, iss: String::new(), sub }
    }
}

/// The token that signs `claims` under `secret`, where one can be made.
pub uninterp spec fn signed_token(claims: ClaimsView, secret: Seq<char>) -> Option<Seq<char>>;

/// The claims of `token`, where it is well made, signed under `secret`, and
/// for one of `audience`. Whether the token is still good is not looked at.
pub uninterp spec fn token_claims(
    token: Seq<char>,
    secret: Seq<char>,
    audience: Seq<Seq<char>>,
) -> Option<ClaimsView>;

/// `jsonwebtoken::encode`, with the default header, the five claims as a
/// JSON object, and the secret as the key of an HMAC. Nothing is claimed of
/// what the token is, but that it depends on the claims and the secret alone;
/// there is none where the library fails.
#[verifier::external_body]
fn sign(claims: &Claims, secret: &str) -> (token: Option<String>)
    ensures
        maybe_text(token) == signed_token(claims@, secret@),
{
    let mut object = serde_json::Map::new();
    object.insert("aud".to_string(), claims.aud.clone().into());
    object.insert("exp".to_string(), claims.exp.into());
    object.insert("iat".to_string(), claims.iat.into());
    object.insert("iss".to_string(), claims.iss.clone().into());
    object.insert("sub".to_string(), claims.sub.clone().into());
    let key = jsonwebtoken::EncodingKey::from_secret(secret.as_bytes());
    jsonwebtoken::encode(&jsonwebtoken::Header::default(), &serde_json::Value::Object(object), &key).ok()
}

/// What the claims read from a token hold, where there are any.
pub open spec fn maybe_claims(claims: Option<Claims>) -> Option<ClaimsView> {
    match claims {
        Some(c) => Some(c@),
        None => None,
    }
}

/// `jsonwebtoken::decode`, with the default validation but for the check of
/// the expiry, which is left to the caller, and with the given audience. The
/// claims come back where the library accepts the token and the token holds
/// all five of them, texts as texts and times as whole numbers. Nothing is
/// claimed of which tokens these are, but that it depends on the token, the
/// secret and the audience alone.
#[verifier::external_body]
fn read(token: &str, secret: &str, audience: &Vec<String>) -> (claims: Option<Claims>)
    ensures
        maybe_claims(claims) == token_claims(token@, secret@, texts(audience@)),
{
    let mut validation = jsonwebtoken::Validation::default();
    validation.validate_exp = false;
    validation.set_audience(audience);
    let key = jsonwebtoken::DecodingKey::from_secret(secret.as_bytes());
    let found = jsonwebtoken::decode::<serde_json::Value>(token, &key, &validation).ok()?.claims;
    Some(Claims {
        aud: found.get("aud")?.as_str()?.to_string(),
        exp: found.get("exp")?.as_u64()?,
        iat: found.get("iat")?.as_u64()?,
        iss: found.get("iss")?.as_str()?.to_string(),
        sub: found.get("sub")?.as_str()?.to_string(),
    })
}

/// How long a token is good for: what is asked, or a day.
pub open spec fn lifetime(exp: Option<u64>) -> u64 {
    match exp {
        Some(seconds) => seconds,
        None => DAY,
    }
}

/// The token for a user, made at `now` and good for `exp` seconds; none
/// where the expiry would lie past the largest `u64`, or no token can be
/// made.
pub open spec fn token_spec(user_id: Seq<char>, exp: Option<u64>, secret: Seq<char>, now: u64) -> Option<
    Seq<char>,
> {
    if now + lifetime(exp) > u64::MAX {
        None
    } else {
        signed_token(claims_at(user_id, lifetime(exp), now), secret)
    }
}

/// Makes the token of a session of the user. Without `exp`, the token is
/// good for a day.
pub fn generate_token(user_id: String, exp: Option<u64>, secret: &str, now: u64) -> (token: Option<
    String,
>)
    ensures
        maybe_text(token) == token_spec(user_id@, exp, secret@, now),
{
    let seconds: u64 = match exp {
        Some(seconds) => seconds,
        None => DAY,
    };
    if seconds > u64::MAX - now {
        return None;
    }
    sign(&Claims::new(user_id, seconds, now), secret)
}

/// A cookie to be set: a name and a value.
#[derive(Debug, PartialEq, Eq)]
pub struct AuthCookie {
    pub name: String,
    pub value: String,
}

/// What an [`AuthCookie`] holds.
pub struct CookieView {
    pub name: Seq<char>,
    pub value: Seq<char>,
}

impl View for AuthCookie {
    type V = CookieView;

    open spec fn view(&self) -> CookieView {
        CookieView { name: self.name@, value: self.value@ }
    }
}

/// What a cookie that may be absent holds.
pub open spec fn maybe_cookie(cookie: Option<AuthCookie>) -> Option<CookieView> {
    match cookie {
        Some(c) => Some(c@),
        None => None,
    }
}

/// The cookie of a session of the user: the token, under the name of the
/// session cookie.
pub open spec fn cookie_spec(user_id: Seq<char>, exp: Option<u64>, secret: Seq<char>, now: u64) -> Option<
    CookieView,
> {
    match token_spec(user_id, exp, secret, now) {
        Some(value) => Some(CookieView { name: AUTH_TOKEN@, value }),
        None => None,
    }
}

/// The session cookie that carries `token`; none where there is no token.
pub fn cookie_of(token: Option<String>) -> (cookie: Option<AuthCookie>)
    ensures
        maybe_cookie(cookie) == match token {
            Some(value) => Some(CookieView { name: AUTH_TOKEN@, value: value@ }),
            None => None,
        },
{
    match token {
        Some(value) => Some(AuthCookie { name: String::from_str(AUTH_TOKEN), value }),
        None => None,
    }
}

/// Makes the cookie of a session of the user. Without `exp`, the session
/// lasts a day.
pub fn generate_auth_cookie(user_id: String, exp: Option<u64>, secret: &str, now: u64) -> (cookie:
    Option<AuthCookie>)
    ensures
        maybe_cookie(cookie) == cookie_spec(user_id@, exp, secret@, now),
{
    cookie_of(generate_token(user_id, exp, secret, now))
}

/// The claims of a token that is well made, signed under the secret and for
/// one of the audience; the expiry is not looked at.
pub fn read_token(token: &str, secret: &str, audience: &Vec<String>) -> (claims: Option<Claims>)
    ensures
        maybe_claims(claims) == token_claims(token@, secret@, texts(audience@)),
{
    read(token, secret, audience)
}

/// What the service needs to know to make and to check tokens.
#[derive(Debug, PartialEq, Eq)]
pub struct AuthConfig {
    /// The key under which tokens are signed.
    pub secret: String,
    /// For whom a token may be made to be let in.
    pub audience: Vec<String>,
}

/// What an [`AuthConfig`] holds.
pub struct AuthView {
    pub secret: Seq<char>,
    pub audience: Seq<Seq<char>>,
}

impl View for AuthConfig {
    type V = AuthView;

    open spec fn view(&self) -> AuthView {
        AuthView { secret: self.secret@, audience: texts(self.audience@) }
    }
}

/// The configuration of tokens that the settings give: the secret is needed;
/// the audience is the list under its name, cut at the commas, and one empty
/// text where the settings give none.
pub open spec fn auth_spec(settings: Seq<(String, String)>) -> Result<AuthView, ErrorView> {
    match setting(settings, "AUTH_SECRET"@) {
        None => Err(must_be_set("AUTH_SECRET"@)),
        Some(secret) => Ok(
            AuthView {
                secret,
                audience: match setting(settings, "AUTH_AUDIENCE"@) {
                    Some(list) => split_spec(list),
                    None => split_spec(Seq::empty()),
                },
            },
        ),
    }
}

impl AuthConfig {
    /// Reads the configuration of tokens from the settings of the
    /// environment, given as pairs of a name and a value.
    pub fn init(settings: &Vec<(String, String)>) -> (auth: Result<AuthConfig, MyError>)
        ensures
            match auth_spec(settings@) {
                Ok(expected) => auth is Ok && auth->Ok_0@ == expected,
                Err(error) => auth is Err && auth->Err_0@ == error,
            },
    {
        let secret = required(settings, "AUTH_SECRET")?;
        let audience = match look_up(settings, "AUTH_AUDIENCE") {
            Some(list) => split_commas(list.as_str()),
            None => {
                proof {
                    reveal_strlit("");
                    assert(""@ =~= Seq::<char>::empty());
                }
                split_commas("")
            },
        };
        Ok(AuthConfig { secret, audience })
    }
}

} // verus!
