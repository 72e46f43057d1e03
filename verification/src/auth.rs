//! Session tokens: a signed JWT names the user it was issued to, for 28 days.
use vstd::prelude::*;

pub mod routes;

verus! {

/// The server's secret for signing and checking session tokens.
pub struct JWTSecret(pub String);

/// The claims that a session token carries.
pub struct Claims {
    /// The audience: always `bevy-studio`.
    pub aud: String,
    /// Expiry, in seconds since the Unix epoch.
    pub exp: u64,
    /// The subject: the id of the user the token was issued to.
    pub sub: String,
}

/// A request whose bearer token checked out; it holds the user's id.
pub struct JWTAuthorized(pub String);

/// Why a request's token was refused.
#[derive(Debug)]
pub enum JWTError {
    Invalid,
}

/// The expiry that no clock reading passes: the largest `exp` a token can carry.
pub const NEVER_EXPIRES: u64 = 18446744073709551615;

/// How long a session token stays valid: 28 days, in seconds.
pub const TOKEN_LIFETIME: u64 = 2419200;

/// The audience that every session token names.
pub open spec fn audience() -> Seq<char> {
    seq!['b', 'e', 'v', 'y', '-', 's', 't', 'u', 'd', 'i', 'o']
}

/// The expiry of a token issued at `issued_at` (the timestamp taken as unsigned, plus
/// the lifetime, wrapping as the machine does).
pub open spec fn expiry(issued_at: i64) -> u64 {
    (issued_at as u64).wrapping_add(TOKEN_LIFETIME)
}

/// The compact JWT that `jsonwebtoken::encode` makes with the default header (HS256),
/// an HMAC key made from the bytes of `secret`, and the claims object
/// `{"aud": aud, "exp": exp, "sub": sub}`.
pub uninterp spec fn signed_token(secret: Seq<char>, aud: Seq<char>, exp: u64, sub: Seq<char>) -> Seq<char>;

/// The claims `(aud, exp, sub)` that `jsonwebtoken::decode`, with
/// `DecodingKey::from_secret(secret bytes)` and `Validation::default()`, gives back for
/// `token` when the clock does not reject its expiry. It is `None` when the token is not
/// three dot-separated parts, its header does not parse or is not HS256, its HS256
/// signature does not verify under the secret, or its claims are not an object that the
/// validation step can read with a string `aud`, an unsigned integer `exp` and a string
/// `sub`. None of these checks reads the clock.
pub uninterp spec fn verified_claims(secret: Seq<char>, token: Seq<char>) -> Option<(Seq<char>, u64, Seq<char>)>;

/// `jsonwebtoken::errors::Error`, the error of encoding or decoding a token.
#[verifier::external_type_specification]
#[verifier::external_body]
pub struct ExJwtError(jsonwebtoken::errors::Error);

/// Calls `chrono::Utc::now().timestamp()`: the current time in seconds since the Unix epoch.
/// Nothing is stated of the value: it is the clock's. (`Utc::now` panics when the system
/// clock reads a time before the epoch.)
#[verifier::external_body]
fn current_timestamp() -> i64 {
    chrono::Utc::now().timestamp()
}

/// Calls `jsonwebtoken::encode` with the default header, the claims object
/// `{"aud", "exp", "sub"}` and `EncodingKey::from_secret(secret.as_bytes())`.
/// Claimed: the result is `Ok` (with an HMAC key and the default HS256 header the
/// algorithm family check passes, a map of strings and an integer always serializes, and
/// HMAC signing cannot fail); it is the token that `signed_token` names; and `decode`
/// with the same secret reads back exactly these claims from it (the header is HS256,
/// the signature is the HMAC that `decode` recomputes, and the claims object holds the
/// three claims with their types).
#[verifier::external_body]
fn encode_claims(secret: &str, aud: &str, exp: u64, sub: &str) -> (token: Result<String, jsonwebtoken::errors::Error>)
    ensures
        token is Ok,
        token matches Ok(t) ==> t@ == signed_token(secret@, aud@, exp, sub@) && verified_claims(secret@, t@)
            == Some((aud@, exp, sub@)),
{
    let mut claims = serde_json::Map::new();
    claims.insert("aud".to_string(), serde_json::Value::from(aud));
    claims.insert("exp".to_string(), serde_json::Value::from(exp));
    claims.insert("sub".to_string(), serde_json::Value::from(sub));
    let key = jsonwebtoken::EncodingKey::from_secret(secret.as_bytes());
    jsonwebtoken::encode(&jsonwebtoken::Header::default(), &claims, &key)
}

/// Calls `jsonwebtoken::decode` with `DecodingKey::from_secret(secret.as_bytes())` and
/// `Validation::default()` (HS256, `exp` required and not past, with 60 s leeway), and
/// takes the claims `aud` (a string), `exp` (an unsigned integer) and `sub` (a string).
/// Claimed: what comes back is what `verified_claims` names, or nothing; a token without
/// verified claims gives nothing; and a token whose verified expiry is `NEVER_EXPIRES` is
/// always accepted, since `validate` refuses such claims only when
/// `exp < now - leeway`, which no clock reading makes true for that expiry. Whether a
/// token with any other expiry is accepted depends on the clock and is not stated.
/// (`decode` panics, instead of returning, when the system clock reads before the Unix
/// epoch.)
#[verifier::external_body]
fn decode_claims(secret: &str, token: &str) -> (claims: Option<(String, u64, String)>)
    ensures
        match verified_claims(secret@, token@) {
            Some(v) => (claims matches Some(c) ==> c.0@ == v.0 && c.1 == v.1 && c.2@ == v.2) && (v.1
                == NEVER_EXPIRES ==> claims is Some),
            None => claims is None,
        },
{
    let key = jsonwebtoken::DecodingKey::from_secret(secret.as_bytes());
    let validation = jsonwebtoken::Validation::default();
    let data = jsonwebtoken::decode::<serde_json::Map<String, serde_json::Value>>(token, &key, &validation).ok()?;
    let aud = data.claims.get("aud")?.as_str()?.to_string();
    let exp = data.claims.get("exp")?.as_u64()?;
    let sub = data.claims.get("sub")?.as_str()?.to_string();
    Some((aud, exp, sub))
}

impl Claims {
    /// The claims of a token issued to `uid` at `issued_at`.
    pub fn issued_to(uid: &str, issued_at: i64) -> (claims: Claims)
        ensures
            claims.aud@ == audience(),
            claims.exp == expiry(issued_at),
            claims.sub@ == uid@,
    {
        proof {
            reveal_strlit("bevy-studio");
        }
        Claims {
            aud: String::from_str("bevy-studio"),
            exp: (issued_at as u64).wrapping_add(TOKEN_LIFETIME),
            sub: String::from_str(uid),
        }
    }
}

/// The session token for `uid` issued at `issued_at`; checked against the same secret,
/// its claims are the audience, the expiry 28 days on, and `uid`.
pub fn mint_jwt_at(jwt_secret: &str, uid: &str, issued_at: i64) -> (token: String)
    ensures
        token@ == signed_token(jwt_secret@, audience(), expiry(issued_at), uid@),
        verified_claims(jwt_secret@, token@) == Some((audience(), expiry(issued_at), uid@)),
{
    let claims = Claims::issued_to(uid, issued_at);
    match encode_claims(jwt_secret, claims.aud.as_str(), claims.exp, claims.sub.as_str()) {
        Ok(token) => token,
        Err(_) => String::new(),
    }
}

/// A session token for `uid`, valid for 28 days from now.
pub fn mint_jwt(jwt_secret: &str, uid: &str) -> (token: String)
    ensures
        exists|issued_at: i64|
            token@ == signed_token(jwt_secret@, audience(), expiry(issued_at), uid@) && verified_claims(
                jwt_secret@,
                token@,
            ) == Some((audience(), expiry(issued_at), uid@)),
{
    let now = current_timestamp();
    mint_jwt_at(jwt_secret, uid, now)
}

/// The user id that a session token names, if the token checks out against the secret
/// and has not expired: a key whose signature does not verify, or whose claims cannot be
/// read, names nobody; an accepted key names the subject of its verified claims; one whose
/// verified expiry is `NEVER_EXPIRES` is always accepted.
pub fn validate_jwt(jwt_secret: &str, key: &str) -> (user_id: Option<String>)
    ensures
        match verified_claims(jwt_secret@, key@) {
            Some(v) => (user_id matches Some(u) ==> u@ == v.2) && (v.1 == NEVER_EXPIRES ==> user_id is Some),
            None => user_id is None,
        },
{
    let claims = decode_claims(jwt_secret, key);
    subject_of(claims)
}

/// The subject of decoded claims: the user a token names once its claims were accepted.
pub fn subject_of(claims: Option<(String, u64, String)>) -> (user_id: Option<String>)
    ensures
        match claims {
            Some(c) => user_id matches Some(u) && u@ == c.2@,
            None => user_id is None,
        },
{
    match claims {
        Some((_aud, _exp, sub)) => Some(sub),
        None => None,
    }
}

impl JWTError {
    /// The HTTP status a refused token is answered with (401 Unauthorized).
    pub fn status(&self) -> (code: u16)
        ensures
            code == 401,
    {
        401
    }
}

impl JWTAuthorized {
    /// A request is authorized as the user its token names, or refused as invalid when the
    /// token names nobody.
    pub fn from_validation(user_id: Option<String>) -> (outcome: Result<JWTAuthorized, JWTError>)
        ensures
            match user_id {
                Some(u) => outcome matches Ok(a) && a.0@ == u@,
                None => outcome matches Err(JWTError::Invalid),
            },
    {
        match user_id {
            Some(user_id) => Ok(JWTAuthorized(user_id)),
            None => Err(JWTError::Invalid),
        }
    }

    /// Checks a request's `Authorization` header value against the secret: the request is
    /// authorized as the subject of the token's verified claims, or refused as invalid; a
    /// token without verified claims is always refused, and one whose verified expiry is
    /// `NEVER_EXPIRES` always accepted.
    pub fn from_token(jwt_secret: &JWTSecret, token: &str) -> (outcome: Result<JWTAuthorized, JWTError>)
        ensures
            match verified_claims(jwt_secret.0@, token@) {
                Some(v) => (outcome matches Ok(a) ==> a.0@ == v.2) && (v.1 == NEVER_EXPIRES ==> outcome is Ok),
                None => outcome matches Err(JWTError::Invalid),
            },
            outcome matches Err(e) ==> e is Invalid,
    {
        let user_id = validate_jwt(jwt_secret.0.as_str(), token);
        Self::from_validation(user_id)
    }

    /// The id of the authorized user.
    pub fn user_id(&self) -> (id: &str)
        ensures
            id@ == self.0@,
    {
        self.0.as_str()
    }
}

} // verus!
