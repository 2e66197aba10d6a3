//! Issuing and verifying signed, time-limited bearer tokens.
//!
//! Signing and signature checking are done by `jsonwebtoken`; which claims
//! go into a token, and when a token's claims are accepted, is decided here.

use vstd::prelude::*;
use crate::claims::{Claims, ClaimsView, JwtUser};

verus! {

/// How long a token holds after it was issued, in seconds.
pub const TOKEN_LIFETIME: i64 = 86400;

/// `jsonwebtoken`'s error, carried through as it is.
#[verifier::external_type_specification]
#[verifier::external_body]
pub struct ExJwtError(jsonwebtoken::errors::Error);

/// The three claims as found in a token whose signature was accepted; a
/// claim that is absent, or not of its type, is `None`.
pub struct RawClaims {
    pub sub: Option<String>,
    pub email: Option<String>,
    pub exp: Option<i64>,
}

/// The three claims as plain values: subject, email, expiration.
pub type Payload = (Option<Seq<char>>, Option<Seq<char>>, Option<int>);

impl View for RawClaims {
    type V = Payload;

    open spec fn view(&self) -> Payload {
        (
            match self.sub {
                Some(s) => Some(s@),
                None => None,
            },
            match self.email {
                Some(s) => Some(s@),
                None => None,
            },
            match self.exp {
                Some(e) => Some(e as int),
                None => None,
            },
        )
    }
}

/// What `jsonwebtoken::decode` finds in `token` under the HS256 key
/// `secret`, with the check of the expiration time switched off: the three
/// claims, or `None` where it rejects the token.
pub uninterp spec fn jwt_payload(token: Seq<char>, secret: Seq<char>) -> Option<
    (Option<Seq<char>>, Option<Seq<char>>, Option<int>),
>;

/// The token that `jsonwebtoken::encode` makes, with the default header
/// (HS256), of the three claims under the key made of `secret`; `None`
/// where it gives an error.
pub uninterp spec fn jwt_token(
    sub: Seq<char>,
    email: Seq<char>,
    exp: int,
    secret: Seq<char>,
) -> Option<Seq<char>>;

/// Calls `jsonwebtoken::encode` with the default header (HS256) on the three
/// claims and the key made of `secret`. Trusted: the outcome is a function
/// of the four arguments, named `jwt_token`; and a token that it returns
/// for a non-negative expiration decodes, under the same secret, to the
/// same three claims.
#[verifier::external_body]
fn jwt_encode(sub: &str, email: &str, exp: i64, secret: &str) -> (r: Result<
    String,
    jsonwebtoken::errors::Error,
>)
    ensures
        match r {
            Ok(token) => jwt_token(sub@, email@, exp as int, secret@) == Some(token@),
            Err(_) => jwt_token(sub@, email@, exp as int, secret@) is None,
        },
        r is Ok && exp >= 0 ==> jwt_payload(r->Ok_0@, secret@) == Some(
            (Some(sub@), Some(email@), Some(exp as int)),
        ),
{
    let mut claims = serde_json::Map::new();
    claims.insert("sub".to_string(), serde_json::Value::from(sub));
    claims.insert("email".to_string(), serde_json::Value::from(email));
    claims.insert("exp".to_string(), serde_json::Value::from(exp));
    let key = jsonwebtoken::EncodingKey::from_secret(secret.as_bytes());
    jsonwebtoken::encode(&jsonwebtoken::Header::default(), &claims, &key)
}

/// Calls `jsonwebtoken::decode` with the default validation (HS256, the
/// `exp` claim required) but for the comparison of `exp` with the clock,
/// which `claims_from_payload` makes. Trusted: the outcome is a function of
/// the token and the secret, named `jwt_payload`.
#[verifier::external_body]
fn jwt_decode(token: &str, secret: &str) -> (r: Result<RawClaims, jsonwebtoken::errors::Error>)
    ensures
        match r {
            Ok(raw) => jwt_payload(token@, secret@) == Some(raw@),
            Err(_) => jwt_payload(token@, secret@) is None,
        },
{
    let mut validation = jsonwebtoken::Validation::default();
    validation.validate_exp = false;
    let key = jsonwebtoken::DecodingKey::from_secret(secret.as_bytes());
    match jsonwebtoken::decode::<serde_json::Value>(token, &key, &validation) {
        Ok(data) => Ok(RawClaims {
            sub: data.claims.get("sub").and_then(serde_json::Value::as_str).map(str::to_string),
            email: data.claims.get("email").and_then(serde_json::Value::as_str).map(str::to_string),
            exp: data.claims.get("exp").and_then(serde_json::Value::as_i64),
        }),
        Err(e) => Err(e),
    }
}

/// The text that `jsonwebtoken` gives for one of its errors (its `Display`).
/// Nothing is claimed of it.
#[verifier::external_body]
fn jwt_error_text(e: &jsonwebtoken::errors::Error) -> (r: String) {
    e.to_string()
}

/// Calls `chrono::Utc::now` and takes its `timestamp`: the seconds since the
/// epoch on this machine's clock. Nothing is claimed of it.
#[verifier::external_body]
fn unix_now() -> (r: i64) {
    chrono::Utc::now().timestamp()
}

/// Why no token was issued, or why one was not accepted.
#[derive(Debug)]
pub enum TokenError {
    /// The clock reads a time from which no expiration can be computed.
    Clock,
    /// The token could not be signed; the text is the signer's.
    Signing(String),
    /// The token is malformed or its signature does not fit; the text is the
    /// verifier's.
    Rejected(String),
    /// The signature fits, but one of the three claims is missing.
    Incomplete,
    /// The signature fits, but the expiration time has passed.
    Expired,
}

/// The message of each failure other than those that carry their own.
pub open spec fn fixed_message(e: TokenError) -> Seq<char> {
    match e {
        TokenError::Clock => "system time is out of range"@,
        TokenError::Incomplete => "MissingRequiredClaim"@,
        TokenError::Expired => "ExpiredSignature"@,
        TokenError::Signing(m) => m@,
        TokenError::Rejected(m) => m@,
    }
}

impl TokenError {
    /// The failure's message.
    pub fn message(&self) -> (r: String)
        ensures
            r@ == fixed_message(*self),
    {
        match self {
            TokenError::Clock => String::from_str("system time is out of range"),
            TokenError::Incomplete => String::from_str("MissingRequiredClaim"),
            TokenError::Expired => String::from_str("ExpiredSignature"),
            TokenError::Signing(m) => m.clone(),
            TokenError::Rejected(m) => m.clone(),
        }
    }
}

/// Whether an expiration can be computed from `now`.
pub open spec fn clock_in_range(now: int) -> bool {
    0 <= now <= i64::MAX - TOKEN_LIFETIME
}

/// `token` holds, under `secret`, the claims issued at `now` for the user
/// `id` with `email`.
pub open spec fn issued(
    token: Seq<char>,
    secret: Seq<char>,
    id: Seq<char>,
    email: Seq<char>,
    now: int,
) -> bool {
    jwt_payload(token, secret) == Some((Some(id), Some(email), Some(now + TOKEN_LIFETIME)))
}

/// The claims that a token holds, where all three are there.
pub open spec fn held(payload: Option<Payload>) -> Option<ClaimsView> {
    match payload {
        Some((Some(sub), Some(email), Some(exp))) => Some(ClaimsView { sub, email, exp }),
        _ => None,
    }
}

/// The claims that are accepted from what a token holds, at the time `now`:
/// all three must be there, and the expiration must not lie in the past.
pub open spec fn accepted(payload: Option<Payload>, now: int) -> Option<ClaimsView> {
    match held(payload) {
        Some(claims) => if claims.exp < now {
            None
        } else {
            Some(claims)
        },
        None => None,
    }
}

/// The claims that verification at `now` yields for `token` under `secret`.
pub open spec fn verified(token: Seq<char>, secret: Seq<char>, now: int) -> Option<ClaimsView> {
    accepted(jwt_payload(token, secret), now)
}

/// The token that is issued at `now` for the user `id` with `email`: the
/// one the signer makes of the id, the email and an expiration 24 hours
/// after `now`. None is issued with a clock out of range, or where the
/// signer gives none.
pub open spec fn token_for(id: Seq<char>, email: Seq<char>, secret: Seq<char>, now: int) -> Option<
    Seq<char>,
> {
    if clock_in_range(now) {
        jwt_token(id, email, now + TOKEN_LIFETIME, secret)
    } else {
        None
    }
}

/// `r` is the outcome of issuing a token at `now` for the user `id` with
/// `email`: the token of `token_for`, which holds the claims issued; or,
/// where there is none, the failure of the clock or of the signer.
pub open spec fn issues(
    r: Result<String, TokenError>,
    id: Seq<char>,
    email: Seq<char>,
    secret: Seq<char>,
    now: int,
) -> bool {
    match r {
        Ok(token) => token_for(id, email, secret, now) == Some(token@) && issued(
            token@,
            secret,
            id,
            email,
            now,
        ),
        Err(e) => token_for(id, email, secret, now) is None && if clock_in_range(now) {
            e is Signing
        } else {
            e is Clock
        },
    }
}

/// Issues a token for `user` as of the time `now`: its subject is the
/// user's id, and it expires 24 hours after `now`. With the clock in range
/// a token is issued exactly where the signer makes one.
pub fn auth_token_at(user: JwtUser, secret: &str, now: i64) -> (r: Result<String, TokenError>)
    ensures
        issues(r, user.id@, user.email@, secret@, now as int),
        r is Ok <==> token_for(user.id@, user.email@, secret@, now as int) is Some,
{
    if now < 0 || now > i64::MAX - TOKEN_LIFETIME {
        return Err(TokenError::Clock);
    }
    let exp: i64 = now + TOKEN_LIFETIME;
    match jwt_encode(user.id.as_str(), user.email.as_str(), exp, secret) {
        Ok(token) => Ok(token),
        Err(e) => Err(TokenError::Signing(jwt_error_text(&e))),
    }
}

/// Issues a token for `user` as of this machine's clock: the outcome is
/// that of `auth_token_at` at the time the clock reads.
pub fn auth_token(user: JwtUser, secret: &str) -> (r: Result<String, TokenError>)
    ensures
        exists|now: i64| #[trigger] issues(r, user.id@, user.email@, secret@, now as int),
{
    let now: i64 = unix_now();
    let r = auth_token_at(user, secret, now);
    assert(issues(r, user.id@, user.email@, secret@, now as int));
    r
}

/// Which failure verification ends in, where it fails.
pub open spec fn failure_fits(e: TokenError, payload: Option<Payload>) -> bool {
    match payload {
        None => e is Rejected,
        Some((Some(_), Some(_), Some(_))) => e is Expired,
        Some(_) => e is Incomplete,
    }
}

/// Decides on the claims found in a token whose signature was accepted.
pub fn claims_from_payload(raw: RawClaims, now: i64) -> (r: Result<Claims, TokenError>)
    ensures
        match r {
            Ok(claims) => accepted(Some(raw@), now as int) == Some(claims@),
            Err(e) => accepted(Some(raw@), now as int) is None && failure_fits(e, Some(raw@)),
        },
{
    match raw.sub {
        Some(sub) => match raw.email {
            Some(email) => match raw.exp {
                Some(exp) => if exp < now {
                    Err(TokenError::Expired)
                } else {
                    Ok(Claims { sub, email, exp })
                },
                None => Err(TokenError::Incomplete),
            },
            None => Err(TokenError::Incomplete),
        },
        None => Err(TokenError::Incomplete),
    }
}

/// Verifies `token` at the time `now`: the signature must fit `secret`, all
/// three claims must be there, and the expiration must not lie before `now`.
pub fn decode_jwt_at(token: &str, secret: &str, now: i64) -> (r: Result<Claims, TokenError>)
    ensures
        match r {
            Ok(claims) => verified(token@, secret@, now as int) == Some(claims@),
            Err(e) => verified(token@, secret@, now as int) is None && failure_fits(
                e,
                jwt_payload(token@, secret@),
            ),
        },
{
    match jwt_decode(token, secret) {
        Ok(raw) => claims_from_payload(raw, now),
        Err(e) => Err(TokenError::Rejected(jwt_error_text(&e))),
    }
}

/// Verifies `token` against this machine's clock. Whatever the clock reads,
/// claims that are returned are those the token holds, and a failure fits
/// what the token holds.
pub fn decode_jwt(token: &str, secret: &str) -> (r: Result<Claims, TokenError>)
    ensures
        match r {
            Ok(claims) => held(jwt_payload(token@, secret@)) == Some(claims@),
            Err(e) => failure_fits(e, jwt_payload(token@, secret@)),
        },
{
    let now: i64 = unix_now();
    decode_jwt_at(token, secret, now)
}

/// A token verifies, at the moment it was issued and at any time up to its
/// expiration, to claims with the subject and email it was issued for.
pub proof fn lemma_issued_token_verifies(
    token: Seq<char>,
    secret: Seq<char>,
    id: Seq<char>,
    email: Seq<char>,
    issued_at: int,
    now: int,
)
    requires
        issued(token, secret, id, email, issued_at),
        now <= issued_at + TOKEN_LIFETIME,
    ensures
        verified(token, secret, now) == Some(
            ClaimsView { sub: id, email, exp: issued_at + TOKEN_LIFETIME },
        ),
{
}

/// Claims that verification yields never lie in the past: a token whose
/// expiration is before `now` yields none.
pub proof fn lemma_expired_token_fails(token: Seq<char>, secret: Seq<char>, now: int)
    ensures
        match verified(token, secret, now) {
            Some(claims) => claims.exp >= now,
            None => true,
        },
        forall|sub: Option<Seq<char>>, email: Option<Seq<char>>, exp: int|
            jwt_payload(token, secret) == Some((sub, email, Some(exp))) && exp < now ==> verified(
                token,
                secret,
                now,
            ) is None,
{
}

} // verus!
