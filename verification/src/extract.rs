//! What is taken from a request before its handler runs: the caller's
//! identity, the validated body, the path's parameter.

use vstd::prelude::*;
use crate::claims::Claims;
use crate::error::{
    status_text, ApiError, ApiResponse, BAD_REQUEST, INTERNAL_SERVER_ERROR, UNAUTHORIZED,
};
use crate::text::{after_space, before_space, split_at_space, texts};
use crate::token::{
    decode_jwt, decode_jwt_at, failure_fits, held, jwt_payload, verified, TokenError,
};
use crate::validation::{
    violation_views, violations_of, FieldViolation, TransformValidationErrors, Validate,
};

verus! {

/// The authorization header of a request, as far as it could be read.
#[derive(Debug)]
pub enum AuthHeader {
    /// The request has no such header.
    Missing,
    /// The header's value is not text.
    Unreadable,
    Text(String),
}

/// An identity that was proved by a bearer token.
#[derive(Debug)]
pub struct Authorized<T>(pub T);

/// `r` is a failure with the given status and this one message.
pub open spec fn rejects_with(r: ApiResponse, status: u16, message: Seq<char>) -> bool {
    &&& r.status == status
    &&& texts(r.body.errors@) == seq![message]
    &&& r.body.message@ == status_text(status)
}

/// `r` is a failure with the given status and one message, whose text is
/// that of a token failure that fits what the token holds.
pub open spec fn rejects_token(r: ApiResponse, token: Seq<char>, secret: Seq<char>) -> bool {
    exists|e: TokenError|
        #![trigger failure_fits(e, jwt_payload(token, secret))]
        failure_fits(e, jwt_payload(token, secret)) && rejects_with(
            r,
            UNAUTHORIZED,
            crate::token::fixed_message(e),
        )
}

/// The scheme that a bearer token is presented under.
pub open spec fn bearer() -> Seq<char> {
    "Bearer"@
}

fn reject(status: u16, message: String) -> (r: ApiResponse)
    ensures
        rejects_with(r, status, message@),
{
    ApiResponse::single(status, message)
}

/// What the header alone decides: the failure it is answered with, or
/// `None` where it presents a token under the bearer scheme.
pub open spec fn header_failure(header: AuthHeader) -> Option<(u16, Seq<char>)> {
    match header {
        AuthHeader::Missing => Some((UNAUTHORIZED, "missing authorization header"@)),
        AuthHeader::Unreadable => Some(
            (INTERNAL_SERVER_ERROR, "Error converting authorization value to string"@),
        ),
        AuthHeader::Text(value) => if before_space(value@) != bearer() {
            Some((UNAUTHORIZED, "invalid authorization scheme"@))
        } else {
            None
        },
    }
}

/// The token that a header presents.
pub open spec fn presented_token(header: AuthHeader) -> Seq<char> {
    match header {
        AuthHeader::Text(value) => after_space(value@),
        _ => Seq::empty(),
    }
}

/// Decides what the header alone decides, and gives the token it presents.
/// The scheme is the text before the first space and must be `Bearer`; what
/// follows that space is the token.
pub fn bearer_token(header: &AuthHeader) -> (r: Result<String, ApiResponse>)
    ensures
        match header_failure(*header) {
            Some(failure) => r is Err && rejects_with(r->Err_0, failure.0, failure.1),
            None => r is Ok && r->Ok_0@ == presented_token(*header),
        },
{
    match header {
        AuthHeader::Missing => Err(
            reject(UNAUTHORIZED, String::from_str("missing authorization header")),
        ),
        AuthHeader::Unreadable => Err(
            reject(
                INTERNAL_SERVER_ERROR,
                String::from_str("Error converting authorization value to string"),
            ),
        ),
        AuthHeader::Text(value) => {
            let parts: (String, String) = split_at_space(value.as_str());
            if parts.0 != String::from_str("Bearer") {
                Err(reject(UNAUTHORIZED, String::from_str("invalid authorization scheme")))
            } else {
                Ok(parts.1)
            }
        },
    }
}

fn reject_token(e: TokenError, Ghost(token): Ghost<Seq<char>>, Ghost(secret): Ghost<Seq<char>>) -> (r:
    ApiResponse)
    requires
        failure_fits(e, jwt_payload(token, secret)),
    ensures
        rejects_token(r, token, secret),
{
    reject(UNAUTHORIZED, e.message())
}

impl Authorized<Claims> {
    /// Reads the caller's identity from the authorization header, against
    /// this machine's clock. What the header alone decides is decided as in
    /// `from_header_at`; whatever the clock reads, an identity that is
    /// returned is what the token holds.
    pub fn from_header(header: &AuthHeader, secret: &str) -> (r: Result<
        Authorized<Claims>,
        ApiResponse,
    >)
        ensures
            match header_failure(*header) {
                Some(failure) => r is Err && rejects_with(r->Err_0, failure.0, failure.1),
                None => match r {
                    Ok(identity) => held(jwt_payload(presented_token(*header), secret@)) == Some(
                        identity.0@,
                    ),
                    Err(response) => rejects_token(response, presented_token(*header), secret@),
                },
            },
    {
        match bearer_token(header) {
            Err(response) => Err(response),
            Ok(token) => match decode_jwt(token.as_str(), secret) {
                Ok(claims) => Ok(Authorized(claims)),
                Err(e) => Err(reject_token(e, Ghost(token@), Ghost(secret@))),
            },
        }
    }

    /// Reads the caller's identity from the authorization header, at the
    /// time `now`: the claims of the token it presents, where they verify.
    pub fn from_header_at(header: &AuthHeader, secret: &str, now: i64) -> (r: Result<
        Authorized<Claims>,
        ApiResponse,
    >)
        ensures
            match header_failure(*header) {
                Some(failure) => r is Err && rejects_with(r->Err_0, failure.0, failure.1),
                None => match verified(presented_token(*header), secret@, now as int) {
                    Some(claims) => r is Ok && r->Ok_0.0@ == claims,
                    None => r is Err && rejects_token(
                        r->Err_0,
                        presented_token(*header),
                        secret@,
                    ),
                },
            },
    {
        match bearer_token(header) {
            Err(response) => Err(response),
            Ok(token) => match decode_jwt_at(token.as_str(), secret, now) {
                Ok(claims) => Ok(Authorized(claims)),
                Err(e) => Err(reject_token(e, Ghost(token@), Ghost(secret@))),
            },
        }
    }
}

/// Why a path's parameter could not be read, with the reader's own text.
#[derive(Debug)]
pub enum PathRejection {
    /// The parameter is there but is not of the type asked for.
    FailedToDeserialize(String),
    /// The route has no such parameter.
    Missing(String),
    Other(String),
}

/// A parameter read from the request's path.
#[derive(Debug)]
pub struct CustomPath<T>(pub T);

/// The status and message that each failure to read the path is answered
/// with.
pub open spec fn path_failure_status(rejection: PathRejection) -> u16 {
    match rejection {
        PathRejection::FailedToDeserialize(_) => BAD_REQUEST,
        _ => INTERNAL_SERVER_ERROR,
    }
}

pub open spec fn path_failure_text(rejection: PathRejection) -> Seq<char> {
    match rejection {
        PathRejection::FailedToDeserialize(text) => text@,
        PathRejection::Missing(text) => text@,
        PathRejection::Other(text) => "Unhandled path rejection: "@ + text@,
    }
}

impl<T> CustomPath<T> {
    /// Passes a parameter on, or answers why there is none: a parameter of
    /// the wrong type is the caller's fault, anything else the server's.
    pub fn from_path(params: Result<T, PathRejection>) -> (r: Result<CustomPath<T>, ApiResponse>)
        ensures
            match params {
                Ok(value) => r is Ok && r->Ok_0.0 == value,
                Err(rejection) => r is Err && rejects_with(
                    r->Err_0,
                    path_failure_status(rejection),
                    path_failure_text(rejection),
                ),
            },
    {
        match params {
            Ok(value) => Ok(CustomPath(value)),
            Err(PathRejection::FailedToDeserialize(text)) => Err(reject(BAD_REQUEST, text)),
            Err(PathRejection::Missing(text)) => Err(reject(INTERNAL_SERVER_ERROR, text)),
            Err(PathRejection::Other(text)) => Err(
                reject(
                    INTERNAL_SERVER_ERROR,
                    String::from_str("Unhandled path rejection: ").concat(text.as_str()),
                ),
            ),
        }
    }
}

/// The group that holds the core of a parser's diagnostic: what stands
/// between a colon with a space and the words that give the line.
pub open spec fn diagnostic_pattern() -> Seq<char> {
    ": (.*?) at line"@
}

/// What the first group of `pattern` holds at its leftmost match in `text`,
/// as the `regex` crate finds it; `None` where there is no match, or the
/// pattern does not compile.
pub uninterp spec fn regex_first_group(pattern: Seq<char>, text: Seq<char>) -> Option<Seq<char>>;

/// Compiles `pattern` with `regex::Regex::new` and calls `captures` on
/// `text`. Trusted: the first group's text is a function of the two texts,
/// named `regex_first_group`.
#[verifier::external_body]
fn first_group(pattern: &str, text: &str) -> (r: Option<String>)
    ensures
        match r {
            Some(s) => regex_first_group(pattern@, text@) == Some(s@),
            None => regex_first_group(pattern@, text@) is None,
        },
{
    match regex::Regex::new(pattern) {
        Ok(re) => match re.captures(text) {
            Some(found) => found.get(1).map(|m| m.as_str().to_string()),
            None => None,
        },
        Err(_) => None,
    }
}

/// The diagnostic that is shown: its core where one was found, else the
/// whole text.
pub open spec fn shown_diagnostic(core: Option<Seq<char>>, text: Seq<char>) -> Seq<char> {
    match core {
        Some(c) => c,
        None => text,
    }
}

/// Picks the diagnostic that is shown.
pub fn pick_diagnostic(core: Option<String>, text: String) -> (r: String)
    ensures
        r@ == shown_diagnostic(
            match core {
                Some(c) => Some(c@),
                None => None,
            },
            text@,
        ),
{
    match core {
        Some(c) => c,
        None => text,
    }
}

/// Strips a parser's diagnostic of what surrounds its core.
pub fn core_diagnostic(text: String) -> (r: String)
    ensures
        r@ == shown_diagnostic(regex_first_group(diagnostic_pattern(), text@), text@),
{
    let core: Option<String> = first_group(": (.*?) at line", text.as_str());
    pick_diagnostic(core, text)
}

/// A body that could not be parsed, with the parser's diagnostic.
#[derive(Debug)]
pub struct BodyRejection {
    pub text: String,
}

/// A parsed body that passed its rules, with the strategy that would have
/// worded its failures.
#[derive(Debug)]
pub struct ValidatedBody<J, TVE>(pub J, pub TVE);

impl<J: Validate, TVE: TransformValidationErrors> ValidatedBody<J, TVE> {
    /// Validates a parsed body, or reports why there is none. A body that
    /// breaks a rule is a bad request, answered with one message for each
    /// violation, and is not passed on; a body that did not parse is a bad
    /// request too, answered with the core of the parser's diagnostic.
    pub fn from_parsed(parsed: Result<J, BodyRejection>) -> (r: Result<Self, ApiResponse>)
        ensures
            match parsed {
                Ok(body) => if violations_of(body.checks()).len() == 0 {
                    r is Ok && r->Ok_0.0 == body
                } else {
                    &&& r is Err
                    &&& r->Err_0.status == BAD_REQUEST
                    &&& r->Err_0.body.message@ == status_text(BAD_REQUEST)
                    &&& r->Err_0.body.errors@.len() == violations_of(body.checks()).len()
                    &&& texts(r->Err_0.body.errors@) == TVE::shaped(violations_of(body.checks()))
                },
                Err(rejection) => r is Err && rejects_with(
                    r->Err_0,
                    BAD_REQUEST,
                    shown_diagnostic(
                        regex_first_group(diagnostic_pattern(), rejection.text@),
                        rejection.text@,
                    ),
                ),
            },
    {
        match parsed {
            Ok(body) => {
                let strategy: TVE = TVE::new();
                let found: Vec<FieldViolation> = body.validate();
                assert(violation_views(found@).len() == found@.len());
                if found.len() == 0 {
                    Ok(ValidatedBody(body, strategy))
                } else {
                    let errors: Vec<String> = strategy.transform_errors(found);
                    let response = (ApiError::BadRequest { errors }).into_response();
                    assert(texts(response.body.errors@).len() == response.body.errors@.len());
                    assert(texts(errors@).len() == errors@.len());
                    Err(response)
                }
            },
            Err(rejection) => Err(reject(BAD_REQUEST, core_diagnostic(rejection.text))),
        }
    }
}

} // verus!
