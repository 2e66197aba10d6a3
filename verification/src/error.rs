//! The failure categories of the service and the body each is answered with.

use vstd::prelude::*;

verus! {

pub const BAD_REQUEST: u16 = 400;

pub const UNAUTHORIZED: u16 = 401;

pub const FORBIDDEN: u16 = 403;

pub const NOT_FOUND: u16 = 404;

pub const CONFLICT: u16 = 409;

pub const UNPROCESSABLE_ENTITY: u16 = 422;

pub const INTERNAL_SERVER_ERROR: u16 = 500;

/// The coarse category name of a status code.
pub open spec fn status_text(code: u16) -> Seq<char> {
    if code == UNAUTHORIZED {
        "Unauthorized"@
    } else if code == FORBIDDEN {
        "Forbidden"@
    } else if code == NOT_FOUND {
        "Not Found"@
    } else if code == BAD_REQUEST {
        "Bad Request"@
    } else if code == UNPROCESSABLE_ENTITY {
        "Unprocessable Entity"@
    } else if code == CONFLICT {
        "Conflict"@
    } else {
        "Internal Server Error"@
    }
}

/// The body of every failure: the messages in order, and the category name
/// of the status it is sent with.
#[derive(Debug)]
pub struct ErrorResponse {
    pub errors: Vec<String>,
    pub message: String,
}

impl ErrorResponse {
    /// Keeps the messages as given and derives the category from the status
    /// code alone.
    pub fn new(messages: Vec<String>, code: u16) -> (r: Self)
        ensures
            r.errors == messages,
            r.message@ == status_text(code),
    {
        let message: String = if code == UNAUTHORIZED {
            String::from_str("Unauthorized")
        } else if code == FORBIDDEN {
            String::from_str("Forbidden")
        } else if code == NOT_FOUND {
            String::from_str("Not Found")
        } else if code == BAD_REQUEST {
            String::from_str("Bad Request")
        } else if code == UNPROCESSABLE_ENTITY {
            String::from_str("Unprocessable Entity")
        } else if code == CONFLICT {
            String::from_str("Conflict")
        } else {
            String::from_str("Internal Server Error")
        };
        ErrorResponse { errors: messages, message }
    }
}

/// A status code together with the body it is sent with.
#[derive(Debug)]
pub struct ApiResponse {
    pub status: u16,
    pub body: ErrorResponse,
}

impl ApiResponse {
    /// A failure with a single message.
    pub fn single(status: u16, message: String) -> (r: Self)
        ensures
            r.status == status,
            r.body.errors@ == seq![message],
            crate::text::texts(r.body.errors@) == seq![message@],
            r.body.message@ == status_text(status),
    {
        let mut errors: Vec<String> = Vec::new();
        errors.push(message);
        assert(crate::text::texts(errors@) =~= seq![message@]);
        ApiResponse { status, body: ErrorResponse::new(errors, status) }
    }
}

/// The closed set of failures a handler may produce.
#[derive(Debug)]
pub enum ApiError {
    Forbidden,
    NotFound(String),
    BadRequest { errors: Vec<String> },
    /// A failure of the store, with the text the store gave for it.
    Database(String),
    InternalServer(String),
    Conflict(String),
    Unauthorized(String),
}

/// The status code of each failure.
pub open spec fn status_of(e: ApiError) -> u16 {
    match e {
        ApiError::Forbidden => FORBIDDEN,
        ApiError::NotFound(_) => NOT_FOUND,
        ApiError::BadRequest { .. } => BAD_REQUEST,
        ApiError::Database(_) => INTERNAL_SERVER_ERROR,
        ApiError::InternalServer(_) => INTERNAL_SERVER_ERROR,
        ApiError::Conflict(_) => CONFLICT,
        ApiError::Unauthorized(_) => UNAUTHORIZED,
    }
}

/// The fixed description of each failure category.
pub open spec fn description_of(e: ApiError) -> Seq<char> {
    match e {
        ApiError::Forbidden => "user may not perform this action"@,
        ApiError::NotFound(_) => "request path or resource not found"@,
        ApiError::BadRequest { .. } => "error in the request body"@,
        ApiError::Database(_) => "an error occurred with the database"@,
        ApiError::InternalServer(_) => "an internal server error occurred"@,
        ApiError::Conflict(_) => "a conflict occurred, eg: data already exists"@,
        ApiError::Unauthorized(_) => "invalid password or authorization token"@,
    }
}

/// The messages that a failure carries to the client, as texts.
pub open spec fn messages_of(e: ApiError) -> Seq<Seq<char>> {
    match e {
        ApiError::Forbidden => seq![description_of(e)],
        ApiError::NotFound(m) => seq![m@],
        ApiError::BadRequest { errors } => crate::text::texts(errors@),
        ApiError::Database(m) => seq![m@],
        ApiError::InternalServer(m) => seq![m@],
        ApiError::Conflict(m) => seq![m@],
        ApiError::Unauthorized(m) => seq![m@],
    }
}

impl ApiError {
    pub fn status_code(&self) -> (code: u16)
        ensures
            code == status_of(*self),
    {
        match self {
            ApiError::Forbidden => FORBIDDEN,
            ApiError::NotFound(_) => NOT_FOUND,
            ApiError::BadRequest { .. } => BAD_REQUEST,
            ApiError::Database(_) => INTERNAL_SERVER_ERROR,
            ApiError::InternalServer(_) => INTERNAL_SERVER_ERROR,
            ApiError::Conflict(_) => CONFLICT,
            ApiError::Unauthorized(_) => UNAUTHORIZED,
        }
    }

    /// The fixed description of the failure's category.
    pub fn description(&self) -> (r: String)
        ensures
            r@ == description_of(*self),
    {
        match self {
            ApiError::Forbidden => String::from_str("user may not perform this action"),
            ApiError::NotFound(_) => String::from_str("request path or resource not found"),
            ApiError::BadRequest { .. } => String::from_str("error in the request body"),
            ApiError::Database(_) => String::from_str("an error occurred with the database"),
            ApiError::InternalServer(_) => String::from_str("an internal server error occurred"),
            ApiError::Conflict(_) => String::from_str(
                "a conflict occurred, eg: data already exists",
            ),
            ApiError::Unauthorized(_) => String::from_str(
                "invalid password or authorization token",
            ),
        }
    }

    /// The response of a failure: its status code, its messages in order,
    /// and the category name of that status. A failure without a message of
    /// its own carries its category's description.
    pub fn into_response(self) -> (r: ApiResponse)
        ensures
            r.status == status_of(self),
            crate::text::texts(r.body.errors@) == messages_of(self),
            r.body.message@ == status_text(status_of(self)),
            r.body.errors@.len() == 0 <==> (self matches ApiError::BadRequest { errors }
                && errors@.len() == 0),
    {
        let code: u16 = self.status_code();
        match self {
            ApiError::BadRequest { errors } => ApiResponse {
                status: code,
                body: ErrorResponse::new(errors, code),
            },
            ApiError::NotFound(error) => ApiResponse::single(code, error),
            ApiError::Unauthorized(error) => ApiResponse::single(code, error),
            ApiError::Database(error) => ApiResponse::single(code, error),
            ApiError::InternalServer(error) => ApiResponse::single(code, error),
            ApiError::Conflict(error) => ApiResponse::single(code, error),
            ApiError::Forbidden => ApiResponse::single(code, ApiError::Forbidden.description()),
        }
    }
}

} // verus!
