//! The bodies that the endpoints take and give, with the rules of each.

use vstd::prelude::*;
use crate::validation::{
    check_views, error_transformer, messages_of, run_checks, FieldCheck, FieldCheckView,
    FieldViolation, FieldViolationView, Rule, TransformValidationErrors, Validate,
};

verus! {

/// A plain greeting.
#[derive(Debug)]
pub struct Message {
    pub message: String,
}

impl Message {
    pub fn new(self) -> (r: Self)
        ensures
            r.message == self.message,
    {
        Message { message: self.message }
    }
}

/// The greeting of the service's root.
pub fn hello_world() -> (r: Message)
    ensures
        r.message@ == "Welcome to Auth API"@,
{
    let message = Message { message: String::from_str("Welcome to Auth API") };
    message.new()
}

/// What a successful signup or login returns.
#[derive(Debug)]
pub struct AuthUser {
    pub user_id: String,
    pub email: String,
    pub token: String,
    pub name: String,
}

/// An answer as plain values.
pub struct AuthUserView {
    pub user_id: Seq<char>,
    pub email: Seq<char>,
    pub token: Seq<char>,
    pub name: Seq<char>,
}

impl View for AuthUser {
    type V = AuthUserView;

    open spec fn view(&self) -> AuthUserView {
        AuthUserView {
            user_id: self.user_id@,
            email: self.email@,
            token: self.token@,
            name: self.name@,
        }
    }
}

/// The body of a signup.
#[derive(Debug)]
pub struct SignupBody {
    pub email: String,
    pub password: String,
    pub name: String,
}

/// The body of a login.
#[derive(Debug)]
pub struct LoginBody {
    pub email: String,
    pub password: String,
}

/// The row that a login reads.
#[derive(Debug)]
pub struct LoginUser {
    pub user_id: Option<String>,
    pub password: Option<String>,
    pub name: Option<String>,
}

/// A user as listed: everything but the password hash. `created_at` is the
/// store's timestamp as text.
#[derive(Debug)]
pub struct UserResponse {
    pub user_id: Option<String>,
    pub email: Option<String>,
    pub name: Option<String>,
    pub profile_link: Option<String>,
    pub created_at: Option<String>,
}

#[derive(Debug)]
pub struct UserName {
    pub name: String,
}

pub const EMAIL_MAX: u64 = 80;

pub const PASSWORD_MIN: u64 = 8;

pub const NAME_MIN: u64 = 2;

pub const NAME_MAX: u64 = 80;

fn field_check(field: &str, rule: Rule, value: &String) -> (r: FieldCheck)
    ensures
        r@ == (FieldCheckView { field: field@, rule, value: value@ }),
{
    FieldCheck { field: String::from_str(field), rule, value: value.clone() }
}

impl Validate for SignupBody {
    /// The email is an email address of at most 80 characters, the password
    /// has at least 8, the name between 2 and 80.
    open spec fn checks(&self) -> Seq<FieldCheckView> {
        seq![
            FieldCheckView { field: "email"@, rule: Rule::Email, value: self.email@ },
            FieldCheckView {
                field: "email"@,
                rule: Rule::Length { min: None, max: Some(EMAIL_MAX) },
                value: self.email@,
            },
            FieldCheckView {
                field: "password"@,
                rule: Rule::Length { min: Some(PASSWORD_MIN), max: None },
                value: self.password@,
            },
            FieldCheckView {
                field: "name"@,
                rule: Rule::Length { min: Some(NAME_MIN), max: Some(NAME_MAX) },
                value: self.name@,
            },
        ]
    }

    fn validate(&self) -> (errors: Vec<FieldViolation>) {
        let mut checks: Vec<FieldCheck> = Vec::new();
        checks.push(field_check("email", Rule::Email, &self.email));
        checks.push(
            field_check("email", Rule::Length { min: None, max: Some(EMAIL_MAX) }, &self.email),
        );
        checks.push(
            field_check(
                "password",
                Rule::Length { min: Some(PASSWORD_MIN), max: None },
                &self.password,
            ),
        );
        checks.push(
            field_check(
                "name",
                Rule::Length { min: Some(NAME_MIN), max: Some(NAME_MAX) },
                &self.name,
            ),
        );
        assert(check_views(checks@) =~= self.checks());
        run_checks(&checks)
    }
}

impl Validate for LoginBody {
    /// The email is an email address, the password has at least 8
    /// characters.
    open spec fn checks(&self) -> Seq<FieldCheckView> {
        seq![
            FieldCheckView { field: "email"@, rule: Rule::Email, value: self.email@ },
            FieldCheckView {
                field: "password"@,
                rule: Rule::Length { min: Some(PASSWORD_MIN), max: None },
                value: self.password@,
            },
        ]
    }

    fn validate(&self) -> (errors: Vec<FieldViolation>) {
        let mut checks: Vec<FieldCheck> = Vec::new();
        checks.push(field_check("email", Rule::Email, &self.email));
        checks.push(
            field_check(
                "password",
                Rule::Length { min: Some(PASSWORD_MIN), max: None },
                &self.password,
            ),
        );
        assert(check_views(checks@) =~= self.checks());
        run_checks(&checks)
    }
}

/// How the login endpoint words its validation failures.
#[derive(Debug)]
pub struct LoginValidationError;

impl TransformValidationErrors for LoginValidationError {
    open spec fn shaped(errors: Seq<FieldViolationView>) -> Seq<Seq<char>> {
        messages_of(errors)
    }

    fn new() -> Self {
        LoginValidationError
    }

    fn transform_errors(&self, errors: Vec<FieldViolation>) -> (messages: Vec<String>) {
        error_transformer(errors)
    }
}

/// How the signup endpoint words its validation failures.
#[derive(Debug)]
pub struct SignupValidationError;

impl TransformValidationErrors for SignupValidationError {
    open spec fn shaped(errors: Seq<FieldViolationView>) -> Seq<Seq<char>> {
        messages_of(errors)
    }

    fn new() -> Self {
        SignupValidationError
    }

    fn transform_errors(&self, errors: Vec<FieldViolation>) -> (messages: Vec<String>) {
        error_transformer(errors)
    }
}

} // verus!
