//! The decisions of signup, login, listing and lookup. The store is asked
//! by the caller: each operation names what it asks of the store, and then
//! takes what the store answered and decides what follows.

use vstd::prelude::*;
use crate::claims::JwtUser;
use crate::error::ApiError;
use crate::password::{hash_failure_text, hash_password, password_matches, verify_password};
use crate::token::{auth_token_at, clock_in_range, fixed_message, issued, token_for, TokenError};
use crate::users::{
    AuthUser, AuthUserView, LoginBody, LoginUser, SignupBody, UserName, UserResponse,
};

verus! {

/// What the store answered when asked for a row with a given email.
#[derive(Debug)]
pub enum Lookup {
    /// There is such a row.
    Found,
    /// The store reports that there is none.
    Absent,
    /// The store failed, with its own text.
    Failed(String),
}

/// The row that a signup inserts.
#[derive(Debug)]
pub struct NewUser {
    pub email: String,
    pub password_hash: String,
    pub name: String,
}

/// What an operation asks of the user store.
#[derive(Debug)]
pub enum StoreRequest {
    /// Is there a row with this email?
    EmailTaken { email: String },
    /// Insert this row and give the id it got.
    Insert(NewUser),
    /// The id, password hash and name of the row with this email.
    Credentials { email: String },
    /// All rows, without their password hashes, in the store's order.
    AllUsers,
    /// The name of the row with this id.
    NameOf { id: String },
    /// Remove the row with this id.
    Remove { id: String },
}

impl StoreRequest {
    /// Whether the request changes the store.
    pub open spec fn writes(self) -> bool {
        self is Insert || self is Remove
    }
}

/// The ids of the store's rows after a request was served, given those
/// before it and, for an insert, the id that the new row got.
pub open spec fn rows_after(
    request: StoreRequest,
    rows: Set<Seq<char>>,
    new_id: Seq<char>,
) -> Set<Seq<char>> {
    match request {
        StoreRequest::Insert(_) => rows.insert(new_id),
        StoreRequest::Remove { id } => rows.remove(id@),
        _ => rows,
    }
}

/// A request that does not write leaves the store's rows as they were.
pub proof fn lemma_read_leaves_rows(
    request: StoreRequest,
    rows: Set<Seq<char>>,
    new_id: Seq<char>,
)
    requires
        !request.writes(),
    ensures
        rows_after(request, rows, new_id) == rows,
{
}

/// What a signup asks first: whether the email is taken.
pub fn signup_request(body: &SignupBody) -> (r: StoreRequest)
    ensures
        r matches StoreRequest::EmailTaken { email } && email@ == body.email@,
        !r.writes(),
{
    StoreRequest::EmailTaken { email: body.email.clone() }
}

/// What a login asks, and all it asks: the row with the body's email. It
/// does not change the store.
pub fn login_request(body: &LoginBody) -> (r: StoreRequest)
    ensures
        r matches StoreRequest::Credentials { email } && email@ == body.email@,
        !r.writes(),
{
    StoreRequest::Credentials { email: body.email.clone() }
}

/// What a listing asks.
pub fn find_all_request() -> (r: StoreRequest)
    ensures
        r is AllUsers,
        !r.writes(),
{
    StoreRequest::AllUsers
}

/// What a lookup by id asks.
pub fn find_by_id_request(id: String) -> (r: StoreRequest)
    ensures
        r == (StoreRequest::NameOf { id }),
        !r.writes(),
{
    StoreRequest::NameOf { id }
}

/// The failure that is reported where no token could be issued for want of
/// a usable clock.
pub open spec fn clock_failure(e: ApiError) -> bool {
    e matches ApiError::InternalServer(m) && m@ == fixed_message(TokenError::Clock)
}

/// The text of an optional column, empty where it is null.
pub open spec fn text_or_empty(column: Option<String>) -> Seq<char> {
    match column {
        Some(text) => text@,
        None => Seq::empty(),
    }
}

fn column_text(column: Option<String>) -> (r: String)
    ensures
        r@ == text_or_empty(column),
{
    match column {
        Some(text) => text,
        None => String::new(),
    }
}

/// The answer to a success at `now`: the user, with the token issued for
/// the user's id and the email of the request; `None` where no token is
/// issued.
pub open spec fn answer_for(
    id: Seq<char>,
    email: Seq<char>,
    name: Seq<char>,
    secret: Seq<char>,
    now: int,
) -> Option<AuthUserView> {
    match token_for(id, email, secret, now) {
        Some(token) => Some(AuthUserView { user_id: id, email, token, name }),
        None => None,
    }
}

/// The failure that is reported where no token was issued: that of the
/// clock where it is out of range, else one with the signer's text.
pub open spec fn token_failure(e: ApiError, now: int) -> bool {
    e is InternalServer && (!clock_in_range(now) ==> clock_failure(e))
}

fn answer(id: String, email: String, name: String, secret: &str, now: i64) -> (r: Result<
    AuthUser,
    ApiError,
>)
    ensures
        match answer_for(id@, email@, name@, secret@, now as int) {
            Some(a) => r is Ok && r->Ok_0@ == a && issued(
                a.token,
                secret@,
                id@,
                email@,
                now as int,
            ),
            None => r is Err && token_failure(r->Err_0, now as int),
        },
{
    let user = JwtUser { email: email.clone(), id: id.clone() };
    match auth_token_at(user, secret, now) {
        Ok(token) => Ok(AuthUser { user_id: id, email, token, name }),
        Err(e) => Err(ApiError::InternalServer(e.message())),
    }
}

/// The step of a signup after the store was asked for the email. An email
/// that is taken is a conflict, whatever else holds; a store that failed is
/// reported with its text; else the password is hashed and the store is
/// asked to insert a row with the email, the name and a hash that accepts
/// the password.
pub fn signup(body: &SignupBody, lookup: Lookup) -> (r: Result<StoreRequest, ApiError>)
    ensures
        match lookup {
            Lookup::Found => r matches Err(ApiError::Conflict(m)) && m@
                == "email already exists"@,
            Lookup::Failed(text) => r matches Err(ApiError::Database(m)) && m@ == text@,
            Lookup::Absent => match r {
                Ok(request) => {
                    &&& request matches StoreRequest::Insert(row)
                    &&& request->Insert_0.email@ == body.email@
                    &&& request->Insert_0.name@ == body.name@
                    &&& password_matches(body.password@, request->Insert_0.password_hash@)
                },
                Err(e) => e matches ApiError::InternalServer(m) && exists|reason: Seq<char>|
                    m@ == #[trigger] hash_failure_text(reason),
            },
        },
{
    match lookup {
        Lookup::Found => Err(ApiError::Conflict(String::from_str("email already exists"))),
        Lookup::Failed(text) => Err(ApiError::Database(text)),
        Lookup::Absent => match hash_password(body.password.clone()) {
            Ok(password_hash) => Ok(
                StoreRequest::Insert(
                    NewUser { email: body.email.clone(), password_hash, name: body.name.clone() },
                ),
            ),
            Err(report) => Err(ApiError::InternalServer(report)),
        },
    }
}

/// Why a signup failed after the store was asked to insert, and what is
/// asked of the store to take the row back, where one was inserted.
#[derive(Debug)]
pub struct SignupFailure {
    pub error: ApiError,
    pub undo: Option<StoreRequest>,
}

/// The last step of a signup, after the store was asked to insert: it gave
/// the new user's id, or failed with its text. With the id, the answer
/// carries the token issued at `now`; where none is issued, the failure
/// asks for the removal of the row that was inserted, so that a signup
/// that fails leaves no row.
pub fn signup_inserted(
    body: SignupBody,
    inserted: Result<String, String>,
    secret: &str,
    now: i64,
) -> (r: Result<AuthUser, SignupFailure>)
    ensures
        match inserted {
            Err(text) => {
                &&& r is Err
                &&& r->Err_0.error matches ApiError::Database(m) && m@ == text@
                &&& r->Err_0.undo is None
            },
            Ok(id) => match answer_for(id@, body.email@, body.name@, secret@, now as int) {
                Some(a) => r is Ok && r->Ok_0@ == a && issued(
                    a.token,
                    secret@,
                    id@,
                    body.email@,
                    now as int,
                ),
                None => {
                    &&& r is Err
                    &&& token_failure(r->Err_0.error, now as int)
                    &&& r->Err_0.undo matches Some(StoreRequest::Remove { id: gone }) && gone@
                        == id@
                },
            },
        },
{
    match inserted {
        Err(text) => Err(SignupFailure { error: ApiError::Database(text), undo: None }),
        Ok(id) => {
            let gone: String = id.clone();
            match answer(id, body.email, body.name, secret, now) {
                Ok(user) => Ok(user),
                Err(error) => Err(
                    SignupFailure { error, undo: Some(StoreRequest::Remove { id: gone }) },
                ),
            }
        },
    }
}

/// A signup that failed after its row was inserted leaves the store's rows
/// as they were before the insert, once what the failure asks for is done.
pub proof fn lemma_failed_signup_leaves_no_row(
    rows: Set<Seq<char>>,
    insert: StoreRequest,
    id: Seq<char>,
    undo: StoreRequest,
)
    requires
        insert is Insert,
        !rows.contains(id),
        undo matches StoreRequest::Remove { id: gone } && gone@ == id,
    ensures
        rows_after(undo, rows_after(insert, rows, id), id) == rows,
{
    assert(rows.insert(id).remove(id) =~= rows);
}

/// `r` is what a login decides at `now`, given what the store answered
/// when asked for the row with the body's email. A store that failed, or
/// found no row, is reported with its text. A password that the stored
/// hash does not accept is unauthorized; a null hash accepts none. Else
/// the answer carries the token issued at `now`, and the login succeeds
/// exactly where one is issued.
pub open spec fn login_decides(
    r: Result<AuthUser, ApiError>,
    email: Seq<char>,
    password: Seq<char>,
    found: Result<LoginUser, String>,
    secret: Seq<char>,
    now: int,
) -> bool {
    match found {
        Err(text) => r matches Err(ApiError::Database(m)) && m@ == text@,
        Ok(row) => if !password_matches(password, text_or_empty(row.password)) {
            r matches Err(ApiError::Unauthorized(m)) && m@ == "incorrect email or password"@
        } else {
            match answer_for(
                text_or_empty(row.user_id),
                email,
                text_or_empty(row.name),
                secret,
                now,
            ) {
                Some(a) => r is Ok && r->Ok_0@ == a && issued(
                    a.token,
                    secret,
                    text_or_empty(row.user_id),
                    email,
                    now,
                ),
                None => r is Err && token_failure(r->Err_0, now),
            }
        },
    }
}

/// A login, after the store was asked for the row with the body's email.
/// The outcome rests on the arguments alone, and nothing more is asked of
/// the store.
pub fn login(body: LoginBody, found: Result<LoginUser, String>, secret: &str, now: i64) -> (r:
    Result<AuthUser, ApiError>)
    ensures
        login_decides(r, body.email@, body.password@, found, secret@, now as int),
{
    match found {
        Err(text) => Err(ApiError::Database(text)),
        Ok(row) => {
            let stored: String = column_text(row.password);
            if !verify_password(body.password.as_str(), stored.as_str()) {
                return Err(
                    ApiError::Unauthorized(String::from_str("incorrect email or password")),
                );
            }
            answer(column_text(row.user_id), body.email, column_text(row.name), secret, now)
        },
    }
}

/// A login against a row whose hash accepts the password, as the hash that
/// a signup stores does, succeeds where a token is issued, with the id and
/// the name of the row and the email of the request.
pub proof fn lemma_login_after_signup(
    r: Result<AuthUser, ApiError>,
    email: Seq<char>,
    password: Seq<char>,
    row: LoginUser,
    secret: Seq<char>,
    now: int,
)
    requires
        password_matches(password, text_or_empty(row.password)),
        token_for(text_or_empty(row.user_id), email, secret, now) is Some,
        login_decides(r, email, password, Ok(row), secret, now),
    ensures
        r is Ok,
        r->Ok_0.user_id@ == text_or_empty(row.user_id),
        r->Ok_0.email@ == email,
        r->Ok_0.name@ == text_or_empty(row.name),
{
}

/// Two logins with the same arguments end alike: both succeed with the
/// same answer, or both fail with the same status; and but for a failure
/// of the signer, whose text is its own, with the same message.
pub proof fn lemma_login_repeatable(
    first: Result<AuthUser, ApiError>,
    second: Result<AuthUser, ApiError>,
    email: Seq<char>,
    password: Seq<char>,
    found: Result<LoginUser, String>,
    secret: Seq<char>,
    now: int,
)
    requires
        login_decides(first, email, password, found, secret, now),
        login_decides(second, email, password, found, secret, now),
    ensures
        first is Ok <==> second is Ok,
        first is Ok ==> first->Ok_0@ == second->Ok_0@,
        first is Err ==> crate::error::status_of(first->Err_0) == crate::error::status_of(
            second->Err_0,
        ),
        first is Err && !(first->Err_0 is InternalServer && clock_in_range(now))
            ==> crate::error::messages_of(first->Err_0) == crate::error::messages_of(
            second->Err_0,
        ),
{
}

/// The listing of all users: the rows as the store gave them, in its order,
/// or its failure.
pub fn find_all(rows: Result<Vec<UserResponse>, String>) -> (r: Result<
    Vec<UserResponse>,
    ApiError,
>)
    ensures
        match rows {
            Ok(users) => r == Ok::<Vec<UserResponse>, ApiError>(users),
            Err(text) => r == Err::<Vec<UserResponse>, ApiError>(ApiError::Database(text)),
        },
{
    match rows {
        Ok(users) => Ok(users),
        Err(text) => Err(ApiError::Database(text)),
    }
}

/// The lookup of one user's name: the stored name, exactly; not found where
/// the store has no such id; an internal failure where the store failed.
pub fn find_by_id(row: Result<Option<String>, String>) -> (r: Result<UserName, ApiError>)
    ensures
        match row {
            Ok(Some(name)) => r matches Ok(found) && found.name == name,
            Ok(None) => r matches Err(ApiError::NotFound(m)) && m@ == "User not found"@,
            Err(text) => r == Err::<UserName, ApiError>(ApiError::InternalServer(text)),
        },
{
    match row {
        Ok(Some(name)) => Ok(UserName { name }),
        Ok(None) => Err(ApiError::NotFound(String::from_str("User not found"))),
        Err(text) => Err(ApiError::InternalServer(text)),
    }
}

} // verus!
