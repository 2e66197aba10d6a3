//! What a bearer token says of its holder.

use vstd::prelude::*;

verus! {

/// The signed payload of a token: who it was issued to, and until when it
/// holds, in seconds since the epoch.
#[derive(Debug)]
pub struct Claims {
    pub sub: String,
    pub email: String,
    pub exp: i64,
}

/// Claims as plain values.
pub struct ClaimsView {
    pub sub: Seq<char>,
    pub email: Seq<char>,
    pub exp: int,
}

impl View for Claims {
    type V = ClaimsView;

    open spec fn view(&self) -> ClaimsView {
        ClaimsView { sub: self.sub@, email: self.email@, exp: self.exp as int }
    }
}

/// The identity a token is issued for.
pub struct JwtUser {
    pub email: String,
    pub id: String,
}

} // verus!
