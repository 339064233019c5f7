//! User-side data: the stored user record, the shapes that requests carry,
//! and the claims decoded from a bearer token.

use vstd::prelude::*;

use crate::roles::UserRole;

verus! {

/// A stored user record. The authorization core only ever reads it; the
/// user store owns it. `role_id` is the wire integer of the user's role.
#[derive(Clone, Debug, PartialEq)]
pub struct User {
    pub id: i32,
    pub email: String,
    pub password: String,
    pub fullname: String,
    pub role_id: i32,
}

/// The mutable fields of a user record, as carried by create and update
/// requests (no id).
#[derive(Clone, Debug, PartialEq)]
pub struct UpsertUser {
    pub email: String,
    pub password: String,
    pub fullname: String,
    pub role_id: i32,
}

/// The credentials carried by a login request.
#[derive(Clone, Debug, PartialEq)]
pub struct LoginUser {
    pub email: String,
    pub password: String,
}

/// The decoded, verified payload of a bearer token: subject, expiry and
/// role. Produced only by decoding a signed token, never from a request
/// body, and it lives only for one request's authorization check.
#[derive(Clone, Debug, PartialEq)]
pub struct Claims {
    pub sub: String,
    pub exp: i64,
    pub role: UserRole,
}

/// Whether a character sequence matches the fixed e-mail shape
/// `local@domain.tld` checked below. The match is a function of the
/// characters alone.
pub uninterp spec fn matches_email_pattern(s: Seq<char>) -> bool;

/// Relies on `regex::Regex::new` and `regex::Regex::is_match`: the pattern
/// is a fixed valid literal, so compilation cannot fail, and the match
/// result depends only on the input characters.
#[verifier::external_body]
fn email_pattern_match(s: &str) -> (r: bool)
    ensures
        r == matches_email_pattern(s@),
{
    let pattern = regex::Regex::new(r"^[A-Za-z0-9._%+-]+@[A-Za-z0-9.-]+\.[A-Za-z]{2,}$").unwrap();
    pattern.is_match(s)
}

impl UpsertUser {
    pub fn is_valid_email(&self) -> (r: bool)
        ensures
            r == matches_email_pattern(self.email@),
    {
        email_pattern_match(self.email.as_str())
    }
}

} // verus!
