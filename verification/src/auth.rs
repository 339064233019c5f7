//! The authorization gate: bearer-token extraction, claims decoding,
//! subject resolution and minimum-role enforcement, composed as one
//! fail-fast pipeline with a single typed error channel.
//!
//! Two steps of the pipeline belong to outside collaborators: verifying a
//! token's signature and looking the subject up in the user store. The
//! functions here take those collaborators' outcomes as arguments and are
//! verified for every value of them; the caller performs the outside work
//! between the stages.

use vstd::prelude::*;

use crate::roles::{int_to_user_role, policy_allows, spec_role_of_int, UserRole};
use crate::store::StoreFault;
use crate::users::{Claims, User};

verus! {

/// Why an authorization attempt failed. The first five are the client-facing
/// "not authorized" class; `StoreUnavailable` is a transient infrastructure
/// fault, kept distinct so that operators can tell it from a denial.
#[derive(Clone, Copy, Debug, PartialEq, Eq, Structural)]
pub enum AuthError {
    MissingToken,
    InvalidToken,
    Expired,
    UnknownSubject,
    InsufficientRole,
    StoreUnavailable,
}

/// Why the token verifier rejected a token: a tampered signature, or a
/// payload that does not decode.
#[derive(Clone, Copy, Debug, PartialEq, Eq, Structural)]
pub enum TokenVerifyError {
    BadSignature,
    MalformedPayload,
}

/// What the token verifier hands back on success: subject, expiry as a
/// second count, and the wire integer of the role.
#[derive(Clone, Debug, PartialEq)]
pub struct TokenPayload {
    pub sub: String,
    pub exp: i64,
    pub role_id: i32,
}

/// The HTTP status of each failure. Decode and resolve failures map to 401,
/// a role denial to 403 and a store fault to 503. The resolve failure uses
/// the same status and message as the other 401 cases, so a caller cannot
/// probe which subjects exist.
pub open spec fn spec_status_of(e: AuthError) -> int {
    match e {
        AuthError::MissingToken => 401,
        AuthError::InvalidToken => 401,
        AuthError::Expired => 401,
        AuthError::UnknownSubject => 401,
        AuthError::InsufficientRole => 403,
        AuthError::StoreUnavailable => 503,
    }
}

/// The client-facing message of each failure. Every "not authorized" case
/// carries the same words, so the body leaks no sub-case.
pub open spec fn spec_message_of(e: AuthError) -> Seq<char> {
    match e {
        AuthError::StoreUnavailable => "Service unavailable"@,
        _ => "Not authorized"@,
    }
}

impl AuthError {
    pub fn status(&self) -> (s: u16)
        ensures
            s as int == spec_status_of(*self),
    {
        match self {
            AuthError::MissingToken => 401,
            AuthError::InvalidToken => 401,
            AuthError::Expired => 401,
            AuthError::UnknownSubject => 401,
            AuthError::InsufficientRole => 403,
            AuthError::StoreUnavailable => 503,
        }
    }

    /// A short, never-empty client-facing message.
    pub fn message(&self) -> (m: &'static str)
        ensures
            m@ == spec_message_of(*self),
            m@.len() > 0,
    {
        proof {
            reveal_strlit("Service unavailable");
            reveal_strlit("Not authorized");
        }
        match self {
            AuthError::StoreUnavailable => "Service unavailable",
            _ => "Not authorized",
        }
    }
}

/// The authorization header of a request, if present, as its raw bytes.
/// The entry is a function of the map alone.
pub uninterp spec fn auth_header_of(headers: http::HeaderMap) -> Option<Seq<u8>>;

#[verifier::external_type_specification]
#[verifier::external_body]
pub struct ExHeaderValue(http::HeaderValue);

#[verifier::external_type_specification]
#[verifier::external_body]
#[verifier::reject_recursive_types(T)]
pub struct ExHeaderMap<T>(http::HeaderMap<T>);

/// Relies on `http::HeaderMap::get` and `http::HeaderValue::as_bytes`:
/// reads the request's authorization entry, if any, as plain bytes.
#[verifier::external_body]
fn authorization_header(headers: &http::HeaderMap) -> (r: Option<Vec<u8>>)
    ensures
        r is Some <==> auth_header_of(*headers) is Some,
        (r matches Some(v) ==> auth_header_of(*headers) == Some(v@)),
{
    headers.get(http::header::AUTHORIZATION).map(|v| v.as_bytes().to_vec())
}

/// Whether a header value starts with the scheme bytes of `"Bearer "`.
pub open spec fn has_bearer_prefix(h: Seq<u8>) -> bool {
    &&& h.len() >= 7
    &&& h[0] == 66
    &&& h[1] == 101
    &&& h[2] == 97
    &&& h[3] == 114
    &&& h[4] == 101
    &&& h[5] == 114
    &&& h[6] == 32
}

/// The token carried by an authorization header: the bytes after the
/// `"Bearer "` scheme. A missing header and a malformed scheme are the same
/// failure, a missing token.
pub open spec fn spec_bearer_token(header: Option<Seq<u8>>) -> Result<Seq<u8>, AuthError> {
    match header {
        Option::None => Result::Err(AuthError::MissingToken),
        Option::Some(h) => if has_bearer_prefix(h) {
            Result::Ok(h.subrange(7, h.len() as int))
        } else {
            Result::Err(AuthError::MissingToken)
        },
    }
}

pub open spec fn header_bytes_view(header: Option<&Vec<u8>>) -> Option<Seq<u8>> {
    match header {
        Option::None => Option::None,
        Option::Some(v) => Option::Some(v@),
    }
}

/// Pulls the bearer token out of an authorization header value.
pub fn extract_bearer_token(header: Option<&Vec<u8>>) -> (r: Result<Vec<u8>, AuthError>)
    ensures
        (match r {
            Result::Ok(t) => spec_bearer_token(header_bytes_view(header)) == Result::<Seq<u8>,
                AuthError,
            >::Ok(t@),
            Result::Err(e) => spec_bearer_token(header_bytes_view(header)) == Result::<Seq<u8>,
                AuthError,
            >::Err(e),
        }),
{
    match header {
        Option::None => Result::Err(AuthError::MissingToken),
        Option::Some(v) => {
            if v.len() >= 7 && v[0] == 66 && v[1] == 101 && v[2] == 97 && v[3] == 114 && v[4]
                == 101 && v[5] == 114 && v[6] == 32 {
                let mut token: Vec<u8> = Vec::new();
                let mut i: usize = 7;
                while i < v.len()
                    invariant
                        7 <= i <= v@.len(),
                        token@ == v@.subrange(7, i as int),
                    decreases v@.len() - i,
                {
                    token.push(v[i]);
                    proof {
                        assert(v@.subrange(7, i as int).push(v@[i as int]) =~= v@.subrange(
                            7,
                            i as int + 1,
                        ));
                    }
                    i = i + 1;
                }
                proof {
                    assert(token@ =~= v@.subrange(7, v@.len() as int));
                }
                Result::Ok(token)
            } else {
                Result::Err(AuthError::MissingToken)
            }
        },
    }
}

/// What decoding makes of the verifier's outcome at a given instant: a
/// rejected token is invalid; an accepted one whose expiry is not in the
/// future is expired; any other is mapped to claims, with the role integer
/// sent through the total role mapping (an unmapped integer is a valid
/// decode outcome that no policy check will ever accept).
pub open spec fn spec_decode_claims(
    verified: Result<TokenPayload, TokenVerifyError>,
    now: i64,
) -> Result<Claims, AuthError> {
    match verified {
        Result::Err(_) => Result::Err(AuthError::InvalidToken),
        Result::Ok(p) => if p.exp <= now {
            Result::Err(AuthError::Expired)
        } else {
            Result::Ok(Claims { sub: p.sub, exp: p.exp, role: spec_role_of_int(p.role_id as int) })
        },
    }
}

/// Turns the token verifier's outcome into claims or a typed failure.
/// `now` is the instant the expiry is checked against.
pub fn decode_claims(verified: Result<TokenPayload, TokenVerifyError>, now: i64) -> (r: Result<
    Claims,
    AuthError,
>)
    ensures
        r == spec_decode_claims(verified, now),
{
    match verified {
        Result::Err(_) => Result::Err(AuthError::InvalidToken),
        Result::Ok(p) => {
            if p.exp <= now {
                Result::Err(AuthError::Expired)
            } else {
                let role = int_to_user_role(p.role_id);
                Result::Ok(Claims { sub: p.sub, exp: p.exp, role })
            }
        },
    }
}

/// What resolution makes of the user store's answer for the claims'
/// subject: no record is an unknown subject, a store fault is surfaced as
/// unavailability, distinct from every denial.
pub open spec fn spec_resolve_user(lookup: Result<Option<User>, StoreFault>) -> Result<
    User,
    AuthError,
> {
    match lookup {
        Result::Ok(Option::Some(u)) => Result::Ok(u),
        Result::Ok(Option::None) => Result::Err(AuthError::UnknownSubject),
        Result::Err(_) => Result::Err(AuthError::StoreUnavailable),
    }
}

/// Classifies the user store's answer for the claims' subject. The caller
/// performs the lookup itself and passes its outcome.
pub fn resolve_user(lookup: Result<Option<User>, StoreFault>) -> (r: Result<User, AuthError>)
    ensures
        r == spec_resolve_user(lookup),
{
    match lookup {
        Result::Ok(Option::Some(u)) => Result::Ok(u),
        Result::Ok(Option::None) => Result::Err(AuthError::UnknownSubject),
        Result::Err(_) => Result::Err(AuthError::StoreUnavailable),
    }
}

/// What enforcement decides: the resolved user passes iff the ordinal of
/// the user's stored role is at least the required role's ordinal.
pub open spec fn spec_enforce(user: User, required: UserRole) -> Result<User, AuthError> {
    if policy_allows(spec_role_of_int(user.role_id as int), required) {
        Result::Ok(user)
    } else {
        Result::Err(AuthError::InsufficientRole)
    }
}

/// Compares the resolved user's stored role against a required minimum.
/// Succeeds, returning the user, iff the user's role ordinal is at least
/// the requirement's; equality satisfies the minimum.
pub fn enforce_role_policy(user: User, required_role: UserRole) -> (r: Result<User, AuthError>)
    ensures
        r == spec_enforce(user, required_role),
        r is Ok <==> policy_allows(spec_role_of_int(user.role_id as int), required_role),
{
    let held = int_to_user_role(user.role_id);
    if held.to_int() >= required_role.to_int() {
        Result::Ok(user)
    } else {
        Result::Err(AuthError::InsufficientRole)
    }
}

/// The whole gate on one request: extract the bearer token, decode the
/// verifier's outcome, resolve the store's answer, enforce the minimum
/// role. The first failure short-circuits the rest and is the error
/// returned.
pub open spec fn spec_authorize(
    header: Option<Seq<u8>>,
    verified: Result<TokenPayload, TokenVerifyError>,
    lookup: Result<Option<User>, StoreFault>,
    now: i64,
    required: UserRole,
) -> Result<User, AuthError> {
    match spec_bearer_token(header) {
        Result::Err(e) => Result::Err(e),
        Result::Ok(_) => match spec_decode_claims(verified, now) {
            Result::Err(e) => Result::Err(e),
            Result::Ok(_) => match spec_resolve_user(lookup) {
                Result::Err(e) => Result::Err(e),
                Result::Ok(user) => spec_enforce(user, required),
            },
        },
    }
}

/// Runs the whole authorization pipeline on one request. `verified` is the token verifier's outcome
/// for the token this header carries, and `lookup` the user store's answer
/// for the decoded subject; the caller performs those two outside steps and
/// hands their outcomes in. Evaluation is strictly sequential and stops at
/// the first failure: a missing token is reported whatever the later
/// outcomes hold.
pub fn authorize(
    headers: &http::HeaderMap,
    verified: Result<TokenPayload, TokenVerifyError>,
    lookup: Result<Option<User>, StoreFault>,
    now: i64,
    required_role: UserRole,
) -> (r: Result<User, AuthError>)
    ensures
        r == spec_authorize(auth_header_of(*headers), verified, lookup, now, required_role),
{
    let header = authorization_header(headers);
    match extract_bearer_token(header.as_ref()) {
        Result::Err(e) => {
            return Result::Err(e);
        },
        Result::Ok(_) => {},
    }
    match decode_claims(verified, now) {
        Result::Err(e) => {
            return Result::Err(e);
        },
        Result::Ok(_) => {},
    }
    let user = match resolve_user(lookup) {
        Result::Err(e) => {
            return Result::Err(e);
        },
        Result::Ok(u) => u,
    };
    enforce_role_policy(user, required_role)
}

/// Decoding is repeatable: the same verifier outcome, checked at the same
/// instant, always yields the same claims value.
pub proof fn lemma_decode_repeatable(
    a: Result<TokenPayload, TokenVerifyError>,
    b: Result<TokenPayload, TokenVerifyError>,
    now: i64,
)
    requires
        a == b,
    ensures
        spec_decode_claims(a, now) == spec_decode_claims(b, now),
{
}

/// The decode-stage failure taxonomy: a missing header is a missing token,
/// a rejected signature or payload is an invalid token, and an expiry not
/// in the future is expired.
pub proof fn lemma_decode_failure_taxonomy(
    header: Option<Seq<u8>>,
    verified: Result<TokenPayload, TokenVerifyError>,
    now: i64,
)
    ensures
        header is None ==> spec_bearer_token(header) == Result::<Seq<u8>, AuthError>::Err(
            AuthError::MissingToken,
        ),
        verified is Err ==> spec_decode_claims(verified, now) == Result::<Claims, AuthError>::Err(
            AuthError::InvalidToken,
        ),
        (verified matches Result::Ok(p) && p.exp <= now) ==> spec_decode_claims(verified, now)
            == Result::<Claims, AuthError>::Err(AuthError::Expired),
{
}

/// An unknown subject is a client denial, never a server fault: resolution
/// reports it as such, and its status is in the 400 class, not 500.
pub proof fn lemma_unknown_subject_is_denial(lookup: Result<Option<User>, StoreFault>)
    requires
        lookup == Result::<Option<User>, StoreFault>::Ok(Option::<User>::None),
    ensures
        spec_resolve_user(lookup) == Result::<User, AuthError>::Err(AuthError::UnknownSubject),
        spec_status_of(AuthError::UnknownSubject) == 401,
        spec_status_of(AuthError::UnknownSubject) != 500,
{
}

} // verus!
