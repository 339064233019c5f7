//! The resource gateway: the thin adapter that runs the authorization gate
//! in front of every mutating operation and delegates to the resource
//! store, mapping every terminal outcome to a fixed (status, body) pair.
//!
//! Every mutating operation — create, update and delete — uniformly
//! requires at least the WRITER role (the consistent reading of the create
//! gate; this uniformity is a deliberate policy decision). Read is
//! unauthenticated by design: that asymmetry is part of the observed
//! policy, not an oversight.

use vstd::prelude::*;

use crate::auth::{
    authorize, auth_header_of, spec_authorize, spec_message_of, spec_status_of, AuthError,
    TokenPayload, TokenVerifyError,
};
use crate::roles::UserRole;
use crate::store::{Location, LocationStore, StoreFault, UpsertLocation};
use crate::users::User;

verus! {

/// The body of a boundary response: the resource acted on, a structured
/// error message, or nothing.
#[derive(Clone, Debug, PartialEq)]
pub enum ResponseBody {
    Resource(Location),
    ErrorMessage(String),
    Empty,
}

/// A terminal (status, body) result handed to the boundary. Exactly one
/// terminal outcome is produced per request; nothing is silently dropped.
#[derive(Clone, Debug, PartialEq)]
pub struct ApiResponse {
    pub status: u16,
    pub body: ResponseBody,
}

/// The minimum role every mutating operation requires.
pub open spec fn spec_mutation_required_role() -> UserRole {
    UserRole::WRITER
}

/// Whether a response is the rejection that an authorization failure owes
/// the caller: the failure's status, and a structured non-empty error body
/// that does not leak the sub-case beyond its words.
pub open spec fn is_rejection(r: ApiResponse, e: AuthError) -> bool {
    &&& r.status as int == spec_status_of(e)
    &&& (r.body matches ResponseBody::ErrorMessage(m) && m@ == spec_message_of(e) && m@.len() > 0)
}

/// Builds the rejection for an authorization failure.
pub fn rejection(e: AuthError) -> (r: ApiResponse)
    ensures
        is_rejection(r, e),
{
    ApiResponse { status: e.status(), body: ResponseBody::ErrorMessage(e.message().to_owned()) }
}

fn not_found_response() -> (r: ApiResponse)
    ensures
        r.status == 404,
        (r.body matches ResponseBody::ErrorMessage(m) && m@.len() > 0),
{
    proof {
        reveal_strlit("Location not found");
    }
    ApiResponse {
        status: 404,
        body: ResponseBody::ErrorMessage("Location not found".to_owned()),
    }
}

fn store_failure_response() -> (r: ApiResponse)
    ensures
        r.status == 500,
        (r.body matches ResponseBody::ErrorMessage(m) && m@.len() > 0),
{
    proof {
        reveal_strlit("Failed to create location");
    }
    ApiResponse {
        status: 500,
        body: ResponseBody::ErrorMessage("Failed to create location".to_owned()),
    }
}

/// Creates a location behind the authorization pipeline. On a denial the store is untouched
/// and the caller receives the failure's status and body; once authorized,
/// the new row is stored under a fresh identifier and echoed back with 201.
/// The store's one fault, identifier exhaustion, surfaces as 500.
pub fn create_location(
    store: &mut LocationStore,
    headers: &http::HeaderMap,
    verified: Result<TokenPayload, TokenVerifyError>,
    lookup: Result<Option<User>, StoreFault>,
    now: i64,
    body: UpsertLocation,
) -> (r: ApiResponse)
    requires
        old(store).wf(),
    ensures
        final(store).wf(),
        (match spec_authorize(
            auth_header_of(*headers),
            verified,
            lookup,
            now,
            spec_mutation_required_role(),
        ) {
            Result::Err(e) => *final(store) == *old(store) && is_rejection(r, e),
            Result::Ok(_) => if old(store).spec_next_id() < i32::MAX as int {
                &&& r.status == 201
                &&& (r.body matches ResponseBody::Resource(loc)
                    && loc.id as int == old(store).spec_next_id()
                    && loc.star_system == body.star_system && loc.area == body.area
                    && !old(store)@.contains_key(loc.id)
                    && final(store)@ == old(store)@.insert(loc.id, loc))
                &&& final(store).spec_next_id() == old(store).spec_next_id() + 1
            } else {
                &&& r.status == 500
                &&& (r.body matches ResponseBody::ErrorMessage(m) && m@.len() > 0)
                &&& *final(store) == *old(store)
            },
        }),
{
    match authorize(headers, verified, lookup, now, UserRole::WRITER) {
        Result::Err(e) => rejection(e),
        Result::Ok(_authorized_user) => match store.create(body) {
            Result::Ok(loc) => ApiResponse { status: 201, body: ResponseBody::Resource(loc) },
            Result::Err(_) => store_failure_response(),
        },
    }
}

/// Reads a location. Unauthenticated by design: 200 with the stored row,
/// or 404 with a structured error body when the identifier is unknown.
pub fn read_location(store: &LocationStore, location_id: i32) -> (r: ApiResponse)
    ensures
        (if store@.contains_key(location_id) {
            r.status == 200 && (r.body matches ResponseBody::Resource(loc)
                && loc == store@[location_id])
        } else {
            r.status == 404 && (r.body matches ResponseBody::ErrorMessage(m) && m@.len() > 0)
        }),
{
    match store.get(location_id) {
        Option::Some(loc) => {
            let row = Location {
                id: loc.id,
                star_system: loc.star_system.clone(),
                area: loc.area.clone(),
            };
            ApiResponse { status: 200, body: ResponseBody::Resource(row) }
        },
        Option::None => not_found_response(),
    }
}

/// Updates a location behind the authorization pipeline. On a denial the store is untouched;
/// once authorized, an existing row is replaced and echoed back with 200,
/// and an unknown identifier answers 404 with the store untouched.
pub fn update_location(
    store: &mut LocationStore,
    headers: &http::HeaderMap,
    verified: Result<TokenPayload, TokenVerifyError>,
    lookup: Result<Option<User>, StoreFault>,
    now: i64,
    location_id: i32,
    body: UpsertLocation,
) -> (r: ApiResponse)
    requires
        old(store).wf(),
    ensures
        final(store).wf(),
        (match spec_authorize(
            auth_header_of(*headers),
            verified,
            lookup,
            now,
            spec_mutation_required_role(),
        ) {
            Result::Err(e) => *final(store) == *old(store) && is_rejection(r, e),
            Result::Ok(_) => if old(store)@.contains_key(location_id) {
                &&& r.status == 200
                &&& (r.body matches ResponseBody::Resource(loc) && loc.id == location_id
                    && loc.star_system == body.star_system && loc.area == body.area
                    && final(store)@ == old(store)@.insert(location_id, loc))
                &&& final(store).spec_next_id() == old(store).spec_next_id()
            } else {
                &&& r.status == 404
                &&& (r.body matches ResponseBody::ErrorMessage(m) && m@.len() > 0)
                &&& *final(store) == *old(store)
            },
        }),
{
    match authorize(headers, verified, lookup, now, UserRole::WRITER) {
        Result::Err(e) => rejection(e),
        Result::Ok(_authorized_user) => match store.update(location_id, body) {
            Option::Some(loc) => ApiResponse { status: 200, body: ResponseBody::Resource(loc) },
            Option::None => not_found_response(),
        },
    }
}

/// Deletes a location behind the authorization pipeline. On a denial the store is untouched;
/// once authorized, the row, if any, is removed and the caller receives
/// 204 with an empty body either way.
pub fn delete_location(
    store: &mut LocationStore,
    headers: &http::HeaderMap,
    verified: Result<TokenPayload, TokenVerifyError>,
    lookup: Result<Option<User>, StoreFault>,
    now: i64,
    location_id: i32,
) -> (r: ApiResponse)
    requires
        old(store).wf(),
    ensures
        final(store).wf(),
        (match spec_authorize(
            auth_header_of(*headers),
            verified,
            lookup,
            now,
            spec_mutation_required_role(),
        ) {
            Result::Err(e) => *final(store) == *old(store) && is_rejection(r, e),
            Result::Ok(_) => {
                &&& r.status == 204
                &&& r.body == ResponseBody::Empty
                &&& final(store)@ == old(store)@.remove(location_id)
                &&& !final(store)@.contains_key(location_id)
            },
        }),
{
    match authorize(headers, verified, lookup, now, UserRole::WRITER) {
        Result::Err(e) => rejection(e),
        Result::Ok(_authorized_user) => {
            let _ = store.delete(location_id);
            ApiResponse { status: 204, body: ResponseBody::Empty }
        },
    }
}

} // verus!

