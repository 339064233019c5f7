//! Role-gated CRUD over a single resource table.
//!
//! The core of the library is the authorization gate placed in front of every
//! mutating operation: decode a bearer token into claims, resolve the claims'
//! subject to a live user record, and enforce a minimum-role policy. The
//! pipeline short-circuits at the first failure and maps every outcome to a fixed
//! HTTP status and body shape.

pub mod auth;
pub mod gateway;
pub mod roles;
pub mod store;
pub mod users;
