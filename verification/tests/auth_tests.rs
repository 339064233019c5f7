use http::{HeaderMap, HeaderValue};
use location_gate::auth::{
    authorize, decode_claims, enforce_role_policy, extract_bearer_token, resolve_user, AuthError,
    TokenPayload, TokenVerifyError,
};
use location_gate::roles::UserRole;
use location_gate::store::StoreFault;
use location_gate::users::{UpsertUser, User};

const NOW: i64 = 1_700_000_000;

fn payload(sub: &str, exp: i64, role_id: i32) -> TokenPayload {
    TokenPayload { sub: sub.to_owned(), exp, role_id }
}

fn user(role_id: i32) -> User {
    User {
        id: 7,
        email: "u1@example.com".to_owned(),
        password: "hashed-pw".to_owned(),
        fullname: "Jo Doe".to_owned(),
        role_id,
    }
}

fn bearer_headers(token: &'static str) -> HeaderMap {
    let mut headers = HeaderMap::new();
    headers.insert("authorization", HeaderValue::from_static(token));
    headers
}

#[test]
fn bearer_token_is_the_bytes_after_the_scheme() {
    let value = b"Bearer abc.def".to_vec();
    let token = extract_bearer_token(Some(&value)).unwrap();
    assert_eq!(token, b"abc.def".to_vec());
}

#[test]
fn missing_header_is_a_missing_token() {
    assert_eq!(extract_bearer_token(None), Err(AuthError::MissingToken));
    let empty = Vec::new();
    assert_eq!(extract_bearer_token(Some(&empty)), Err(AuthError::MissingToken));
}

#[test]
fn malformed_scheme_is_a_missing_token() {
    let basic = b"Basic abc".to_vec();
    assert_eq!(extract_bearer_token(Some(&basic)), Err(AuthError::MissingToken));
    let lowercase = b"bearer abc".to_vec();
    assert_eq!(extract_bearer_token(Some(&lowercase)), Err(AuthError::MissingToken));
}

#[test]
fn tampered_signature_is_an_invalid_token() {
    let rejected = decode_claims(Err(TokenVerifyError::BadSignature), NOW);
    assert_eq!(rejected, Err(AuthError::InvalidToken));
    let malformed = decode_claims(Err(TokenVerifyError::MalformedPayload), NOW);
    assert_eq!(malformed, Err(AuthError::InvalidToken));
}

#[test]
fn expiry_in_the_past_is_expired() {
    let stale = decode_claims(Ok(payload("u1", NOW - 1, 2)), NOW);
    assert_eq!(stale, Err(AuthError::Expired));
    let boundary = decode_claims(Ok(payload("u1", NOW, 2)), NOW);
    assert_eq!(boundary, Err(AuthError::Expired));
}

#[test]
fn decode_is_repeatable_on_the_same_valid_token() {
    let first = decode_claims(Ok(payload("u1", NOW + 3600, 2)), NOW).unwrap();
    let second = decode_claims(Ok(payload("u1", NOW + 3600, 2)), NOW).unwrap();
    assert_eq!(first, second);
    assert_eq!(first.sub, "u1");
    assert_eq!(first.exp, NOW + 3600);
    assert_eq!(first.role, UserRole::WRITER);
}

#[test]
fn unmapped_role_integer_still_decodes() {
    let claims = decode_claims(Ok(payload("u1", NOW + 3600, 9)), NOW).unwrap();
    assert_eq!(claims.role, UserRole::INVALID);
}

#[test]
fn unknown_subject_is_a_denial_never_a_server_fault() {
    let denied = resolve_user(Ok(None));
    assert_eq!(denied, Err(AuthError::UnknownSubject));
    let status = AuthError::UnknownSubject.status();
    assert_ne!(status, 500);
    assert_eq!(status, 401);
}

#[test]
fn store_fault_is_unavailability_not_a_denial() {
    let failed = resolve_user(Err(StoreFault::Unavailable));
    assert_eq!(failed, Err(AuthError::StoreUnavailable));
    assert_eq!(AuthError::StoreUnavailable.status(), 503);
}

#[test]
fn enforcement_succeeds_iff_held_ordinal_reaches_the_requirement() {
    let roles = [
        UserRole::READER,
        UserRole::WRITER,
        UserRole::EDITOR,
        UserRole::ADMIN,
    ];
    for held in roles {
        for required in roles {
            let outcome = enforce_role_policy(user(held.to_int()), required);
            if held.to_int() >= required.to_int() {
                assert_eq!(outcome.unwrap().role_id, held.to_int());
            } else {
                assert_eq!(outcome, Err(AuthError::InsufficientRole));
            }
        }
    }
}

#[test]
fn a_role_satisfies_itself_as_requirement() {
    for n in 1..5i32 {
        let held = int_to_role_checked(n);
        let outcome = enforce_role_policy(user(n), held);
        assert!(outcome.is_ok());
    }
}

fn int_to_role_checked(n: i32) -> UserRole {
    let role = location_gate::roles::int_to_user_role(n);
    assert_ne!(role, UserRole::INVALID);
    role
}

#[test]
fn sentinel_role_never_passes_enforcement() {
    for required in [UserRole::READER, UserRole::WRITER, UserRole::EDITOR, UserRole::ADMIN] {
        let outcome = enforce_role_policy(user(-666), required);
        assert_eq!(outcome, Err(AuthError::InsufficientRole));
    }
}

#[test]
fn gate_reads_the_authorization_header() {
    let ok = authorize(
        &bearer_headers("Bearer tok"),
        Ok(payload("u1", NOW + 3600, 2)),
        Ok(Some(user(2))),
        NOW,
        UserRole::WRITER,
    );
    assert!(ok.is_ok());

    let no_header = authorize(
        &HeaderMap::new(),
        Ok(payload("u1", NOW + 3600, 2)),
        Ok(Some(user(2))),
        NOW,
        UserRole::WRITER,
    );
    assert_eq!(no_header, Err(AuthError::MissingToken));

    let bad_scheme = authorize(
        &bearer_headers("Basic tok"),
        Ok(payload("u1", NOW + 3600, 2)),
        Ok(Some(user(2))),
        NOW,
        UserRole::WRITER,
    );
    assert_eq!(bad_scheme, Err(AuthError::MissingToken));
}

#[test]
fn gate_short_circuits_at_the_first_failure() {
    let expired_before_lookup = authorize(
        &bearer_headers("Bearer tok"),
        Ok(payload("u1", NOW - 10, 2)),
        Err(StoreFault::Unavailable),
        NOW,
        UserRole::WRITER,
    );
    assert_eq!(expired_before_lookup, Err(AuthError::Expired));

    let unknown_before_enforce = authorize(
        &bearer_headers("Bearer tok"),
        Ok(payload("u1", NOW + 3600, 1)),
        Ok(None),
        NOW,
        UserRole::WRITER,
    );
    assert_eq!(unknown_before_enforce, Err(AuthError::UnknownSubject));
}

#[test]
fn error_messages_are_never_empty_and_leak_no_sub_case() {
    let denials = [
        AuthError::MissingToken,
        AuthError::InvalidToken,
        AuthError::Expired,
        AuthError::UnknownSubject,
    ];
    for e in denials {
        assert_eq!(e.message(), "Not authorized");
        assert!(!e.message().is_empty());
        assert_eq!(e.status(), 401);
    }
    assert!(!AuthError::InsufficientRole.message().is_empty());
    assert!(!AuthError::StoreUnavailable.message().is_empty());
}

#[test]
fn well_shaped_email_is_accepted() {
    let candidate = UpsertUser {
        email: "jo.doe+tag@example-mail.org".to_owned(),
        password: "hashed-pw".to_owned(),
        fullname: "Jo Doe".to_owned(),
        role_id: 1,
    };
    assert!(candidate.is_valid_email());
}

#[test]
fn malformed_email_is_rejected() {
    for bad in ["", "plainaddress", "no@tld", "a b@example.com", "@example.com"] {
        let candidate = UpsertUser {
            email: bad.to_owned(),
            password: "hashed-pw".to_owned(),
            fullname: "Jo Doe".to_owned(),
            role_id: 1,
        };
        assert!(!candidate.is_valid_email(), "accepted: {}", bad);
    }
}
