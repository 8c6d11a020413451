use fenster::auth::{require_authentication, require_authentication_at};
use fenster::fenster_error::FensterError;
use fenster::store::{SessionStore, StoredValue};
use fenster::token_entity::{
    create_token, create_token_with, find_token, refresh_access, refresh_access_with,
    revoke_access, token_from_user_id, user_id_from_token, MILLIS_PER_DAY,
};
use fenster::user_entity::User;

fn alice() -> User {
    User {
        id: "alice".to_string(),
        name: "Alice".to_string(),
        email: "alice@example-school.de".to_string(),
        author: false,
    }
}

const DAY: u128 = MILLIS_PER_DAY as u128;

#[test]
fn expiration_monotonicity() {
    let mut store = SessionStore::new();
    let pair = create_token_with(
        &alice(),
        1_000,
        "A1".to_string(),
        "R1".to_string(),
        &mut store,
    );
    assert_eq!(pair.auth_token.expiration_period, 1_000 + 7 * DAY);
    assert_eq!(pair.refresh_token.expiration_period, 1_000 + 14 * DAY);
    assert!(pair.auth_token.expiration_period < pair.refresh_token.expiration_period);
}

#[test]
fn expiration_monotonicity_real_clock() {
    let mut store = SessionStore::new();
    let pair = create_token(alice(), &mut store).unwrap();
    assert_eq!(
        pair.refresh_token.expiration_period,
        pair.auth_token.expiration_period + 7 * DAY
    );
    assert!(pair.auth_token.expiration_period >= 7 * DAY);
}

#[test]
fn round_trip_lookup() {
    let mut store = SessionStore::new();
    let pair = create_token_with(
        &alice(),
        1_000,
        "A1".to_string(),
        "R1".to_string(),
        &mut store,
    );
    assert_eq!(
        user_id_from_token(pair.auth_token.token.clone(), &store).unwrap(),
        "alice"
    );
    assert_eq!(
        user_id_from_token(pair.refresh_token.token.clone(), &store).unwrap(),
        "alice"
    );
}

#[test]
fn round_trip_lookup_real_clock() {
    let mut store = SessionStore::new();
    let pair = create_token(alice(), &mut store).unwrap();
    assert_eq!(
        user_id_from_token(pair.auth_token.token.clone(), &store).unwrap(),
        "alice"
    );
    assert_eq!(
        user_id_from_token(pair.refresh_token.token.clone(), &store).unwrap(),
        "alice"
    );
}

#[test]
fn refresh_preserves_refresh_token() {
    let mut store = SessionStore::new();
    let pair = create_token_with(
        &alice(),
        1_000,
        "A1".to_string(),
        "R1".to_string(),
        &mut store,
    );
    let refreshed = refresh_access_with(
        &"R1".to_string(),
        2_000,
        "A2".to_string(),
        &mut store,
    )
    .unwrap();
    assert_eq!(refreshed.refresh_token.token, "R1");
    assert_eq!(
        refreshed.refresh_token.expiration_period,
        pair.refresh_token.expiration_period
    );
    assert_eq!(refreshed.auth_token.token, "A2");
    assert_ne!(refreshed.auth_token.token, pair.auth_token.token);
    assert_eq!(refreshed.auth_token.expiration_period, 2_000 + 7 * DAY);
    assert!(user_id_from_token("A1".to_string(), &store).is_err());
    assert_eq!(user_id_from_token("A2".to_string(), &store).unwrap(), "alice");
}

#[test]
fn refresh_with_random_token_real_clock() {
    let mut store = SessionStore::new();
    let pair = create_token(alice(), &mut store).unwrap();
    let refreshed = refresh_access(pair.refresh_token.token.clone(), &mut store).unwrap();
    assert_eq!(refreshed.refresh_token.token, pair.refresh_token.token);
    assert_eq!(refreshed.auth_token.token.chars().count(), 16);
    assert!(user_id_from_token(refreshed.auth_token.token.clone(), &store).is_ok());
    assert_eq!(
        require_authentication(refreshed.auth_token.token.clone(), &store).unwrap(),
        "alice"
    );
}

#[test]
fn refresh_unknown_token_fails() {
    let mut store = SessionStore::new();
    let r = refresh_access_with(
        &"nobody".to_string(),
        1_000,
        "A9".to_string(),
        &mut store,
    );
    assert!(matches!(r, Err(FensterError::Unauthorized(_))));
}

#[test]
fn refresh_with_dangling_index_is_internal() {
    let mut store = SessionStore::new();
    // An index entry pointing at a user without a session record is a
    // dangling entry; the refresh resolves the user but finds no record.
    store.set_value(
        "R1".to_string(),
        StoredValue::UserId("alice".to_string()),
    );
    let r = refresh_access_with(&"R1".to_string(), 1_000, "A2".to_string(), &mut store);
    assert_eq!(r.unwrap_err(), FensterError::Internal(4445));
    assert_eq!(user_id_from_token("R1".to_string(), &store).unwrap(), "alice");
}

#[test]
fn second_login_replaces_the_session_record() {
    let mut store = SessionStore::new();
    create_token_with(
        &alice(),
        1_000,
        "A1".to_string(),
        "R1".to_string(),
        &mut store,
    );
    let second = create_token_with(
        &alice(),
        2_000,
        "A2".to_string(),
        "R2".to_string(),
        &mut store,
    );
    let record = token_from_user_id("alice".to_string(), &store).unwrap();
    assert_eq!(record.auth_token.token, second.auth_token.token);
    assert_eq!(record.refresh_token.token, second.refresh_token.token);
}

#[test]
fn revocation_is_total() {
    let mut store = SessionStore::new();
    create_token_with(
        &alice(),
        1_000,
        "A1".to_string(),
        "R1".to_string(),
        &mut store,
    );
    revoke_access("A1".to_string(), &mut store).unwrap();
    assert!(user_id_from_token("A1".to_string(), &store).is_err());
    assert!(user_id_from_token("R1".to_string(), &store).is_err());
    assert!(token_from_user_id("alice".to_string(), &store).is_err());
}

#[test]
fn revoke_after_refresh_removes_presented_token() {
    let mut store = SessionStore::new();
    create_token_with(
        &alice(),
        1_000,
        "A1".to_string(),
        "R1".to_string(),
        &mut store,
    );
    refresh_access_with(&"R1".to_string(), 2_000, "A2".to_string(), &mut store).unwrap();
    // The session record still names A1, so the presented token A2 is not
    // the record's auth token; revocation must remove its entry all the
    // same.
    revoke_access("A2".to_string(), &mut store).unwrap();
    assert!(user_id_from_token("A2".to_string(), &store).is_err());
    assert!(user_id_from_token("R1".to_string(), &store).is_err());
    assert!(token_from_user_id("alice".to_string(), &store).is_err());
}

#[test]
fn expired_refresh_token_does_not_refresh() {
    let mut store = SessionStore::new();
    create_token_with(
        &alice(),
        1_000,
        "A1".to_string(),
        "R1".to_string(),
        &mut store,
    );
    let r = refresh_access_with(
        &"R1".to_string(),
        1_000 + 15 * DAY,
        "A2".to_string(),
        &mut store,
    );
    assert_eq!(
        r.unwrap_err(),
        FensterError::Unauthorized("R1 token is expired.".to_string())
    );
    // The failed refresh left the store untouched.
    assert_eq!(user_id_from_token("A1".to_string(), &store).unwrap(), "alice");
    assert!(user_id_from_token("A2".to_string(), &store).is_err());
}

#[test]
fn refresh_at_the_expiration_instant_fails() {
    let mut store = SessionStore::new();
    create_token_with(
        &alice(),
        1_000,
        "A1".to_string(),
        "R1".to_string(),
        &mut store,
    );
    let r = refresh_access_with(
        &"R1".to_string(),
        1_000 + 14 * DAY,
        "A2".to_string(),
        &mut store,
    );
    assert!(matches!(r, Err(FensterError::Unauthorized(_))));
}

#[test]
fn revoke_unknown_token_fails() {
    let mut store = SessionStore::new();
    let r = revoke_access("ghost".to_string(), &mut store);
    assert!(matches!(r, Err(FensterError::Unauthorized(_))));
}

#[test]
fn find_token_resolves_the_session() {
    let mut store = SessionStore::new();
    let pair = create_token_with(
        &alice(),
        1_000,
        "A1".to_string(),
        "R1".to_string(),
        &mut store,
    );
    let found = find_token(&"A1".to_string(), &store).unwrap();
    assert_eq!(found.auth_token.token, pair.auth_token.token);
    assert_eq!(found.refresh_token.token, pair.refresh_token.token);
    assert_eq!(
        found.auth_token.expiration_period,
        pair.auth_token.expiration_period
    );
    assert!(matches!(
        find_token(&"unknown".to_string(), &store),
        Err(FensterError::Unauthorized(_))
    ));
}

#[test]
fn missing_session_record_is_internal() {
    let mut store = SessionStore::new();
    create_token_with(
        &alice(),
        1_000,
        "A1".to_string(),
        "R1".to_string(),
        &mut store,
    );
    let r = token_from_user_id("bob".to_string(), &store);
    assert_eq!(r.unwrap_err(), FensterError::Internal(4445));
}

#[test]
fn scenario_login_refresh_revoke() {
    let mut store = SessionStore::new();
    let now: u128 = 50_000;

    let pair = create_token_with(
        &alice(),
        now,
        "A1".to_string(),
        "R1".to_string(),
        &mut store,
    );
    assert_eq!(pair.auth_token.token, "A1");
    assert_eq!(pair.refresh_token.token, "R1");

    assert_eq!(
        require_authentication_at(&"A1".to_string(), now + 1, &store).unwrap(),
        "alice"
    );

    let refreshed = refresh_access_with(
        &"R1".to_string(),
        now + 2,
        "A2".to_string(),
        &mut store,
    )
    .unwrap();
    assert_eq!(refreshed.auth_token.token, "A2");
    assert_eq!(refreshed.refresh_token.token, "R1");

    assert!(matches!(
        require_authentication_at(&"A1".to_string(), now + 3, &store),
        Err(FensterError::Unauthorized(_))
    ));
    assert_eq!(
        require_authentication_at(&"A2".to_string(), now + 3, &store).unwrap(),
        "alice"
    );

    revoke_access("A2".to_string(), &mut store).unwrap();
    assert!(user_id_from_token("A2".to_string(), &store).is_err());
    assert!(require_authentication_at(&"A2".to_string(), now + 4, &store).is_err());
    assert!(refresh_access_with(&"R1".to_string(), now + 4, "A3".to_string(), &mut store).is_err());
}

#[test]
fn gate_accepts_fresh_session_real_clock() {
    let mut store = SessionStore::new();
    let pair = create_token(alice(), &mut store).unwrap();
    assert_eq!(
        require_authentication(pair.auth_token.token.clone(), &store).unwrap(),
        "alice"
    );
    assert!(matches!(
        require_authentication("unknown".to_string(), &store),
        Err(FensterError::Unauthorized(_))
    ));
}

#[test]
fn gate_rejects_expired_session() {
    let mut store = SessionStore::new();
    create_token_with(
        &alice(),
        1_000,
        "A1".to_string(),
        "R1".to_string(),
        &mut store,
    );
    // The whole pair expired long before this check.
    let r = require_authentication_at(&"A1".to_string(), 1_000 + 15 * DAY, &store);
    assert_eq!(
        r.unwrap_err(),
        FensterError::Unauthorized("A1 token is expired.".to_string())
    );
}
