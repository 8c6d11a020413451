//! The authentication gate: decides whether a presented bearer token
//! authorizes a request, and names the user it belongs to. Every check
//! reads the current session record from the store anew rather than
//! trusting any caller-held value, so a concurrent revocation or refresh
//! is seen at once — the store is the single source of truth.

use vstd::prelude::*;

use crate::fenster_error::{ErrorV, FensterError};
use crate::store::SessionStore;
use crate::token_entity::{
    clock_error, lookup_session, lookup_user_id, missing_session_error, token_from_user_id,
    unknown_token_error, user_id_from_token,
};

verus! {

/// The payload of a registration request.
#[derive(Clone, Debug)]
pub struct RegisterUser {
    pub id: String,
    pub name: String,
    pub email: String,
    pub password: String,
}

/// The payload of a login request.
#[derive(Clone, Debug)]
pub struct LoginUser {
    pub id: String,
    pub password: String,
}

/// Authorizes a bearer token against the given moment: the token string
/// must be indexed, its user must hold a session record, and that record's
/// auth token must not yet have expired at `now_ms`. On success the
/// authenticated user id is returned.
pub fn require_authentication_at(bearer: &String, now_ms: u128, store: &SessionStore) -> (r:
    Result<String, FensterError>)
    ensures
        r is Ok <==> (lookup_user_id(store@, bearer@) matches Some(user_id) && (lookup_session(
            store@,
            user_id,
        ) matches Some(pair) && now_ms < pair.auth_token.expiration_period)),
        r matches Ok(user_id) ==> lookup_user_id(store@, bearer@) == Some(user_id@),
        lookup_user_id(store@, bearer@) is None ==> (r matches Err(e) && e@
            == unknown_token_error()),
        lookup_user_id(store@, bearer@) matches Some(user_id) && lookup_session(
            store@,
            user_id,
        ) is None ==> (r matches Err(e) && e@ == missing_session_error()),
        lookup_user_id(store@, bearer@) matches Some(user_id) ==> (lookup_session(
            store@,
            user_id,
        ) matches Some(pair) ==> (now_ms >= pair.auth_token.expiration_period ==> (r matches Err(e)
            && e@ == ErrorV::Unauthorized(pair.auth_token.token + " token is expired."@)))),
{
    let user_id = user_id_from_token(bearer.clone(), store)?;
    let pair = token_from_user_id(user_id.clone(), store)?;
    pair.auth_token.is_expired_at(now_ms)?;
    Ok(user_id)
}

/// Authorizes a bearer token against the wall clock: resolves the token to
/// its user, re-derives the current session record, and checks the record's
/// auth token for expiry. Any failure is surfaced directly, never retried.
/// When the bearer is known and its user holds a session, the call
/// succeeds with the user id unless that session's auth token is already
/// past its expiration or the clock cannot be read.
pub fn require_authentication(bearer: String, store: &SessionStore) -> (r: Result<
    String,
    FensterError,
>)
    ensures
        r matches Ok(user_id) ==> lookup_user_id(store@, bearer@) == Some(user_id@)
            && lookup_session(store@, user_id@) is Some,
        lookup_user_id(store@, bearer@) is None ==> (r matches Err(e) && e@
            == unknown_token_error()),
        lookup_user_id(store@, bearer@) matches Some(user_id) && lookup_session(
            store@,
            user_id,
        ) is None ==> (r matches Err(e) && e@ == missing_session_error()),
        lookup_user_id(store@, bearer@) matches Some(user_id) ==> (lookup_session(
            store@,
            user_id,
        ) matches Some(pair) ==> (r is Ok || (r matches Err(e) && (e@ == clock_error() || e@
            == ErrorV::Unauthorized(pair.auth_token.token + " token is expired."@))))),
{
    let user_id = user_id_from_token(bearer, store)?;
    let pair = token_from_user_id(user_id.clone(), store)?;
    pair.auth_token.is_expired()?;
    Ok(user_id)
}

} // verus!
