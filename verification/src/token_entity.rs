//! Access tokens and the token codec: random token strings and expiration
//! timestamps, measured in milliseconds since the Unix epoch.

use vstd::prelude::*;
use vstd::string::{StrSliceExecFns, StringExecFns};

use rand::Rng;

use crate::fenster_error::{error, ErrorV, FensterError, OTHER_INTERNAL_ERROR, REDIS_ERROR};
use crate::store::{SessionStore, StoredValue, StoredValueV};
use crate::user_entity::User;

verus! {

/// Milliseconds in one day of validity.
pub const MILLIS_PER_DAY: u64 = 86400000;

/// An opaque credential: a random token string together with the absolute
/// time, in milliseconds since the Unix epoch, at which it stops working.
#[derive(Debug)]
pub struct AccessToken {
    pub token: String,
    pub expiration_period: u128,
}

/// One user's session: a short-lived auth token presented on every request
/// and a long-lived refresh token used solely to mint new auth tokens.
#[derive(Debug)]
pub struct Token {
    pub auth_token: AccessToken,
    pub refresh_token: AccessToken,
}

/// Mathematical image of an [`AccessToken`].
pub struct AccessTokenV {
    pub token: Seq<char>,
    pub expiration_period: u128,
}

/// Mathematical image of a [`Token`].
pub struct TokenV {
    pub auth_token: AccessTokenV,
    pub refresh_token: AccessTokenV,
}

impl View for AccessToken {
    type V = AccessTokenV;

    open spec fn view(&self) -> AccessTokenV {
        AccessTokenV { token: self.token@, expiration_period: self.expiration_period }
    }
}

impl View for Token {
    type V = TokenV;

    open spec fn view(&self) -> TokenV {
        TokenV { auth_token: self.auth_token@, refresh_token: self.refresh_token@ }
    }
}

impl Clone for AccessToken {
    fn clone(&self) -> (r: Self)
        ensures
            r == *self,
    {
        AccessToken { token: self.token.clone(), expiration_period: self.expiration_period }
    }
}

impl Clone for Token {
    fn clone(&self) -> (r: Self)
        ensures
            r == *self,
    {
        Token { auth_token: self.auth_token.clone(), refresh_token: self.refresh_token.clone() }
    }
}

/// The fixed alphabet that token strings are drawn from.
pub open spec fn token_alphabet() -> Seq<char> {
    "1234567890abcdefghijklmopqrstuvwxyzABCDEFGHIJKLMOPQRSTUVWXYZ"@
}

/// A well-formed token string: sixteen characters, all from the alphabet.
pub open spec fn is_token_string(s: Seq<char>) -> bool {
    &&& s.len() == 16
    &&& forall|i: int| 0 <= i < s.len() ==> token_alphabet().contains(#[trigger] s[i])
}

/// The error reported when the system clock cannot be read.
pub open spec fn clock_error() -> ErrorV {
    ErrorV::Internal((OTHER_INTERNAL_ERROR * 10 + 2) as u16)
}

/// Relies on `std::time::SystemTime`: one reading of `now`, measured against
/// `UNIX_EPOCH` and converted to whole milliseconds; `None` when the clock
/// reads earlier than the epoch. A `Duration` counts at most `u64::MAX`
/// whole seconds plus a sub-second remainder, which bounds the result.
#[verifier::external_body]
fn clock_unix_millis() -> (r: Option<u128>)
    ensures
        r matches Some(ms) ==> ms <= u64::MAX as u128 * 1000 + 999,
{
    match std::time::SystemTime::now().duration_since(std::time::UNIX_EPOCH) {
        Ok(d) => Some(d.as_millis()),
        Err(_) => None,
    }
}

/// Relies on `rand::Rng::gen_range` over `0..bound` on `rand::thread_rng`:
/// the sample lies within the given half-open range, and the range must not
/// be empty.
#[verifier::external_body]
fn random_below(bound: usize) -> (r: usize)
    requires
        0 < bound,
    ensures
        r < bound,
{
    rand::thread_rng().gen_range(0..bound)
}

/// Reads the wall clock as milliseconds since the Unix epoch. A clock that
/// cannot be read relative to the epoch is unrecoverable and reported as an
/// internal error, never retried.
pub fn get_sys_time() -> (r: Result<u128, FensterError>)
    ensures
        r matches Ok(ms) ==> ms <= u64::MAX as u128 * 1000 + 999,
        r matches Err(e) ==> e@ == clock_error(),
{
    match clock_unix_millis() {
        Some(ms) => Ok(ms),
        None => Err(FensterError::Internal(error(OTHER_INTERNAL_ERROR, 2))),
    }
}

/// Produces a sixteen-character token string drawn from the fixed alphabet.
/// Uniqueness is probabilistic only: nothing checks the store for an equal
/// string already in use.
pub fn generate_token() -> (r: String)
    ensures
        is_token_string(r@),
{
    let alphabet: &str = "1234567890abcdefghijklmopqrstuvwxyzABCDEFGHIJKLMOPQRSTUVWXYZ";
    proof {
        reveal_strlit("1234567890abcdefghijklmopqrstuvwxyzABCDEFGHIJKLMOPQRSTUVWXYZ");
    }
    let mut token = String::new();
    let mut i: usize = 0;
    while i < 16
        invariant
            i <= 16,
            token@.len() == i,
            alphabet@ == token_alphabet(),
            alphabet@.len() == 60,
            forall|j: int| 0 <= j < token@.len() ==> token_alphabet().contains(#[trigger] token@[j]),
        decreases 16 - i,
    {
        let idx = random_below(60);
        let piece = alphabet.substring_char(idx, idx + 1);
        proof {
            assert(piece@[0] == token_alphabet()[idx as int]);
        }
        token.append(piece);
        i = i + 1;
    }
    token
}

/// Builds the access token that expires `days` days after the moment
/// `now_ms`, carrying the given token string.
pub fn access_token_with(token: String, now_ms: u128, days: u64) -> (t: AccessToken)
    requires
        now_ms + days as u128 * MILLIS_PER_DAY <= u128::MAX,
    ensures
        t.token == token,
        t.expiration_period == now_ms + days as u128 * MILLIS_PER_DAY,
{
    AccessToken { token, expiration_period: now_ms + (days as u128) * (MILLIS_PER_DAY as u128) }
}

/// Captures the current wall-clock time and pairs a fresh random token
/// string with an expiration `days` days from now. Fails only when the
/// clock cannot be read.
pub fn token_with_expiration(days: u64) -> (r: Result<AccessToken, FensterError>)
    ensures
        r matches Ok(t) ==> is_token_string(t.token@)
            && t.expiration_period >= days as u128 * MILLIS_PER_DAY,
        r matches Err(e) ==> e@ == clock_error(),
{
    let sys_time = get_sys_time()?;
    Ok(access_token_with(generate_token(), sys_time, days))
}

impl AccessToken {
    /// Decides expiry against the given moment: the token is good exactly
    /// while `now_ms` lies strictly before its expiration.
    pub fn is_expired_at(&self, now_ms: u128) -> (r: Result<(), FensterError>)
        ensures
            r is Ok <==> now_ms < self.expiration_period,
            r matches Err(e) ==> e@ == ErrorV::Unauthorized(self.token@ + " token is expired."@),
    {
        if now_ms >= self.expiration_period {
            let mut message = self.token.clone();
            message.append(" token is expired.");
            return Err(FensterError::Unauthorized(message));
        }
        Ok(())
    }

    /// Compares the current wall-clock time against the expiration: an
    /// already-passed expiration is an authorization failure, an unreadable
    /// clock an internal one.
    pub fn is_expired(&self) -> (r: Result<(), FensterError>)
        ensures
            r matches Err(e) ==> e@ == clock_error()
                || e@ == ErrorV::Unauthorized(self.token@ + " token is expired."@),
    {
        let sys_time = get_sys_time()?;
        self.is_expired_at(sys_time)
    }
}

/// The error reported when a presented token string is not indexed: an
/// unknown token cannot authenticate anyone.
pub open spec fn unknown_token_error() -> ErrorV {
    ErrorV::Unauthorized("token is not known."@)
}

/// The error reported when a user id resolves to no session record.
pub open spec fn missing_session_error() -> ErrorV {
    ErrorV::Internal((REDIS_ERROR * 10 + 5) as u16)
}

/// The user id a token string resolves to in the store: the value under the
/// token's key, provided that key holds a reverse-index entry.
pub open spec fn lookup_user_id(m: Map<Seq<char>, StoredValueV>, token: Seq<char>) -> Option<
    Seq<char>,
> {
    if m.contains_key(token) && m[token] is UserId {
        Some(m[token]->UserId_0)
    } else {
        None
    }
}

/// The session record a user id resolves to in the store, if any.
pub open spec fn lookup_session(m: Map<Seq<char>, StoredValueV>, user_id: Seq<char>) -> Option<
    TokenV,
> {
    if m.contains_key(user_id) && m[user_id] is Session {
        Some(m[user_id]->Session_0)
    } else {
        None
    }
}

/// The store create_token leaves behind: the session record written under
/// the user's id, then the two reverse-index entries.
pub open spec fn created_store(
    m: Map<Seq<char>, StoredValueV>,
    user_id: Seq<char>,
    pair: TokenV,
) -> Map<Seq<char>, StoredValueV> {
    m.insert(user_id, StoredValueV::Session(pair)).insert(
        pair.auth_token.token,
        StoredValueV::UserId(user_id),
    ).insert(pair.refresh_token.token, StoredValueV::UserId(user_id))
}

/// The store refresh_access leaves behind: the old auth token's index entry
/// deleted, the fresh one written. The session record itself is not
/// rewritten; the store is the single source of truth for it.
pub open spec fn refreshed_store(
    m: Map<Seq<char>, StoredValueV>,
    user_id: Seq<char>,
    old_pair: TokenV,
    new_auth: Seq<char>,
) -> Map<Seq<char>, StoredValueV> {
    m.remove(old_pair.auth_token.token).insert(new_auth, StoredValueV::UserId(user_id))
}

/// The store revoke_access leaves behind: the presented token's index
/// entry, the session's two token index entries and the session record
/// deleted, in that order. The presented entry usually coincides with the
/// session's auth entry, but after a refresh the record is stale and the
/// two differ; deleting both keeps revocation total either way.
pub open spec fn revoked_store(
    m: Map<Seq<char>, StoredValueV>,
    access_token: Seq<char>,
    user_id: Seq<char>,
    pair: TokenV,
) -> Map<Seq<char>, StoredValueV> {
    m.remove(access_token).remove(pair.auth_token.token).remove(pair.refresh_token.token).remove(
        user_id,
    )
}

/// Resolves a token string to the owning user id through the reverse index.
pub fn user_id_from_token(token: String, store: &SessionStore) -> (r: Result<
    String,
    FensterError,
>)
    ensures
        r is Ok <==> lookup_user_id(store@, token@) is Some,
        r matches Ok(user_id) ==> lookup_user_id(store@, token@) == Some(user_id@),
        r matches Err(e) ==> e@ == unknown_token_error(),
{
    match store.get(&token) {
        Some(StoredValue::UserId(user_id)) => Ok(user_id.clone()),
        _ => Err(FensterError::Unauthorized("token is not known.".to_owned())),
    }
}

/// Resolves a user id to that user's current session record.
pub fn token_from_user_id(user_id: String, store: &SessionStore) -> (r: Result<
    Token,
    FensterError,
>)
    ensures
        r is Ok <==> lookup_session(store@, user_id@) is Some,
        r matches Ok(pair) ==> lookup_session(store@, user_id@) == Some(pair@),
        r matches Err(e) ==> e@ == missing_session_error(),
{
    match store.get(&user_id) {
        Some(StoredValue::Session(pair)) => Ok(pair.clone()),
        _ => Err(FensterError::Internal(error(REDIS_ERROR, 5))),
    }
}

/// Compound lookup: token string to user id to session record, propagating
/// the first failure encountered.
pub fn find_token(access_token: &String, store: &SessionStore) -> (r: Result<
    Token,
    FensterError,
>)
    ensures
        r is Ok <==> (lookup_user_id(store@, access_token@) matches Some(user_id)
            && lookup_session(store@, user_id) is Some),
        r matches Ok(pair) ==> lookup_user_id(store@, access_token@) matches Some(user_id)
            && lookup_session(store@, user_id) == Some(pair@),
        lookup_user_id(store@, access_token@) is None ==> (r matches Err(e) && e@
            == unknown_token_error()),
        lookup_user_id(store@, access_token@) matches Some(user_id) && lookup_session(
            store@,
            user_id,
        ) is None ==> (r matches Err(e) && e@ == missing_session_error()),
{
    let user_id = user_id_from_token(access_token.clone(), store)?;
    token_from_user_id(user_id, store)
}

/// Writes a fresh session for `user` from the given creation moment and the
/// two fresh token strings: the auth token is valid seven days, the refresh
/// token fourteen.
pub fn create_token_with(
    user: &User,
    now_ms: u128,
    auth_token: String,
    refresh_token: String,
    store: &mut SessionStore,
) -> (pair: Token)
    requires
        now_ms + 14 * MILLIS_PER_DAY <= u128::MAX,
    ensures
        pair.auth_token.token@ == auth_token@,
        pair.refresh_token.token@ == refresh_token@,
        pair.auth_token.expiration_period == now_ms + 7 * MILLIS_PER_DAY,
        pair.refresh_token.expiration_period == now_ms + 14 * MILLIS_PER_DAY,
        pair.auth_token.expiration_period < pair.refresh_token.expiration_period,
        final(store)@ == created_store(old(store)@, user.id@, pair@),
{
    let auth = access_token_with(auth_token, now_ms, 7);
    let refresh = access_token_with(refresh_token, now_ms, 14);
    let pair = Token { auth_token: auth, refresh_token: refresh };
    store.set_value(user.id.clone(), StoredValue::Session(pair.clone()));
    store.set_value(pair.auth_token.token.clone(), StoredValue::UserId(user.id.clone()));
    store.set_value(pair.refresh_token.token.clone(), StoredValue::UserId(user.id.clone()));
    pair
}

/// Creates a new session for `user`: one clock reading stamps both tokens,
/// so the refresh token outlives the auth token by exactly seven days. The
/// session record and both reverse-index entries are written together; the
/// operation fails only when the clock cannot be read, and then the store
/// is left untouched.
pub fn create_token(user: User, store: &mut SessionStore) -> (r: Result<Token, FensterError>)
    ensures
        r matches Ok(pair) ==> is_token_string(pair.auth_token.token@) && is_token_string(
            pair.refresh_token.token@,
        ) && pair.refresh_token.expiration_period == pair.auth_token.expiration_period + 7
            * MILLIS_PER_DAY && pair.auth_token.expiration_period >= 7 * MILLIS_PER_DAY
            && final(store)@ == created_store(old(store)@, user.id@, pair@),
        r matches Err(e) ==> e@ == clock_error() && final(store)@ == old(store)@,
{
    let now_ms = match get_sys_time() {
        Ok(v) => v,
        Err(e) => {
            return Err(e);
        },
    };
    Ok(create_token_with(&user, now_ms, generate_token(), generate_token(), store))
}

/// Exchanges a refresh token for a session with a fresh auth token minted
/// at `now_ms` and carrying the given fresh token string. The presented
/// refresh token must still be within its own validity at `now_ms`; then
/// the old auth token's index entry is deleted, the new one written, and
/// the refresh token carried over unchanged.
pub fn refresh_access_with(
    token: &String,
    now_ms: u128,
    new_auth_token: String,
    store: &mut SessionStore,
) -> (r: Result<Token, FensterError>)
    requires
        now_ms + 7 * MILLIS_PER_DAY <= u128::MAX,
    ensures
        r is Ok <==> (lookup_user_id(old(store)@, token@) matches Some(user_id) && (lookup_session(
            old(store)@,
            user_id,
        ) matches Some(pair) && now_ms < pair.refresh_token.expiration_period)),
        r matches Ok(pair) ==> lookup_user_id(old(store)@, token@) matches Some(user_id)
            && lookup_session(old(store)@, user_id) matches Some(old_pair) && pair.auth_token.token@
            == new_auth_token@ && pair.auth_token.expiration_period == now_ms + 7 * MILLIS_PER_DAY
            && pair.refresh_token@ == old_pair.refresh_token && final(store)@ == refreshed_store(
            old(store)@,
            user_id,
            old_pair,
            new_auth_token@,
        ),
        r matches Err(e) ==> final(store)@ == old(store)@,
        lookup_user_id(old(store)@, token@) is None ==> (r matches Err(e) && e@
            == unknown_token_error()),
        lookup_user_id(old(store)@, token@) matches Some(user_id) && lookup_session(
            old(store)@,
            user_id,
        ) is None ==> (r matches Err(e) && e@ == missing_session_error()),
        lookup_user_id(old(store)@, token@) matches Some(user_id) ==> (lookup_session(
            old(store)@,
            user_id,
        ) matches Some(pair) ==> (now_ms >= pair.refresh_token.expiration_period ==> (r matches Err(
            e,
        ) && e@ == ErrorV::Unauthorized(pair.refresh_token.token + " token is expired."@)))),
{
    let user_id = user_id_from_token(token.clone(), store)?;
    let pair = token_from_user_id(user_id.clone(), store)?;
    pair.refresh_token.is_expired_at(now_ms)?;
    store.del(&pair.auth_token.token);
    let new_auth = access_token_with(new_auth_token, now_ms, 7);
    store.set_value(new_auth.token.clone(), StoredValue::UserId(user_id));
    Ok(Token { auth_token: new_auth, refresh_token: pair.refresh_token })
}

/// Exchanges a presented refresh token for a session with a freshly minted
/// auth token; the refresh token is never rotated by this operation, and
/// stays usable until its own expiration or an explicit revoke. Fails when
/// the token is unknown, the session record is gone, the refresh token has
/// expired, or the clock cannot be read; a failure leaves the store
/// untouched.
pub fn refresh_access(token: String, store: &mut SessionStore) -> (r: Result<Token, FensterError>)
    ensures
        r matches Ok(pair) ==> lookup_user_id(old(store)@, token@) matches Some(user_id)
            && lookup_session(old(store)@, user_id) matches Some(old_pair) && is_token_string(
            pair.auth_token.token@,
        ) && pair.refresh_token@ == old_pair.refresh_token && final(store)@ == refreshed_store(
            old(store)@,
            user_id,
            old_pair,
            pair.auth_token.token@,
        ),
        r matches Err(e) ==> final(store)@ == old(store)@,
        lookup_user_id(old(store)@, token@) is None ==> (r matches Err(e) && e@
            == unknown_token_error()),
        lookup_user_id(old(store)@, token@) matches Some(user_id) && lookup_session(
            old(store)@,
            user_id,
        ) is None ==> (r matches Err(e) && e@ == missing_session_error()),
        lookup_user_id(old(store)@, token@) matches Some(user_id) ==> (lookup_session(
            old(store)@,
            user_id,
        ) matches Some(pair) ==> (r is Ok || (r matches Err(e) && (e@ == clock_error() || e@
            == ErrorV::Unauthorized(pair.refresh_token.token + " token is expired."@))))),
{
    let user_id = user_id_from_token(token.clone(), store)?;
    let pair = token_from_user_id(user_id.clone(), store)?;
    let now_ms = match get_sys_time() {
        Ok(v) => v,
        Err(e) => {
            return Err(e);
        },
    };
    pair.refresh_token.is_expired_at(now_ms)?;
    store.del(&pair.auth_token.token);
    let new_auth = access_token_with(generate_token(), now_ms, 7);
    store.set_value(new_auth.token.clone(), StoredValue::UserId(user_id));
    Ok(Token { auth_token: new_auth, refresh_token: pair.refresh_token })
}

/// Revokes the session the presented auth token belongs to: the presented
/// token's index entry, the session's two token index entries and the
/// session record are deleted, in that order, so that neither token nor
/// the record resolves afterwards. Each deletion is independent; nothing
/// is rolled back on failure.
pub fn revoke_access(access_token: String, store: &mut SessionStore) -> (r: Result<
    (),
    FensterError,
>)
    ensures
        r is Ok <==> (lookup_user_id(old(store)@, access_token@) matches Some(user_id)
            && lookup_session(old(store)@, user_id) is Some),
        lookup_user_id(old(store)@, access_token@) matches Some(user_id) ==> (lookup_session(
            old(store)@,
            user_id,
        ) matches Some(pair) ==> final(store)@ == revoked_store(
            old(store)@,
            access_token@,
            user_id,
            pair,
        )),
        r matches Err(e) ==> final(store)@ == old(store)@,
        lookup_user_id(old(store)@, access_token@) is None ==> (r matches Err(e) && e@
            == unknown_token_error()),
        lookup_user_id(old(store)@, access_token@) matches Some(user_id) && lookup_session(
            old(store)@,
            user_id,
        ) is None ==> (r matches Err(e) && e@ == missing_session_error()),
{
    let user_id = user_id_from_token(access_token.clone(), store)?;
    let pair = token_from_user_id(user_id.clone(), store)?;
    store.del(&access_token);
    store.del(&pair.auth_token.token);
    store.del(&pair.refresh_token.token);
    store.del(&user_id);
    Ok(())
}

/// Round-trip lookup: in the store create_token leaves behind, each of the
/// pair's token strings resolves back to the owning user id.
pub proof fn lemma_create_token_round_trip(
    m: Map<Seq<char>, StoredValueV>,
    user_id: Seq<char>,
    pair: TokenV,
)
    ensures
        lookup_user_id(created_store(m, user_id, pair), pair.auth_token.token) == Some(user_id),
        lookup_user_id(created_store(m, user_id, pair), pair.refresh_token.token) == Some(user_id),
{
}

/// A refresh invalidates the auth token it replaces: in the store it leaves
/// behind, the old auth token no longer resolves, provided the fresh token
/// string differs from the old one.
pub proof fn lemma_refresh_invalidates_old_auth(
    m: Map<Seq<char>, StoredValueV>,
    user_id: Seq<char>,
    old_pair: TokenV,
    new_auth: Seq<char>,
)
    requires
        new_auth != old_pair.auth_token.token,
    ensures
        lookup_user_id(
            refreshed_store(m, user_id, old_pair, new_auth),
            old_pair.auth_token.token,
        ) is None,
{
}

/// Revocation is total: in the store revoke_access leaves behind, the
/// presented token no longer resolves, nor do the session's own auth and
/// refresh tokens, and the session record is gone — even when the record
/// was stale and its auth token differed from the presented one.
pub proof fn lemma_revoke_is_total(
    m: Map<Seq<char>, StoredValueV>,
    access_token: Seq<char>,
    user_id: Seq<char>,
    pair: TokenV,
)
    requires
        lookup_user_id(m, access_token) == Some(user_id),
        lookup_session(m, user_id) == Some(pair),
    ensures
        lookup_user_id(revoked_store(m, access_token, user_id, pair), access_token) is None,
        lookup_user_id(
            revoked_store(m, access_token, user_id, pair),
            pair.auth_token.token,
        ) is None,
        lookup_user_id(
            revoked_store(m, access_token, user_id, pair),
            pair.refresh_token.token,
        ) is None,
        lookup_session(revoked_store(m, access_token, user_id, pair), user_id) is None,
{
}

} // verus!
