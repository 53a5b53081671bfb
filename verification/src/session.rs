//! Session lifetime and the records a new session is stored as.

use crate::token::{
    is_session_token_text, token_digest_text, SessionToken, TokenGenerationError,
};
use vstd::prelude::*;

verus! {

/// How long a session (and its cookie) lasts: 30 days, in seconds.
pub const SESSION_DURATION_SECONDS: i64 = 2592000;

/// The earliest second a `jiff::Timestamp` can hold.
pub open spec fn timestamp_min_second() -> int {
    -377705023201
}

/// The latest second a `jiff::Timestamp` can hold.
pub open spec fn timestamp_max_second() -> int {
    253402207200
}

/// Whether a whole second since the epoch is a `jiff::Timestamp`.
pub open spec fn is_timestamp_second(s: int) -> bool {
    timestamp_min_second() <= s <= timestamp_max_second()
}

#[verifier::external_type_specification]
#[verifier::external_body]
pub struct ExJiffError(jiff::Error);

/// `jiff::Timestamp::checked_add` of a `SignedDuration` of `delta` seconds to
/// the timestamp at `second`, read back with `as_second`. Claimed: it succeeds
/// exactly when both the start and the sum lie in jiff's timestamp range, and
/// then gives the sum.
#[verifier::external_body]
fn add_seconds(second: i64, delta: i64) -> (r: Result<i64, jiff::Error>)
    ensures
        r is Ok <==> (is_timestamp_second(second as int) && is_timestamp_second(second + delta)),
        r matches Ok(v) ==> v == second + delta,
{
    jiff::Timestamp::from_second(second)?.checked_add(jiff::SignedDuration::from_secs(delta)).map(
        |t| t.as_second(),
    )
}

/// Why a session could not be created.
#[derive(Debug, Clone, Copy, PartialEq, Eq)]
pub enum SessionError {
    /// No session token could be generated.
    Token,
    /// The expiry lies outside the supported time range.
    Expiration,
}

impl SessionError {
    /// Builds the error for a failed token generation.
    pub fn from_token_error(_e: TokenGenerationError) -> (r: SessionError)
        ensures
            r == SessionError::Token,
    {
        SessionError::Token
    }
}

/// Whether a session started at `now` has a representable expiry.
pub open spec fn expiry_representable(now: int) -> bool {
    is_timestamp_second(now) && is_timestamp_second(now + SESSION_DURATION_SECONDS)
}

/// The expiry of a session started at `now`: `SESSION_DURATION_SECONDS` later.
pub fn session_expiry(now: i64) -> (r: Result<i64, SessionError>)
    ensures
        r is Ok <==> expiry_representable(now as int),
        r matches Ok(t) ==> t == now + SESSION_DURATION_SECONDS,
        r matches Err(e) ==> e == SessionError::Expiration,
{
    match add_seconds(now, SESSION_DURATION_SECONDS) {
        Ok(t) => Ok(t),
        Err(_) => Err(SessionError::Expiration),
    }
}

/// A session row to insert.
#[derive(Debug)]
pub struct NewSession {
    pub token_hash: String,
    pub user_id: i64,
    pub expires_at: i64,
    pub created_at: i64,
}

/// `s` is the stored form of a session for `user_id` started at `now` with
/// token text `token`.
pub open spec fn is_new_session_for(s: NewSession, token: Seq<char>, user_id: i64, now: i64) -> bool {
    &&& s.token_hash@ == token_digest_text(token)
    &&& s.user_id == user_id
    &&& s.created_at == now
    &&& s.expires_at == now + SESSION_DURATION_SECONDS
}

/// The row stored for `token`: only the token's digest is kept.
pub fn new_session(token: &SessionToken, user_id: i64, now: i64, expires_at: i64) -> (r: NewSession)
    requires
        expires_at == now + SESSION_DURATION_SECONDS,
    ensures
        is_new_session_for(r, token@, user_id, now),
{
    NewSession { token_hash: token.digest(), user_id, expires_at, created_at: now }
}

/// The session for `user_id` at `now` once a token was generated: a failed
/// generation is reported first; otherwise the token and its row, unless the
/// expiry lies outside the supported time range.
pub fn session_for(
    generated: Result<SessionToken, TokenGenerationError>,
    user_id: i64,
    now: i64,
) -> (r: Result<(SessionToken, NewSession), SessionError>)
    ensures
        match generated {
            Err(_) => r == Err::<(SessionToken, NewSession), SessionError>(SessionError::Token),
            Ok(t) => if expiry_representable(now as int) {
                r matches Ok((t2, s)) && t2@ == t@ && is_new_session_for(s, t@, user_id, now)
            } else {
                r == Err::<(SessionToken, NewSession), SessionError>(SessionError::Expiration)
            },
        },
{
    let token = match generated {
        Ok(t) => t,
        Err(e) => return Err(SessionError::from_token_error(e)),
    };
    let expires_at = session_expiry(now)?;
    let row = new_session(&token, user_id, now, expires_at);
    Ok((token, row))
}

/// Creates a session for `user_id` at `now`: a fresh token (generated first)
/// and the row to store for it, which expires `SESSION_DURATION_SECONDS` later.
pub fn create_session(user_id: i64, now: i64) -> (r: Result<(SessionToken, NewSession), SessionError>)
    ensures
        r matches Ok((t, s)) ==> {
            &&& is_new_session_for(s, t@, user_id, now)
            &&& is_session_token_text(t@)
            &&& t@.len() == 43
            &&& expiry_representable(now as int)
        },
        r matches Err(SessionError::Expiration) ==> !expiry_representable(now as int),
{
    session_for(SessionToken::generate(), user_id, now)
}

} // verus!
