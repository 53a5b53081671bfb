//! Decisions of the authentication endpoints: registering, logging in,
//! reading the current user from a session, and logging out.

use crate::error::{map_password_error, password_failure, AuthError};
use crate::password::{
    hash_password, password_check, utf8_len, verify_password, PasswordError, MAX_PASSWORD_LENGTH,
};
use crate::session::{is_new_session_for, NewSession};
use crate::session_cookie::{
    is_removal_cookie, is_session_cookie, law_session_cookie_reads_back, removal_text_prefix,
    session_cookie, session_cookie_name, session_token, session_token_text, set_cookie_text,
    SessionCookie,
};
use crate::text::opt_text;
use crate::token::{is_session_token_text, token_digest_text, SessionToken};
use vstd::prelude::*;

verus! {

/// The account fields the authentication decisions read.
#[derive(Debug)]
pub struct UserRecord {
    pub id: i64,
    pub email: String,
    pub password_hash: String,
    pub is_active: bool,
}

/// The stored session fields the authentication decisions read.
#[derive(Debug, Clone, Copy, PartialEq, Eq)]
pub struct SessionRecord {
    pub user_id: i64,
    pub expires_at: i64,
}

/// The public view of an account, as returned to the client.
#[derive(Debug)]
pub struct UserResponse {
    pub id: i64,
    pub email: String,
}

impl UserResponse {
    /// The public view of `user`: its id and e-mail.
    pub fn from_user(user: &UserRecord) -> (r: UserResponse)
        ensures
            r.id == user.id,
            r.email@ == user.email@,
    {
        UserResponse { id: user.id, email: user.email.clone() }
    }
}

/// What logging in as the existing account `user` with `password` yields.
pub open spec fn credentials_result(user: UserRecord, password: Seq<char>) -> Result<(), AuthError> {
    match password_check(password, user.password_hash@) {
        Err(e) => Err(password_failure(e)),
        Ok(valid) => if user.is_active && valid {
            Ok(())
        } else {
            Err(AuthError::Unauthorized)
        },
    }
}

/// The answer to a login for an unknown e-mail, given the outcome of hashing
/// its password: always a refusal, as for a wrong password, unless the hash
/// itself failed.
pub fn unknown_account_outcome(hashed: Result<String, PasswordError>) -> (r: AuthError)
    ensures
        r == match hashed {
            Ok(_) => AuthError::Unauthorized,
            Err(e) => password_failure(e),
        },
{
    match hashed {
        Ok(_) => AuthError::Unauthorized,
        Err(e) => map_password_error(e),
    }
}

/// Checks a login attempt against the account found for its e-mail.
///
/// For an existing account the password is verified (also for an inactive
/// account) and the attempt succeeds only for an active account with the right
/// password. For an unknown e-mail the password is still hashed, so that the
/// failure takes as long as a real check, and the attempt never succeeds.
pub fn authenticate(user: Option<&UserRecord>, password: &str) -> (r: Result<(), AuthError>)
    ensures
        match user {
            Some(u) => r == credentials_result(*u, password@),
            None => {
                &&& r is Err
                &&& utf8_len(password@) > MAX_PASSWORD_LENGTH ==> r == Err::<(), AuthError>(
                    AuthError::BadRequest,
                )
                &&& utf8_len(password@) <= MAX_PASSWORD_LENGTH ==> (r == Err::<(), AuthError>(
                    AuthError::Unauthorized,
                ) || r == Err::<(), AuthError>(AuthError::Password(PasswordError::Hashing)))
            },
        },
{
    match user {
        None => Err(unknown_account_outcome(hash_password(password))),
        Some(u) => {
            match verify_password(password, u.password_hash.as_str()) {
                Err(e) => Err(map_password_error(e)),
                Ok(valid) => {
                    if !u.is_active || !valid {
                        Err(AuthError::Unauthorized)
                    } else {
                        Ok(())
                    }
                },
            }
        },
    }
}

/// Hashes the password of a new account; an over-long password is a bad
/// request, any other failure is internal.
pub fn hash_new_password(password: &str) -> (r: Result<String, AuthError>)
    ensures
        utf8_len(password@) > MAX_PASSWORD_LENGTH <==> r == Err::<String, AuthError>(
            AuthError::BadRequest,
        ),
        r matches Err(e) ==> e == AuthError::BadRequest || e == AuthError::Password(
            PasswordError::Hashing,
        ),
        r matches Ok(h) ==> password_check(password@, h@) == Ok::<bool, PasswordError>(true),
{
    match hash_password(password) {
        Ok(h) => Ok(h),
        Err(e) => Err(map_password_error(e)),
    }
}

/// The account an insert-unless-present returned: none means the e-mail is
/// already registered.
pub fn registered_user(inserted: Option<UserRecord>) -> (r: Result<UserRecord, AuthError>)
    ensures
        match inserted {
            Some(u) => r == Ok::<UserRecord, AuthError>(u),
            None => r == Err::<UserRecord, AuthError>(AuthError::Conflict),
        },
{
    match inserted {
        Some(u) => Ok(u),
        None => Err(AuthError::Conflict),
    }
}

/// The user a stored session belongs to, if the session has not expired at `now`.
pub fn session_user(session: Option<SessionRecord>, now: i64) -> (r: Result<i64, AuthError>)
    ensures
        match session {
            Some(s) => if s.expires_at > now {
                r == Ok::<i64, AuthError>(s.user_id)
            } else {
                r == Err::<i64, AuthError>(AuthError::Unauthorized)
            },
            None => r == Err::<i64, AuthError>(AuthError::Unauthorized),
        },
{
    match session {
        Some(s) => {
            if s.expires_at > now {
                Ok(s.user_id)
            } else {
                Err(AuthError::Unauthorized)
            }
        },
        None => Err(AuthError::Unauthorized),
    }
}

/// Admits the user of a session only while the account is active.
pub fn active_user(user: UserRecord) -> (r: Result<UserRecord, AuthError>)
    ensures
        user.is_active ==> r == Ok::<UserRecord, AuthError>(user),
        !user.is_active ==> r == Err::<UserRecord, AuthError>(AuthError::Unauthorized),
{
    if !user.is_active {
        return Err(AuthError::Unauthorized);
    }
    Ok(user)
}

/// The session token a request presents, or `Unauthorized` when it has none.
pub fn required_session_token(headers: &Vec<String>, secure: bool) -> (r: Result<
    SessionToken,
    AuthError,
>)
    ensures
        match r {
            Ok(t) => session_token_text(headers.deep_view(), secure) == Some(t@),
            Err(e) => e == AuthError::Unauthorized && session_token_text(
                headers.deep_view(),
                secure,
            ) is None,
        },
{
    match session_token(headers, secure) {
        Some(t) => Ok(t),
        None => Err(AuthError::Unauthorized),
    }
}

/// The stored digest of the session that the `Cookie` header values
/// `headers` present, if they present one.
pub open spec fn logout_digest(headers: Seq<Seq<char>>, secure: bool) -> Option<Seq<char>> {
    match session_token_text(headers, secure) {
        Some(t) => Some(token_digest_text(t)),
        None => None,
    }
}

/// The stored digest of the session a logout request presents, if any.
pub fn logout_session_digest(headers: &Vec<String>, secure: bool) -> (r: Option<String>)
    ensures
        opt_text(r) == logout_digest(headers.deep_view(), secure),
{
    match session_token(headers, secure) {
        Some(t) => Some(t.digest()),
        None => None,
    }
}

/// The `Set-Cookie` value that hands `token` to the client.
pub fn session_set_cookie(token: &SessionToken, secure: bool) -> (r: String)
    ensures
        exists|c| is_session_cookie(c, token@, secure) && r@ == set_cookie_text(c),
{
    let c = session_cookie(token.expose(), secure);
    c.to_string()
}

/// An account whose stored hash was made from `password` (as `hash_password`
/// guarantees of every hash it returns) and that is active accepts that
/// password at login.
pub proof fn law_registered_password_logs_in(user: UserRecord, password: Seq<char>)
    requires
        password_check(password, user.password_hash@) == Ok::<bool, PasswordError>(true),
        user.is_active,
    ensures
        credentials_result(user, password) == Ok::<(), AuthError>(()),
{
}

/// An inactive account is never let in, whatever the password.
pub proof fn law_inactive_account_refused(user: UserRecord, password: Seq<char>)
    requires
        !user.is_active,
    ensures
        credentials_result(user, password) is Err,
{
}

/// A password that does not verify never lets anyone in.
pub proof fn law_wrong_password_refused(user: UserRecord, password: Seq<char>)
    requires
        password_check(password, user.password_hash@) != Ok::<bool, PasswordError>(true),
    ensures
        credentials_result(user, password) is Err,
{
}

/// Logging out answers the same way every time in a mode: the cookie it
/// sends clears the session cookie of that mode, and its `Set-Cookie` text
/// is the same up to the `Expires` date.
pub proof fn law_logout_repeats(first: SessionCookie, second: SessionCookie, secure: bool)
    requires
        is_removal_cookie(first, secure),
        is_removal_cookie(second, secure),
    ensures
        first.name@ == second.name@,
        first.name@ == session_cookie_name(secure),
        removal_text_prefix(first) == removal_text_prefix(second),
{
}

/// A logout that presents the session cookie a login handed out, as
/// `name=token`, targets the row stored for that session: the digest it asks
/// to delete is the row's token hash.
pub proof fn law_logout_targets_created_session(
    token: Seq<char>,
    secure: bool,
    row: NewSession,
    user_id: i64,
    now: i64,
)
    requires
        is_session_token_text(token),
        is_new_session_for(row, token, user_id, now),
    ensures
        logout_digest(seq![session_cookie_name(secure) + "="@ + token], secure) == Some(
            row.token_hash@,
        ),
{
    law_session_cookie_reads_back(token, secure);
}

} // verus!
