use rincuma::auth::{active_user, registered_user, session_user, SessionRecord, UserRecord, UserResponse};
use rincuma::error::AuthError;
use rincuma::session::{
    create_session, session_expiry, session_for, SessionError, SESSION_DURATION_SECONDS,
};
use rincuma::time::{current_unix_timestamp_seconds, timestamp_from_unix_seconds};
use rincuma::token::{SessionToken, TokenGenerationError};

#[test]
fn expiry_is_thirty_days_later() {
    assert_eq!(SESSION_DURATION_SECONDS, 2_592_000);
    assert_eq!(session_expiry(1_700_000_000), Ok(1_702_592_000));
    assert_eq!(session_expiry(253_402_207_200 - 2_592_000), Ok(253_402_207_200));
}

#[test]
fn expiry_outside_the_timestamp_range_is_refused() {
    assert_eq!(session_expiry(253_402_207_200 - 2_592_000 + 1), Err(SessionError::Expiration));
    assert_eq!(session_expiry(i64::MAX), Err(SessionError::Expiration));
    assert_eq!(session_expiry(-377_705_023_202), Err(SessionError::Expiration));
    assert_eq!(session_expiry(-377_705_023_201), Ok(-377_705_023_201 + 2_592_000));
}

#[test]
fn created_session_stores_only_the_digest() {
    let (token, row) = create_session(42, 1_000).unwrap();
    assert_eq!(row.user_id, 42);
    assert_eq!(row.created_at, 1_000);
    assert_eq!(row.expires_at, 1_000 + 2_592_000);
    assert_eq!(row.token_hash, token.digest());
    assert_ne!(row.token_hash, token.expose());
    assert!(SessionToken::parse(token.expose()).is_some());
}

#[test]
fn session_is_live_until_it_expires() {
    let s = SessionRecord { user_id: 5, expires_at: 100 };
    assert_eq!(session_user(Some(s), 99), Ok(5));
    assert_eq!(session_user(Some(s), 100), Err(AuthError::Unauthorized));
    assert_eq!(session_user(None, 0), Err(AuthError::Unauthorized));
}

#[test]
fn inactive_or_missing_accounts() {
    let user = UserRecord { id: 1, email: "a@b.c".to_string(), password_hash: String::new(), is_active: false };
    assert!(matches!(active_user(user), Err(AuthError::Unauthorized)));
    assert!(matches!(registered_user(None), Err(AuthError::Conflict)));
    let user = UserRecord { id: 2, email: "x@y.z".to_string(), password_hash: String::new(), is_active: true };
    let response = UserResponse::from_user(&user);
    assert_eq!((response.id, response.email.as_str()), (2, "x@y.z"));
    assert_eq!(active_user(user).unwrap().id, 2);
}

#[test]
fn clock_readings_become_timestamps() {
    assert_eq!(timestamp_from_unix_seconds(Some(5)), Ok(5));
    assert_eq!(timestamp_from_unix_seconds(None), Err(AuthError::Internal));
    assert_eq!(timestamp_from_unix_seconds(Some(u64::MAX)), Err(AuthError::Internal));
    assert!(current_unix_timestamp_seconds().unwrap() > 1_600_000_000);
}

#[test]
fn session_for_reports_token_failure_first() {
    assert!(matches!(
        session_for(Err(TokenGenerationError), 4, i64::MAX),
        Err(SessionError::Token)
    ));
    assert!(matches!(
        session_for(Err(TokenGenerationError), 4, 1_700_000_000),
        Err(SessionError::Token)
    ));
    assert!(matches!(
        session_for(Ok(SessionToken::from_bytes(&[1u8; 32])), 4, i64::MAX),
        Err(SessionError::Expiration)
    ));
}

#[test]
fn session_for_builds_the_row_of_the_generated_token() {
    let token = SessionToken::from_bytes(&[2u8; 32]);
    let digest = token.digest();
    let text = token.expose().to_string();
    let (t, row) = session_for(Ok(token), 4, 1_700_000_000).unwrap();
    assert_eq!(t.expose(), text);
    assert_eq!(row.token_hash, digest);
    assert_eq!(row.user_id, 4);
    assert_eq!(row.created_at, 1_700_000_000);
    assert_eq!(row.expires_at, 1_702_592_000);
}
