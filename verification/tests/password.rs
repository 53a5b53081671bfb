use rincuma::auth::{authenticate, hash_new_password, unknown_account_outcome, UserRecord};
use rincuma::error::{map_password_error, AuthError};
use rincuma::password::{hash_password, validate_length, verify_password, PasswordError};

#[test]
fn hashes_and_verifies_password() {
    let hash_result = hash_password("correct horse battery staple");
    assert!(hash_result.is_ok());
    let Ok(hash) = hash_result else {
        return;
    };

    assert!(hash.starts_with("$argon2id$"));
    assert!(matches!(
        verify_password("correct horse battery staple", &hash),
        Ok(true)
    ));
    assert!(matches!(verify_password("wrong password", &hash), Ok(false)));
}

#[test]
fn rejects_excessively_long_password_before_hashing() {
    let result = hash_password(&"x".repeat(1_025));

    assert!(matches!(result, Err(PasswordError::TooLong)));
}

#[test]
fn length_limit_is_inclusive_and_counts_bytes() {
    assert_eq!(validate_length(&"x".repeat(1_024)), Ok(()));
    assert_eq!(validate_length(&"é".repeat(512)), Ok(()));
    assert_eq!(validate_length(&"é".repeat(513)), Err(PasswordError::TooLong));
}

#[test]
fn malformed_stored_hash_is_reported() {
    assert_eq!(
        verify_password("secret", "not a phc string"),
        Err(PasswordError::InvalidHash)
    );
    assert_eq!(
        verify_password(&"x".repeat(2_000), "not a phc string"),
        Err(PasswordError::TooLong)
    );
}

#[test]
fn password_errors_map_to_responses() {
    assert_eq!(map_password_error(PasswordError::TooLong), AuthError::BadRequest);
    assert_eq!(
        map_password_error(PasswordError::Hashing),
        AuthError::Password(PasswordError::Hashing)
    );
    assert_eq!(
        map_password_error(PasswordError::InvalidHash),
        AuthError::Password(PasswordError::InvalidHash)
    );
    assert_eq!(AuthError::BadRequest.status_code(), 400);
    assert_eq!(AuthError::Conflict.status_code(), 409);
    assert_eq!(AuthError::Unauthorized.status_code(), 401);
    assert_eq!(AuthError::Internal.status_code(), 500);
    assert_eq!(AuthError::Database.status_code(), 500);
    assert_eq!(AuthError::Password(PasswordError::Hashing).status_code(), 500);
    assert!(!AuthError::Conflict.is_internal());
    assert!(AuthError::Database.is_internal());
}

#[test]
fn registered_password_logs_in_only_while_active() {
    let hash = hash_new_password("hunter2 hunter2").unwrap();
    let mut user = UserRecord {
        id: 7,
        email: "a@b.c".to_string(),
        password_hash: hash,
        is_active: true,
    };
    assert_eq!(authenticate(Some(&user), "hunter2 hunter2"), Ok(()));
    assert_eq!(
        authenticate(Some(&user), "hunter3 hunter3"),
        Err(AuthError::Unauthorized)
    );
    user.is_active = false;
    assert_eq!(
        authenticate(Some(&user), "hunter2 hunter2"),
        Err(AuthError::Unauthorized)
    );
}

#[test]
fn unknown_account_never_logs_in() {
    assert_eq!(authenticate(None, "whatever"), Err(AuthError::Unauthorized));
    assert_eq!(
        authenticate(None, &"x".repeat(1_025)),
        Err(AuthError::BadRequest)
    );
    assert_eq!(
        hash_new_password(&"x".repeat(1_025)),
        Err(AuthError::BadRequest)
    );
}

#[test]
fn corrupt_stored_hash_is_an_internal_error() {
    let user = UserRecord {
        id: 1,
        email: "a@b.c".to_string(),
        password_hash: "garbage".to_string(),
        is_active: true,
    };
    assert_eq!(
        authenticate(Some(&user), "pw"),
        Err(AuthError::Password(PasswordError::InvalidHash))
    );
}

#[test]
fn unknown_account_is_refused_whenever_the_hash_succeeds() {
    assert_eq!(unknown_account_outcome(Ok("$argon2id$x".to_string())), AuthError::Unauthorized);
    assert_eq!(unknown_account_outcome(Err(PasswordError::TooLong)), AuthError::BadRequest);
    assert_eq!(
        unknown_account_outcome(Err(PasswordError::Hashing)),
        AuthError::Password(PasswordError::Hashing)
    );
}
