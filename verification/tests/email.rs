use rincuma::email::normalize_email;
use rincuma::error::AuthError;

#[test]
fn normalizes_email() {
    assert_eq!(
        normalize_email(" User@Example.COM ").ok().as_deref(),
        Some("user@example.com")
    );
}

#[test]
fn rejects_invalid_email() {
    assert!(normalize_email("invalid").is_err());
    assert!(normalize_email("@").is_err());
    assert!(normalize_email("user@").is_err());
    assert!(normalize_email("@example.com").is_err());
    assert!(normalize_email("user @example.com").is_err());
    assert!(normalize_email("a@b@example.com").is_err());
}

#[test]
fn invalid_email_is_a_bad_request() {
    assert_eq!(normalize_email("nobody"), Err(AuthError::BadRequest));
}

#[test]
fn trims_unicode_white_space_around_email() {
    assert_eq!(
        normalize_email("\u{3000}\t A@B.C \u{2028}").ok().as_deref(),
        Some("a@b.c")
    );
}

#[test]
fn rejects_inner_white_space_of_any_kind() {
    assert!(normalize_email("a\u{00a0}b@example.com").is_err());
    assert!(normalize_email("ab@exa\tmple.com").is_err());
}

#[test]
fn accepts_email_of_exactly_the_length_limit() {
    let local = "a".repeat(254 - "@example.com".len());
    let email = format!("{}@example.com", local);
    assert_eq!(email.len(), 254);
    assert_eq!(normalize_email(&email).ok(), Some(email.clone()));
    let longer = format!("a{}", email);
    assert!(normalize_email(&longer).is_err());
}

#[test]
fn length_limit_counts_bytes_after_lowercasing() {
    // 'É' lowercases to 'é', two bytes each.
    let local = "É".repeat(121);
    let email = format!("{}@example.com", local);
    let normalized = normalize_email(&email);
    assert_eq!(normalized.ok(), Some(format!("{}@example.com", "é".repeat(121))));
    let too_long = format!("{}@example.com", "É".repeat(122));
    assert!(normalize_email(&too_long).is_err());
}

#[test]
fn normalizing_twice_changes_nothing() {
    let once = normalize_email("  Mixed.Case@Example.Org").unwrap();
    assert_eq!(normalize_email(&once).unwrap(), once);
}
