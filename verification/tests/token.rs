use rincuma::token::SessionToken;

#[test]
fn generates_url_safe_token_and_stable_digest() {
    let token_result = SessionToken::generate();
    assert!(token_result.is_ok());
    let Ok(token) = token_result else {
        return;
    };
    let parsed_digest = SessionToken::parse(token.expose()).map(|token| token.digest());

    assert_eq!(token.expose().len(), 43);
    assert_eq!(Some(token.digest()), parsed_digest);
    assert_ne!(token.expose(), token.digest());
}

#[test]
fn rejects_malformed_token() {
    assert!(SessionToken::parse("not a session token").is_none());
    assert!(SessionToken::parse("c2hvcnQ").is_none());
}

#[test]
fn token_from_bytes_is_unpadded_url_safe_base64() {
    let token = SessionToken::from_bytes(&[0xfb; 32]);
    assert_eq!(token.expose(), format!("{}-_s", "-_v7".repeat(10)));
    assert!(token
        .expose()
        .chars()
        .all(|c| c.is_ascii_alphanumeric() || c == '-' || c == '_'));
    assert_eq!(SessionToken::parse(token.expose()).unwrap().expose(), token.expose());
}

#[test]
fn digest_is_sha256_in_base64() {
    let token = SessionToken::from_bytes(&[0u8; 32]);
    assert_eq!(token.expose(), "A".repeat(43));
    // SHA-256 of the 43 ASCII bytes "AAA...A".
    let digest = token.digest();
    assert_eq!(digest, "DwBzhbb51LfusnSGBa_hqYSgo7-j8BTQnip4TOnlzRo");
    assert_eq!(digest.len(), 43);
    assert_ne!(digest, token.expose());
    assert_eq!(digest, SessionToken::from_bytes(&[0u8; 32]).digest());
    assert_ne!(digest, SessionToken::from_bytes(&[1u8; 32]).digest());
}

#[test]
fn parse_accepts_only_32_byte_payloads() {
    // 31 and 33 bytes of Base64.
    assert!(SessionToken::parse(&"A".repeat(42)).is_none());
    assert!(SessionToken::parse(&"A".repeat(44)).is_none());
    // padded form is refused
    assert!(SessionToken::parse(&format!("{}=", "A".repeat(43))).is_none());
}

#[test]
fn generated_token_uses_only_the_url_safe_alphabet() {
    let Ok(token) = SessionToken::generate() else {
        return;
    };
    assert!(token
        .expose()
        .chars()
        .all(|c| c.is_ascii_alphanumeric() || c == '-' || c == '_'));
    let digest = token.digest();
    assert!(digest.chars().all(|c| c.is_ascii_alphanumeric() || c == '-' || c == '_'));
}

#[test]
fn token_from_bytes_encodes_each_group_of_three_bytes() {
    let token = SessionToken::from_bytes(&[0xff; 32]);
    assert_eq!(token.expose(), format!("{}8", "_".repeat(42)));
    let mut bytes = [0u8; 32];
    bytes[0] = b'M';
    bytes[1] = b'a';
    bytes[2] = b'n';
    let token = SessionToken::from_bytes(&bytes);
    assert!(token.expose().starts_with("TWFu"));
}

#[test]
fn parse_accepts_exactly_the_canonical_text_of_32_bytes() {
    assert!(SessionToken::parse(&"A".repeat(43)).is_some());
    // Same bytes, but the last character carries set bits after the last byte.
    assert!(SessionToken::parse(&format!("{}B", "A".repeat(42))).is_none());
    // Characters of the other Base64 alphabet are refused.
    assert!(SessionToken::parse(&format!("{}+", "A".repeat(42))).is_none());
    assert!(SessionToken::parse(&format!("{}/", "A".repeat(42))).is_none());
}
