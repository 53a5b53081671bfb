use rincuma::auth::{logout_session_digest, required_session_token, session_set_cookie};
use rincuma::error::AuthError;
use rincuma::session_cookie::{cookie_name, removal_cookie, session_cookie, session_token};
use rincuma::token::SessionToken;

#[test]
fn reads_only_the_cookie_for_the_current_security_mode() {
    let Ok(token) = SessionToken::generate() else {
        return;
    };
    let headers = vec![format!("rincuma_session={}", token.expose())];

    assert!(session_token(&headers, false).is_some());
    assert!(session_token(&headers, true).is_none());
}

#[test]
fn secure_cookie_uses_host_prefix_and_security_attributes() {
    let cookie = session_cookie("token", true).to_string();

    assert!(cookie.starts_with("__Host-rincuma_session=token"));
    assert!(cookie.contains("HttpOnly"));
    assert!(cookie.contains("SameSite=Strict"));
    assert!(cookie.contains("Secure"));
    assert!(cookie.contains("Path=/"));
}

#[test]
fn session_cookie_renders_exactly() {
    assert_eq!(
        session_cookie("abc", true).to_string(),
        "__Host-rincuma_session=abc; HttpOnly; SameSite=Strict; Secure; Path=/; Max-Age=2592000"
    );
    assert_eq!(
        session_cookie("abc", false).to_string(),
        "rincuma_session=abc; HttpOnly; SameSite=Strict; Path=/; Max-Age=2592000"
    );
}

#[test]
fn removal_cookie_empties_and_expires_the_session_cookie() {
    let text = removal_cookie(false).to_string();
    assert!(text.starts_with(
        "rincuma_session=; HttpOnly; SameSite=Strict; Path=/; Max-Age=0; Expires="
    ));
    let secure = removal_cookie(true).to_string();
    assert!(secure.starts_with("__Host-rincuma_session=; HttpOnly; SameSite=Strict; Secure;"));
}

#[test]
fn cookie_names_per_mode() {
    assert_eq!(cookie_name(true), "__Host-rincuma_session");
    assert_eq!(cookie_name(false), "rincuma_session");
}

#[test]
fn finds_token_among_other_cookies_and_headers() {
    let token = SessionToken::from_bytes(&[7u8; 32]);
    let headers = vec![
        "theme=dark; lang=en".to_string(),
        format!("junk; __Host-rincuma_session={} ; x=1", token.expose()),
    ];
    let found = session_token(&headers, true).unwrap();
    assert_eq!(found.expose(), token.expose());
    assert!(session_token(&headers, false).is_none());
}

#[test]
fn first_session_cookie_decides_even_if_malformed() {
    let token = SessionToken::from_bytes(&[7u8; 32]);
    let headers = vec![format!(
        "rincuma_session=bogus; rincuma_session={}",
        token.expose()
    )];
    assert!(session_token(&headers, false).is_none());
}

#[test]
fn missing_session_token_is_unauthorized() {
    let headers: Vec<String> = vec![];
    assert!(matches!(
        required_session_token(&headers, true),
        Err(AuthError::Unauthorized)
    ));
    assert_eq!(logout_session_digest(&headers, true), None);
}

#[test]
fn logout_targets_the_digest_of_the_presented_token() {
    let token = SessionToken::from_bytes(&[9u8; 32]);
    let headers = vec![format!("rincuma_session={}", token.expose())];
    assert_eq!(logout_session_digest(&headers, false), Some(token.digest()));
}

#[test]
fn login_cookie_carries_the_token() {
    let token = SessionToken::from_bytes(&[3u8; 32]);
    let text = session_set_cookie(&token, false);
    assert!(text.starts_with(&format!("rincuma_session={};", token.expose())));
}

#[test]
fn cookie_pieces_are_trimmed_and_blank_pieces_skipped() {
    let token = SessionToken::from_bytes(&[5u8; 32]);
    let headers = vec![format!(
        " ; \t;novalue; =x;  rincuma_session \t=  {}  ;",
        token.expose()
    )];
    let found = session_token(&headers, false).unwrap();
    assert_eq!(found.expose(), token.expose());
}

#[test]
fn session_cookie_reads_back_in_its_own_mode() {
    for secure in [false, true] {
        let token = SessionToken::from_bytes(&[11u8; 32]);
        let headers = vec![format!("{}={}", cookie_name(secure), token.expose())];
        let found = session_token(&headers, secure).unwrap();
        assert_eq!(found.expose(), token.expose());
        assert!(session_token(&headers, !secure).is_none());
    }
}
