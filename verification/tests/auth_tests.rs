use codebox_rmcp::auth::{auth_middleware, extract_token, visible_text, TokenStore, UNAUTHORIZED};
use codebox_rmcp::server::authorize;

#[test]
fn token_list_is_split_trimmed_and_filtered() {
    let store = TokenStore::from_env(Some("alpha, beta ,,gamma,  ,"));
    assert!(store.is_valid("alpha"));
    assert!(store.is_valid("beta"));
    assert!(store.is_valid("gamma"));
    assert!(!store.is_valid(" beta "));
    assert!(!store.is_valid(""));
    assert!(!store.is_valid(" "));
    assert!(!store.is_valid("alpha, beta"));
    assert!(!store.is_valid("delta"));
}

#[test]
fn absent_or_empty_token_list_admits_nothing() {
    for raw in [None, Some(""), Some(","), Some(" , ,, ")] {
        let store = TokenStore::from_env(raw);
        assert!(!store.is_valid(""));
        assert!(!store.is_valid(" "));
        assert!(!store.is_valid(","));
        assert!(!store.is_valid("alpha"));
    }
}

#[test]
fn token_may_hold_inner_spaces_and_repeat() {
    let store = TokenStore::from_env(Some("two words,one,one"));
    assert!(store.is_valid("two words"));
    assert!(store.is_valid("one"));
    assert!(!store.is_valid("two"));
    assert!(!store.is_valid("words"));
}

#[test]
fn tokens_are_compared_exactly() {
    let store = TokenStore::from_env(Some("Secret"));
    assert!(store.is_valid("Secret"));
    assert!(!store.is_valid("secret"));
    assert!(!store.is_valid("Secret "));
    assert!(!store.is_valid("Secre"));
}

#[test]
fn header_reads_as_text_only_if_visible_ascii() {
    assert_eq!(visible_text(b"Bearer abc"), Some("Bearer abc".to_string()));
    assert_eq!(visible_text(b""), Some(String::new()));
    assert_eq!(visible_text(b"a\tb ~"), Some("a\tb ~".to_string()));
    assert_eq!(visible_text(b"a\nb"), None);
    assert_eq!(visible_text(b"a\x7fb"), None);
    assert_eq!(visible_text(b"a\x00b"), None);
    assert_eq!(visible_text("é".as_bytes()), None);
    assert_eq!(visible_text(&[0x80]), None);
    assert_eq!(visible_text(&[0xff]), None);
    assert_eq!(visible_text(&[31]), None);
    assert_eq!(visible_text(&[32]), Some(" ".to_string()));
    assert_eq!(visible_text(&[126]), Some("~".to_string()));
}

#[test]
fn extract_token_takes_what_follows_bearer() {
    assert_eq!(extract_token(Some(b"Bearer abc")), Some("abc".to_string()));
    assert_eq!(extract_token(Some(b"Bearer a b c")), Some("a b c".to_string()));
    assert_eq!(extract_token(Some(b"Bearer  abc")), Some(" abc".to_string()));
    assert_eq!(extract_token(Some(b"Bearer ")), Some(String::new()));
    assert_eq!(extract_token(Some(b"Bearer Bearer x")), Some("Bearer x".to_string()));
}

#[test]
fn extract_token_rejects_absent_and_malformed_headers() {
    assert_eq!(extract_token(None), None);
    assert_eq!(extract_token(Some(b"")), None);
    assert_eq!(extract_token(Some(b"abc")), None);
    assert_eq!(extract_token(Some(b"Bearer")), None);
    assert_eq!(extract_token(Some(b"bearer abc")), None);
    assert_eq!(extract_token(Some(b"BEARER abc")), None);
    assert_eq!(extract_token(Some(b" Bearer abc")), None);
    assert_eq!(extract_token(Some(b"Basic abc")), None);
    assert_eq!(extract_token(Some(b"Bearer\tabc")), None);
    assert_eq!(extract_token(Some("Bearer clé".as_bytes())), None);
    assert_eq!(extract_token(Some(b"Bearer ab\x7fc")), None);
    assert_eq!(extract_token(Some(b"Bearer ab\x01c")), None);
}

#[test]
fn absent_malformed_and_unknown_are_rejected() {
    let store = TokenStore::from_env(Some("alpha,beta"));
    assert_eq!(auth_middleware(&store, None), Err(401));
    assert_eq!(auth_middleware(&store, Some(b"alpha")), Err(401));
    assert_eq!(auth_middleware(&store, Some(b"Basic alpha")), Err(401));
    assert_eq!(auth_middleware(&store, Some(b"bearer alpha")), Err(401));
    assert_eq!(auth_middleware(&store, Some(b"Bearer gamma")), Err(401));
    assert_eq!(auth_middleware(&store, Some(b"Bearer ")), Err(401));
    assert_eq!(auth_middleware(&store, Some(b"Bearer alpha ")), Err(401));
    assert_eq!(auth_middleware(&store, Some(b"Bearer alpha,beta")), Err(401));
    assert_eq!(auth_middleware(&store, Some(&[66, 101, 97, 114, 101, 114, 32, 0xe9])), Err(401));
    assert_eq!(UNAUTHORIZED, 401);
}

#[test]
fn each_valid_token_is_let_through() {
    let store = TokenStore::from_env(Some("alpha, beta"));
    assert_eq!(auth_middleware(&store, Some(b"Bearer alpha")), Ok(()));
    assert_eq!(auth_middleware(&store, Some(b"Bearer beta")), Ok(()));
}

#[test]
fn store_without_tokens_rejects_all() {
    let store = TokenStore::from_env(None);
    assert_eq!(auth_middleware(&store, None), Err(401));
    assert_eq!(auth_middleware(&store, Some(b"Bearer ")), Err(401));
    assert_eq!(auth_middleware(&store, Some(b"Bearer alpha")), Err(401));
}

#[test]
fn token_that_no_header_can_present_never_passes() {
    let store = TokenStore::from_env(Some("clé"));
    assert!(store.is_valid("clé"));
    assert_eq!(auth_middleware(&store, Some("Bearer clé".as_bytes())), Err(401));
}

#[test]
fn liveness_probe_needs_no_credential() {
    let store = TokenStore::from_env(Some("alpha"));
    assert_eq!(authorize(&store, "/health", None), Ok(()));
    assert_eq!(authorize(&store, "/health", Some(b"garbage")), Ok(()));
    assert_eq!(authorize(&store, "/health", Some(b"Bearer wrong")), Ok(()));
    let empty = TokenStore::from_env(None);
    assert_eq!(authorize(&empty, "/health", None), Ok(()));
}

#[test]
fn every_other_path_needs_a_credential() {
    let store = TokenStore::from_env(Some("alpha"));
    for path in ["/mcp", "/mcp/", "/", "", "/health/", "/Health", "/healthz", "/execute"] {
        assert_eq!(authorize(&store, path, None), Err(401), "{:?}", path);
        assert_eq!(authorize(&store, path, Some(b"Bearer wrong")), Err(401), "{:?}", path);
        assert_eq!(authorize(&store, path, Some(b"Bearer alpha")), Ok(()), "{:?}", path);
    }
}
