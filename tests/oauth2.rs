use supabase_fdw_ntp::error::OAuth2Error;
use supabase_fdw_ntp::oauth2::{encode, CachedToken, OAuth2Config, OAuth2Manager, TokenReply};

fn config() -> OAuth2Config {
    OAuth2Config {
        token_url: "https://example.com/token".to_string(),
        client_id: "test_client".to_string(),
        client_secret: "test_secret".to_string(),
        scope: "test_scope".to_string(),
    }
}

#[test]
fn test_oauth2_manager_creation() {
    let manager = OAuth2Manager::new(config().clone());

    // Verify cache is initially empty
    assert!(!manager.has_cached_token(), "Cache should be empty on creation");
}

#[test]
fn test_urlencoding_basic() {
    assert_eq!(encode("hello"), "hello");
    assert_eq!(encode("hello world"), "hello+world");
    assert_eq!(encode("a@b.com"), "a%40b.com");
    assert_eq!(encode("test_123-abc.xyz~"), "test_123-abc.xyz~");
}

#[test]
fn test_urlencoding_special_chars() {
    assert_eq!(encode("a&b=c"), "a%26b%3Dc");
    assert_eq!(encode("100%"), "100%25");
}

#[test]
fn urlencoding_takes_low_byte_of_wide_chars() {
    // U+00E9 is 0xE9; U+0101 has low byte 0x01
    assert_eq!(encode("\u{e9}"), "%E9");
    assert_eq!(encode("\u{101}"), "%01");
}

#[test]
fn token_request_body_is_form_encoded() {
    let mut c = config();
    c.client_secret = "s e&cret".to_string();
    let manager = OAuth2Manager::new(c);
    assert_eq!(
        manager.token_request_body(),
        "grant_type=client_credentials&client_id=test_client&client_secret=s+e%26cret&scope=test_scope"
    );
}

#[test]
fn cached_token_expiry_uses_five_minute_buffer() {
    let t = CachedToken { access_token: "tok".to_string(), expires_at: 10_000 };
    assert!(!t.is_expired(9_699));
    assert!(t.is_expired(9_700));
    assert!(t.is_expired(20_000));
    let low = CachedToken { access_token: "tok".to_string(), expires_at: i64::MIN + 5 };
    assert!(low.is_expired(i64::MIN));
}

#[test]
fn accepted_reply_is_cached_until_near_expiry() {
    let mut m = OAuth2Manager::new(config());
    assert!(m.is_near_expiry(1_000));
    assert_eq!(m.get_token(1_000), None);
    let reply = TokenReply { access_token: "abc".to_string(), expires_in: 3600 };
    let tok = m.accept_token_reply(200, "{}".to_string(), Ok(reply), 1_000).unwrap();
    assert_eq!(tok, "abc");
    assert_eq!(m.get_token(1_000), Some("abc".to_string()));
    assert!(!m.is_near_expiry(4_299));
    assert!(m.is_near_expiry(4_300));
    assert_eq!(m.get_token(4_300), None);
    m.clear_cache();
    assert!(!m.has_cached_token());
    assert!(m.is_near_expiry(1_000));
}

#[test]
fn rejected_replies_leave_cache_alone() {
    let mut m = OAuth2Manager::new(config());
    let ok = TokenReply { access_token: "abc".to_string(), expires_in: 60 };
    assert!(matches!(
        m.accept_token_reply(401, String::new(), Ok(ok.clone()), 0),
        Err(OAuth2Error::InvalidCredentials)
    ));
    match m.accept_token_reply(500, "oops".to_string(), Ok(ok), 0) {
        Err(OAuth2Error::FetchFailed { status, body }) => {
            assert_eq!(status, 500);
            assert_eq!(body, "oops");
        }
        other => panic!("unexpected {:?}", other),
    }
    assert!(matches!(
        m.accept_token_reply(200, "garbage".to_string(), Err("eof".to_string()), 0),
        Err(OAuth2Error::InvalidTokenResponse(_))
    ));
    let empty = TokenReply { access_token: String::new(), expires_in: 60 };
    assert!(matches!(
        m.accept_token_reply(200, String::new(), Ok(empty), 0),
        Err(OAuth2Error::InvalidTokenResponse(_))
    ));
    let zero = TokenReply { access_token: "x".to_string(), expires_in: 0 };
    assert!(matches!(
        m.accept_token_reply(200, String::new(), Ok(zero), 0),
        Err(OAuth2Error::InvalidTokenResponse(_))
    ));
    assert!(!m.has_cached_token());
}
