use tnbot_core::deck::{bot_did_or_fallback, format_token, web_credentials, NavItem, SessionStore, SESSION_TTL_SECS};
use tnbot_core::config::Settings;
use tnbot_core::web::auth::is_authorized;
use tnbot_core::web::cookies::{clear_session_cookie, set_session_cookie, CookieError, SessionCookie, UserSession};
use tnbot_core::web::handlers::{check_allowed_handle, find_session_cookie, get_session_from_cookies, HandleError};
use tnbot_core::web::server::Server;
use tnbot_core::web::templates::{day_name, format_author, thread_uri_to_id, truncate_uri, PageSection};
use tnbot_core::web::user_client::{compose_mention_post, create_mention_facets};
use tnbot_core::jetstream::types::FacetFeature;

const KEY: &str = "000102030405060708090a0b0c0d0e0f101112131415161718191a1b1c1d1e1f";

#[test]
fn session_cookie_key_must_be_32_hex_bytes() {
    assert!(SessionCookie::new(KEY).is_ok());
    assert!(matches!(SessionCookie::new("zz"), Err(CookieError::InvalidKeyHex)));
    assert!(matches!(SessionCookie::new("0011"), Err(CookieError::WrongKeyLength(2))));
}

#[test]
fn session_cookie_key_hex_ignores_case_and_rejects_odd_length() {
    assert!(SessionCookie::new(&KEY.to_uppercase()).is_ok());
    assert!(matches!(SessionCookie::new("001"), Err(CookieError::InvalidKeyHex)));
    assert!(matches!(SessionCookie::new("0g"), Err(CookieError::InvalidKeyHex)));
    assert!(matches!(SessionCookie::new("aBcD"), Err(CookieError::WrongKeyLength(2))));
}

#[test]
fn day_names_from_sunday() {
    assert_eq!(day_name(0), "Sunday");
    assert_eq!(day_name(3), "Wednesday");
    assert_eq!(day_name(6), "Saturday");
}

#[test]
fn sealed_cookie_opens_to_its_plaintext() {
    let mgr = SessionCookie::new(KEY).unwrap();
    let plaintext = br#"{"did":"did:plc:a","handle":"a.test","access_jwt":"x","refresh_jwt":"y","exp":5}"#;
    let sealed = mgr.encrypt_session(plaintext).unwrap();
    assert_ne!(sealed.as_bytes(), plaintext);
    assert_eq!(mgr.decrypt_session(&sealed).unwrap(), plaintext.to_vec());

    let nonce = [7u8; 12];
    let a = mgr.encrypt_session_with_nonce(b"abc", &nonce).unwrap();
    let b = mgr.encrypt_session_with_nonce(b"abc", &nonce).unwrap();
    assert_eq!(a, b);
    assert_eq!(mgr.decrypt_session(&a).unwrap(), b"abc".to_vec());
}

#[test]
fn cookie_read_errors() {
    let mgr = SessionCookie::new(KEY).unwrap();
    assert_eq!(mgr.decrypt_session("not base64!"), Err(CookieError::InvalidBase64));
    assert_eq!(mgr.decrypt_session("AAAA"), Err(CookieError::TooShort));
    assert_eq!(mgr.decrypt_session("AAAAAAAAAAAAAAAAAAAAAAAAAAAAAAAA"), Err(CookieError::DecryptFailed));
    let other = SessionCookie::new(&KEY.replace("00", "ff")).unwrap();
    let sealed = other.encrypt_session(b"x").unwrap();
    assert_eq!(mgr.decrypt_session(&sealed), Err(CookieError::DecryptFailed));
}

#[test]
fn cookie_with_bad_padding_or_length_is_not_base64() {
    let mgr = SessionCookie::new(KEY).unwrap();
    assert_eq!(mgr.decrypt_session("AAAAAAAAAAAAAAAAA"), Err(CookieError::InvalidBase64));
    assert_eq!(mgr.decrypt_session("AAAAAAAAAAAAAA=A"), Err(CookieError::InvalidBase64));
    assert_eq!(mgr.decrypt_session("AAAAAAAAAAAAAAAA\u{e9}AAA"), Err(CookieError::InvalidBase64));
}

#[test]
fn set_and_clear_session_cookie() {
    let mut cookies = Vec::new();
    assert_eq!(set_session_cookie(&mut cookies, None, b"s"), Err(CookieError::MissingKey));
    assert!(cookies.is_empty());
    assert_eq!(set_session_cookie(&mut cookies, Some("abc"), b"s"), Err(CookieError::InvalidKeyHex));
    assert!(cookies.is_empty());
    assert_eq!(set_session_cookie(&mut cookies, Some(KEY), b"session"), Ok(()));
    assert_eq!(cookies.len(), 1);
    assert_eq!(cookies[0].0, "thunderbot_session");
    let value = cookies[0].1.clone();
    let suffix = "; HttpOnly; Secure; SameSite=Strict; Max-Age=28800";
    assert!(value.ends_with(suffix));
    let sealed = &value[..value.len() - suffix.len()];
    let mgr = SessionCookie::new(KEY).unwrap();
    assert_eq!(mgr.decrypt_session(sealed).unwrap(), b"session".to_vec());

    clear_session_cookie(&mut cookies);
    assert_eq!(cookies.len(), 2);
    assert_eq!(cookies[1], ("thunderbot_session".to_string(), String::new()));
}

#[test]
fn session_cookie_found_in_header() {
    assert_eq!(find_session_cookie("a=1; thunderbot_session=abc; b=2"), Some("abc".to_string()));
    assert_eq!(find_session_cookie("thunderbot_session=; thunderbot_session=xyz"), Some("xyz".to_string()));
    assert_eq!(find_session_cookie("a=1;b=2"), None);
    assert_eq!(find_session_cookie(""), None);
}

#[test]
fn session_read_from_cookies() {
    let mgr = SessionCookie::new(KEY).unwrap();
    let sealed = mgr.encrypt_session(b"payload").unwrap();
    let header = format!("theme=dark; thunderbot_session={sealed}");
    assert_eq!(get_session_from_cookies(Some(&header), Some(KEY)), Ok(Some(b"payload".to_vec())));
    assert_eq!(get_session_from_cookies(None, Some(KEY)), Ok(None));
    assert_eq!(get_session_from_cookies(Some("theme=dark"), None), Ok(None));
    assert_eq!(get_session_from_cookies(Some(&header), None), Err(CookieError::MissingKey));
    assert_eq!(get_session_from_cookies(Some("thunderbot_session=%%%"), Some(KEY)), Err(CookieError::InvalidBase64));
}

#[test]
fn allowed_handles_ignore_case_and_spaces() {
    assert_eq!(check_allowed_handle(Some("alice.test, Bob.Test"), "bob.test"), Ok(()));
    assert_eq!(check_allowed_handle(Some("alice.test, Bob.Test"), "ALICE.TEST"), Ok(()));
    assert_eq!(check_allowed_handle(Some("alice.test"), "carol.test"), Err(HandleError::NotAllowed));
    assert_eq!(check_allowed_handle(None, "carol.test"), Err(HandleError::NotConfigured));
}

#[test]
fn unconfigured_or_blank_allowed_list_refuses_everyone() {
    assert_eq!(check_allowed_handle(None, ""), Err(HandleError::NotConfigured));
    assert_eq!(check_allowed_handle(Some(""), "alice.test"), Err(HandleError::NotConfigured));
    assert_eq!(check_allowed_handle(Some(" , ,"), ""), Err(HandleError::NotConfigured));
}

#[test]
fn blank_entries_never_match() {
    assert_eq!(check_allowed_handle(Some("alice.test,"), "alice.test"), Ok(()));
    assert_eq!(check_allowed_handle(Some("alice.test,"), ""), Err(HandleError::NotAllowed));
    assert_eq!(check_allowed_handle(Some("alice.test, ,bob.test"), "  "), Err(HandleError::NotAllowed));
}

#[test]
fn bearer_token_check() {
    assert!(is_authorized(Some("Bearer secret"), Some("secret")));
    assert!(!is_authorized(Some("Bearer secret2"), Some("secret")));
    assert!(!is_authorized(Some("secret"), Some("secret")));
    assert!(!is_authorized(None, Some("secret")));
    assert!(is_authorized(Some("Bearer changeme"), None));
}

#[test]
fn user_session_expiry() {
    let s = UserSession {
        did: "did:plc:a".to_string(),
        handle: "a".to_string(),
        access_jwt: "x".to_string(),
        refresh_jwt: "y".to_string(),
        exp: 100,
    };
    assert!(s.is_expired_at(100));
    assert!(!s.is_expired_at(99));
    assert!(s.is_expired());
}

#[test]
fn page_paths() {
    assert_eq!(PageSection::Dashboard.path(), "/dashboard");
    assert_eq!(PageSection::Broadcast.path(), "/admin");
    assert_eq!(PageSection::Search.path(), "/search");
}

#[test]
fn authors_and_uris_for_display() {
    assert_eq!(format_author("did:plc:abc", "model"), "ThunderBot");
    assert_eq!(format_author("did:plc:abc", "user"), "User (abc)");
    assert_eq!(format_author("nodid", "user"), "User (nodid)");
    let long = "at://did:plc:aaaaaaaaaaaaaaaaaaaaaaaa/app.bsky.feed.post/3kxyzxyzxyzxyzxyz";
    assert_eq!(truncate_uri(long), format!("{}...", &long[..60]));
    assert_eq!(truncate_uri("at://short"), "at://short");
    assert_eq!(thread_uri_to_id("at://x"), "YXQ6Ly94");
}

#[test]
fn mention_facets_use_byte_offsets() {
    let facets = create_mention_facets("héllo @bot.test!", "did:plc:bot", "bot.test");
    assert_eq!(facets.len(), 1);
    assert_eq!(facets[0].index.byte_start, 7);
    assert_eq!(facets[0].index.byte_end, 16);
    assert!(matches!(&facets[0].features[0], FacetFeature::Mention { did } if did == "did:plc:bot"));
    assert!(create_mention_facets("no mention", "did:plc:bot", "bot.test").is_empty());

    let (text, facets) = compose_mention_post("  hello  ", "did:plc:bot", "bot.test");
    assert_eq!(text, "@bot.test hello");
    assert_eq!(facets.len(), 1);
    assert_eq!((facets[0].index.byte_start, facets[0].index.byte_end), (0, 9));
}

#[test]
fn server_builder() {
    let server = Server::new(5u32).with_address("0.0.0.0".to_string()).with_port(8080).with_dry_run(true);
    assert_eq!(server.address(), "0.0.0.0");
    assert_eq!(server.port(), 8080);
    assert!(server.is_dry_run());
    assert_eq!(*server.app_state(), 5);
    let default = Server::new(());
    assert_eq!(default.address(), "127.0.0.1");
    assert_eq!(default.port(), 3000);
    assert!(!default.is_dry_run());
}

#[test]
fn deck_navigation_and_bot_did() {
    assert_eq!(NavItem::items(), vec![NavItem::Dashboard, NavItem::Logs, NavItem::Chat, NavItem::Config]);
    let mut settings = Settings::default();
    assert_eq!(bot_did_or_fallback(&settings), "did:unknown");
    settings.bot.did = "  ".to_string();
    assert_eq!(bot_did_or_fallback(&settings), "did:unknown");
    settings.bot.did = "did:plc:bot".to_string();
    assert_eq!(bot_did_or_fallback(&settings), "did:plc:bot");
}

#[test]
fn deck_sessions_live_for_their_lifetime() {
    let mut store = SessionStore::new("admin".to_string(), "pw".to_string());
    assert!(store.verify_credentials("admin", "pw"));
    assert!(!store.verify_credentials("admin", "nope"));
    store.record_session("tok".to_string(), 100);
    assert!(store.validate_session("tok", 100 + SESSION_TTL_SECS - 1));
    assert!(!store.validate_session("tok", 100 + SESSION_TTL_SECS));
    assert!(!store.validate_session("tok", 100));
    assert!(!store.validate_session("other", 0));

    let token = store.issue_session(1000);
    assert_eq!(token.len(), 64);
    assert!(token.chars().all(|c| c.is_ascii_hexdigit() && !c.is_ascii_uppercase()));
    assert!(store.validate_session(&token, 1001));
}

#[test]
fn tokens_and_credentials() {
    assert_eq!(format_token(0, 255), format!("{:032x}{:032x}", 0u128, 255u128));
    assert_eq!(format_token(u128::MAX, 1), format!("{:032x}{:032x}", u128::MAX, 1u128));
    let c = web_credentials(None, Some("secret"));
    assert_eq!(c.username, "admin");
    assert_eq!(c.password, "secret");
    assert!(!c.generated_password);
    let c = web_credentials(Some("root"), Some("   "));
    assert_eq!(c.username, "root");
    assert!(c.generated_password);
    assert_eq!(c.password.len(), 64);
}
