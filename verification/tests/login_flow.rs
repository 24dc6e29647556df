use jitsi_openid::error::AppError;
use jitsi_openid::jwt::JitsiUser;
use jitsi_openid::login::{
    after_id_token, after_user_info, finish_login, finish_login_at, open_login, requested_scopes, start_login,
    JitsiSettings, UserLookup,
};
use jitsi_openid::session::{claim_session, open_session, prune_expired_sessions, take_session, Session, SessionStore};
use jsonwebtoken::{decode, DecodingKey, Validation};
use serde_json::Value;
use url::Url;

const SECOND: i128 = 1_000_000_000;

fn s(x: &str) -> String {
    x.to_string()
}

fn session(room: &str, csrf: &str, expires_at: i128) -> Session {
    Session { room: s(room), csrf_token: s(csrf), nonce: s("n"), pkce_verifier: s("p"), expires_at }
}

fn user() -> JitsiUser {
    JitsiUser {
        id: s("stable-subject"),
        email: None,
        affiliation: None,
        name: Some(s("Ada")),
        avatar: None,
        moderator: None,
    }
}

#[test]
fn login_session_round_trips_through_cookie() {
    let mut store = SessionStore::new();
    let cookie = start_login(&mut store, "https://auth.example.com/app", s("room1"), s("csrf"), s("nonce"), s("pkce"), 1800)
        .expect("login should start");
    assert_eq!(cookie.name, "JITSI_OPENID_SESSION");
    assert_eq!(cookie.domain, "auth.example.com");
    assert_eq!(cookie.path, "/app");
    assert!(cookie.secure);
    assert!(cookie.http_only);
    assert!(cookie.same_site_lax);
    assert_eq!(cookie.max_age_seconds, 1800);
    let id = uuid::Uuid::parse_str(&cookie.value).expect("cookie holds a uuid");
    assert!(store.contains(id.as_u128()));

    let session = claim_session(&mut store, Some(&cookie.value), "csrf").expect("session should be found");
    assert_eq!(session.room, "room1");
    assert_eq!(session.nonce, "nonce");
    assert_eq!(session.pkce_verifier, "pkce");
    assert!(!store.contains(id.as_u128()));

    assert!(matches!(claim_session(&mut store, Some(&cookie.value), "csrf"), Err(AppError::InvalidSession)));
}

#[test]
fn wrong_state_is_refused_and_consumes_the_session() {
    let mut store = SessionStore::new();
    let cookie = start_login(&mut store, "http://auth.example.com/", s("room"), s("csrf"), s("n"), s("p"), 60).unwrap();
    assert!(!cookie.secure);
    assert!(matches!(claim_session(&mut store, Some(&cookie.value), "other"), Err(AppError::InvalidState)));
    assert!(matches!(claim_session(&mut store, Some(&cookie.value), "csrf"), Err(AppError::InvalidSession)));
}

#[test]
fn missing_or_unreadable_cookie_is_an_invalid_session() {
    let mut store = SessionStore::new();
    open_session(&mut store, 7, session("room", "csrf", i128::MAX), 0);
    assert!(matches!(claim_session(&mut store, None, "csrf"), Err(AppError::InvalidSession)));
    assert!(matches!(claim_session(&mut store, Some("not-a-uuid"), "csrf"), Err(AppError::InvalidSession)));
    let unknown = uuid::Uuid::from_u128(8).to_string();
    assert!(matches!(claim_session(&mut store, Some(&unknown), "csrf"), Err(AppError::InvalidSession)));
    assert!(store.contains(7));
}

#[test]
fn session_expires_at_its_deadline() {
    let cookie7 = uuid::Uuid::from_u128(7).to_string();
    let mut store = SessionStore::new();
    open_session(&mut store, 7, session("room", "csrf", 10 * SECOND), 0);
    assert!(matches!(take_session(&mut store, Some(&cookie7), "csrf", 10 * SECOND), Err(AppError::InvalidSession)));
    assert!(!store.contains(7));

    let mut store = SessionStore::new();
    open_session(&mut store, 7, session("room", "csrf", 10 * SECOND), 0);
    assert!(take_session(&mut store, Some(&cookie7), "csrf", 10 * SECOND - 1).is_ok());
}

#[test]
fn opening_a_session_drops_expired_ones() {
    let mut store = SessionStore::new();
    open_session(&mut store, 1, session("a", "x", 5 * SECOND), 0);
    open_session(&mut store, 2, session("b", "y", 20 * SECOND), 0);
    open_session(&mut store, 3, session("c", "z", 30 * SECOND), 10 * SECOND);
    assert!(!store.contains(1));
    assert!(store.contains(2));
    assert!(store.contains(3));
    store.remove_expired_at(25 * SECOND);
    assert!(!store.contains(2));
    assert!(store.contains(3));
    prune_expired_sessions(&mut store);
    assert!(!store.contains(3));
}

#[test]
fn open_login_stores_session_with_expiry() {
    let mut store = SessionStore::new();
    let cookie = open_login(&mut store, 42, 100 * SECOND, "https://auth.example.com/", s("r"), s("c"), s("n"), s("p"), 30)
        .unwrap();
    assert_eq!(cookie.value, uuid::Uuid::from_u128(42).to_string());
    assert!(take_session(&mut store, Some(&cookie.value), "c", 130 * SECOND - 1).is_ok());
}

#[test]
fn unrepresentable_session_expiry_is_an_internal_error() {
    let mut store = SessionStore::new();
    let r = open_login(&mut store, 42, 0, "https://auth.example.com/", s("r"), s("c"), s("n"), s("p"), i64::MAX);
    assert!(matches!(r, Err(AppError::InternalServerError)));
    assert!(!store.contains(42));
}

#[test]
fn base_url_without_host_gives_no_cookie() {
    let mut store = SessionStore::new();
    let r = open_login(&mut store, 42, 0, "data:text/plain,hello", s("r"), s("c"), s("n"), s("p"), 30);
    assert!(matches!(r, Err(AppError::InternalServerError)));
    assert!(!store.contains(42));
}

#[test]
fn default_scope_is_email_besides_openid() {
    assert_eq!(requested_scopes(None), vec![s("email")]);
    assert_eq!(requested_scopes(Some(vec![s("jitsi")])), vec![s("jitsi")]);
}

#[test]
fn user_lookup_steps_follow_the_callback() {
    assert!(matches!(after_id_token(Ok(Some(user()))), UserLookup::Found(_)));
    assert!(matches!(after_id_token(Ok(None)), UserLookup::AskUserInfo));
    assert!(matches!(after_id_token(Err(AppError::InvalidCode)), UserLookup::Failed(AppError::InvalidCode)));
    assert!(after_user_info(Ok(Some(user()))).is_ok());
    assert!(matches!(after_user_info(Ok(None)), Err(AppError::MissingIdTokenAndUserInfoEndpoint)));
    assert!(matches!(after_user_info(Err(AppError::UnableToQueryUserInfo)), Err(AppError::UnableToQueryUserInfo)));
}

#[test]
fn finished_login_redirects_into_room_with_token() {
    let settings = JitsiSettings {
        jitsi_url: s("https://meet.example.com/base?lang=de#x"),
        jitsi_sub: s("meet.example.com"),
        jitsi_secret: s("secret"),
        group: s("staff"),
        jwt_max_age_seconds: 300,
        skip_prejoin_screen: None,
    };
    let url = finish_login(user(), &session("//evil.example/x", "c", 0), &settings).expect("redirect");
    let url = Url::parse(&url).unwrap();
    assert_eq!(url.host_str(), Some("meet.example.com"));
    assert_eq!(url.path(), "/base/%2F%2Fevil.example%2Fx");
    assert_eq!(url.fragment(), Some("config.prejoinConfig.enabled=false"));
    let pairs: Vec<(String, String)> = url.query_pairs().map(|(k, v)| (k.to_string(), v.to_string())).collect();
    assert_eq!(pairs.len(), 1);
    assert_eq!(pairs[0].0, "jwt");

    let mut validation = Validation::default();
    validation.set_audience(&["jitsi"]);
    let claims = decode::<Value>(&pairs[0].1, &DecodingKey::from_secret(b"secret"), &validation).unwrap().claims;
    assert_eq!(claims["room"], "//evil.example/x");
    assert_eq!(claims["sub"], "meet.example.com");
    assert_eq!(claims["iss"], "jitsi");
    assert_eq!(claims["context"]["group"], "staff");
    assert_eq!(claims["context"]["user"]["name"], "Ada");
}

#[test]
fn prejoin_screen_can_be_kept() {
    let settings = JitsiSettings {
        jitsi_url: s("https://meet.example.com/"),
        jitsi_sub: s("meet.example.com"),
        jitsi_secret: s("secret"),
        group: s(""),
        jwt_max_age_seconds: 300,
        skip_prejoin_screen: Some(false),
    };
    let url = finish_login(user(), &session("room", "c", 0), &settings).unwrap();
    let url = Url::parse(&url).unwrap();
    assert_eq!(url.path(), "/room");
    assert_eq!(url.fragment(), None);
}

#[test]
fn token_failure_is_an_internal_error() {
    let settings = JitsiSettings {
        jitsi_url: s("https://meet.example.com/"),
        jitsi_sub: s("meet.example.com"),
        jitsi_secret: s("secret"),
        group: s(""),
        jwt_max_age_seconds: i64::MAX,
        skip_prejoin_screen: None,
    };
    assert!(matches!(finish_login(user(), &session("room", "c", 0), &settings), Err(AppError::InternalServerError)));
}

#[test]
fn login_finished_at_fixed_time_carries_exact_times() {
    let settings = JitsiSettings {
        jitsi_url: s("https://meet.example.com/"),
        jitsi_sub: s("meet.example.com"),
        jitsi_secret: s("secret"),
        group: s("g"),
        jwt_max_age_seconds: 120,
        skip_prejoin_screen: Some(false),
    };
    let now: i128 = 1_000 * SECOND + 7;
    let url = finish_login_at(user(), &session("room", "c", 0), &settings, now).unwrap();
    let url = Url::parse(&url).unwrap();
    let token = url.query_pairs().find(|(k, _)| k == "jwt").unwrap().1.to_string();
    let mut validation = Validation::default();
    validation.set_audience(&["jitsi"]);
    validation.validate_exp = false;
    let claims = decode::<Value>(&token, &DecodingKey::from_secret(b"secret"), &validation).unwrap().claims;
    assert_eq!(claims["iat"], 1_000i64);
    assert_eq!(claims["nbf"], 1_000i64);
    assert_eq!(claims["exp"], 1_120i64);
    assert_eq!(claims["aud"], "jitsi");
}

#[test]
fn session_cookie_value_is_hyphenated_lower_case_uuid() {
    let mut store = SessionStore::new();
    let cookie = open_login(&mut store, 0x0123456789abcdef0123456789abcdef, 0, "https://a.example/", s("r"), s("c"), s("n"), s("p"), 30).unwrap();
    assert_eq!(cookie.value, "01234567-89ab-cdef-0123-456789abcdef");
}

#[test]
fn started_login_finishes_in_its_room_under_the_jitsi_url() {
    let mut store = SessionStore::new();
    let cookie = open_login(&mut store, 7, 100 * SECOND, "https://auth.example.com/", s("team room"), s("csrf"), s("n"), s("p"), 60)
        .unwrap();
    let session = take_session(&mut store, Some(&cookie.value), "csrf", 150 * SECOND).unwrap();
    let settings = JitsiSettings {
        jitsi_url: s("https://u:p@meet.example.com:444/"),
        jitsi_sub: s("meet.example.com"),
        jitsi_secret: s("secret"),
        group: s(""),
        jwt_max_age_seconds: 60,
        skip_prejoin_screen: Some(false),
    };
    let url = finish_login_at(user(), &session, &settings, 150 * SECOND).unwrap();
    let url = Url::parse(&url).unwrap();
    assert_eq!(url.scheme(), "https");
    assert_eq!(url.host_str(), Some("meet.example.com"));
    assert_eq!(url.port(), Some(444));
    assert_eq!(url.username(), "u");
    assert_eq!(url.password(), Some("p"));
    assert_eq!(url.path(), "/team%20room");
    assert_eq!(url.fragment(), None);
    let token = url.query().unwrap().strip_prefix("jwt=").unwrap().to_string();
    let mut validation = Validation::default();
    validation.set_audience(&["jitsi"]);
    validation.validate_exp = false;
    let claims = decode::<Value>(&token, &DecodingKey::from_secret(b"secret"), &validation).unwrap().claims;
    assert_eq!(claims["room"], "team room");
}

#[test]
fn finishing_under_a_url_that_cannot_be_a_base_fails() {
    let settings = JitsiSettings {
        jitsi_url: s("mailto:meet@example.com"),
        jitsi_sub: s("meet.example.com"),
        jitsi_secret: s("secret"),
        group: s(""),
        jwt_max_age_seconds: 60,
        skip_prejoin_screen: None,
    };
    assert!(matches!(
        finish_login_at(user(), &session("room", "c", 0), &settings, 0),
        Err(AppError::InternalServerError)
    ));
}
