use jitsi_openid::jwt::{claims_json, create_jitsi_jwt, create_jitsi_jwt_at, JitsiClaims, JitsiContext, JitsiUser, JwtError};
use jitsi_openid::web_url::{create_jitsi_room_url, jitsi_redirect_url, session_cookie};
use jitsi_openid::error::AppError;
use jsonwebtoken::{decode, DecodingKey, Validation};
use serde_json::Value;

fn s(x: &str) -> String {
    x.to_string()
}

fn user(id: &str) -> JitsiUser {
    JitsiUser { id: s(id), email: None, affiliation: Some(s("member")), name: None, avatar: None, moderator: Some(false) }
}

#[test]
fn claims_json_is_compact_and_escaped() {
    let claims = JitsiClaims {
        context: JitsiContext { user: user("a\"b\\c\n\u{1}\u{1f}\t"), group: None },
        aud: s("jitsi"),
        iss: s("jitsi"),
        sub: s("meet"),
        room: s("Räksmörgås"),
        nbf: 1_500_000_000,
        iat: 1_500_000_000,
        exp: -1,
    };
    let json = claims_json(&claims);
    assert_eq!(
        json,
        "{\"context\":{\"user\":{\"id\":\"a\\\"b\\\\c\\n\\u0001\\u001f\\t\",\"email\":null,\"affiliation\":\"member\",\"name\":null,\"avatar\":null,\"moderator\":false},\"group\":null},\"aud\":\"jitsi\",\"iss\":\"jitsi\",\"sub\":\"meet\",\"room\":\"Räksmörgås\",\"nbf\":1,\"iat\":1,\"exp\":-1}"
    );
    let parsed: Value = serde_json::from_str(&json).unwrap();
    assert_eq!(parsed["context"]["user"]["id"], "a\"b\\c\n\u{1}\u{1f}\t");
}

#[test]
fn token_at_fixed_time_has_expected_times() {
    let now: i128 = 1_700_000_000_500_000_000;
    let token = create_jitsi_jwt_at(user("u"), s("jitsi"), s("jitsi"), s("meet"), s("room"), s("k"), s("g"), 60, now)
        .unwrap();
    let mut validation = Validation::default();
    validation.set_audience(&["jitsi"]);
    validation.validate_exp = false;
    let claims = decode::<Value>(&token, &DecodingKey::from_secret(b"k"), &validation).unwrap().claims;
    assert_eq!(claims["iat"], 1_700_000_000i64);
    assert_eq!(claims["nbf"], 1_700_000_000i64);
    assert_eq!(claims["exp"], 1_700_000_060i64);
    assert_eq!(claims["context"]["group"], "g");
    assert_eq!(claims["context"]["user"]["moderator"], false);
    let header = jsonwebtoken::decode_header(&token).unwrap();
    assert_eq!(header.alg, jsonwebtoken::Algorithm::HS256);
}

#[test]
fn token_with_unrepresentable_expiry_is_refused() {
    assert!(matches!(
        create_jitsi_jwt(user("u"), s("jitsi"), s("jitsi"), s("meet"), s("room"), s("k"), s("g"), i64::MAX),
        Err(JwtError::ExpiryOutOfRange)
    ));
}

#[test]
fn token_signed_with_other_secret_does_not_verify() {
    let token = create_jitsi_jwt(user("u"), s("jitsi"), s("jitsi"), s("meet"), s("room"), s("k"), s("g"), 60).unwrap();
    let mut validation = Validation::default();
    validation.set_audience(&["jitsi"]);
    assert!(decode::<Value>(&token, &DecodingKey::from_secret(b"other"), &validation).is_err());
}

#[test]
fn room_url_drops_query_and_fragment() {
    let url = create_jitsi_room_url("https://meet.example.com/base?x=1#frag", "room").unwrap();
    assert_eq!(url, "https://meet.example.com/base/room");
    let url = create_jitsi_room_url("https://meet.example.com/", "a b?c#d").unwrap();
    assert_eq!(url, "https://meet.example.com/a%20b%3Fc%23d");
}

#[test]
fn room_url_needs_a_base_url() {
    assert!(matches!(create_jitsi_room_url("mailto:someone@example.com", "room"), Err(AppError::InternalServerError)));
    assert!(matches!(create_jitsi_room_url("not a url", "room"), Err(AppError::InternalServerError)));
}

#[test]
fn redirect_url_carries_token_and_prejoin_fragment() {
    let url = jitsi_redirect_url("https://meet.example.com/", "room", "a.b.c", None).unwrap();
    assert_eq!(url, "https://meet.example.com/room?jwt=a.b.c#config.prejoinConfig.enabled=false");
    let url = jitsi_redirect_url("https://meet.example.com/", "room", "a.b.c", Some(true)).unwrap();
    assert_eq!(url, "https://meet.example.com/room?jwt=a.b.c#config.prejoinConfig.enabled=false");
    let url = jitsi_redirect_url("https://meet.example.com/", "room", "a.b.c", Some(false)).unwrap();
    assert_eq!(url, "https://meet.example.com/room?jwt=a.b.c");
}

#[test]
fn session_cookie_follows_base_url() {
    let c = session_cookie("https://auth.example.com/jitsi/", s("v"), 60).unwrap();
    assert_eq!(c.domain, "auth.example.com");
    assert_eq!(c.path, "/jitsi/");
    assert!(c.secure);
    assert_eq!(c.value, "v");
    let c = session_cookie("http://[::1]:3000/", s("v"), 60).unwrap();
    assert_eq!(c.domain, "[::1]");
    assert!(!c.secure);
    assert!(session_cookie("data:text/plain,hi", s("v"), 60).is_none());
}

#[test]
fn urls_with_a_host_always_give_room_and_redirect() {
    for base in ["https://meet.example.com", "http://localhost:8000/x/", "foo://host"] {
        assert!(create_jitsi_room_url(base, "room").is_ok());
        assert!(jitsi_redirect_url(base, "room", "t", None).is_ok());
    }
}

#[test]
fn host_less_base_urls_give_room_urls() {
    assert_eq!(create_jitsi_room_url("unix:/run/x", "room").unwrap(), "unix:/run/x/room");
    let url = jitsi_redirect_url("unix:/run/x", "room", "a.b.c", Some(false)).unwrap();
    assert_eq!(url, "unix:/run/x/room?jwt=a.b.c");
}

#[test]
fn room_url_keeps_scheme_port_and_credentials() {
    let url = create_jitsi_room_url("http://user:pw@meet.example.com:8443/base?q=1#f", "r/../x").unwrap();
    let parsed = url::Url::parse(&url).unwrap();
    assert_eq!(parsed.scheme(), "http");
    assert_eq!(parsed.host_str(), Some("meet.example.com"));
    assert_eq!(parsed.port(), Some(8443));
    assert_eq!(parsed.username(), "user");
    assert_eq!(parsed.password(), Some("pw"));
    assert_eq!(parsed.query(), None);
    assert_eq!(parsed.fragment(), None);
    assert_eq!(parsed.path(), "/base/r%2F..%2Fx");
}

#[test]
fn redirect_query_is_only_the_token() {
    let url = jitsi_redirect_url("https://meet.example.com/?lang=de#x", "room", "h.p.s-_", None).unwrap();
    let parsed = url::Url::parse(&url).unwrap();
    assert_eq!(parsed.query(), Some("jwt=h.p.s-_"));
    assert_eq!(parsed.fragment(), Some("config.prejoinConfig.enabled=false"));
    assert_eq!(parsed.path(), "/room");
}

#[test]
fn redirect_needs_a_base_url() {
    assert!(matches!(jitsi_redirect_url("mailto:a@example.com", "room", "t", None), Err(AppError::InternalServerError)));
    assert!(matches!(jitsi_redirect_url("::", "room", "t", None), Err(AppError::InternalServerError)));
}

#[test]
fn token_expiry_at_the_last_representable_second() {
    let last: i128 = 253_402_300_799_000_000_000;
    assert!(create_jitsi_jwt_at(user("u"), s("jitsi"), s("jitsi"), s("meet"), s("room"), s("k"), s("g"), 0, last).is_ok());
    assert!(matches!(
        create_jitsi_jwt_at(user("u"), s("jitsi"), s("jitsi"), s("meet"), s("room"), s("k"), s("g"), 1, last),
        Err(JwtError::ExpiryOutOfRange)
    ));
    let first: i128 = -377_705_116_800_000_000_000;
    assert!(create_jitsi_jwt_at(user("u"), s("jitsi"), s("jitsi"), s("meet"), s("room"), s("k"), s("g"), 0, first).is_ok());
    assert!(matches!(
        create_jitsi_jwt_at(user("u"), s("jitsi"), s("jitsi"), s("meet"), s("room"), s("k"), s("g"), -1, first),
        Err(JwtError::ExpiryOutOfRange)
    ));
}

#[test]
fn token_is_made_of_base64url_parts() {
    let token = create_jitsi_jwt(user("ü \"x\""), s("jitsi"), s("jitsi"), s("meet"), s("Räum"), s("k"), s("g"), 60).unwrap();
    assert_eq!(token.split('.').count(), 3);
    assert!(token.chars().all(|c| c.is_ascii_alphanumeric() || c == '-' || c == '_' || c == '.'));
}
