use jitsi_openid::jwt::{create_jitsi_jwt, JitsiUser};
use jitsi_openid::web_url::create_jitsi_room_url;
use jsonwebtoken::{decode, DecodingKey, Validation};
use serde_json::Value;
use url::Url;

#[test]
fn jitsi_jwt_uses_stable_user_id_and_requested_room() {
    let token = create_jitsi_jwt(
        JitsiUser {
            id: "stable-subject".to_string(),
            email: Some("user@example.com".to_string()),
            affiliation: None,
            name: Some("Display Name".to_string()),
            avatar: None,
            moderator: None,
        },
        "jitsi".to_string(),
        "jitsi".to_string(),
        "meet.example.com".to_string(),
        "Räksmörgås".to_string(),
        "secret".to_string(),
        "group".to_string(),
        300,
    )
    .expect("jwt should be created");

    let mut validation = Validation::default();
    validation.set_audience(&["jitsi"]);

    let claims = decode::<Value>(
        &token,
        &DecodingKey::from_secret("secret".as_bytes()),
        &validation,
    )
    .expect("jwt should decode")
    .claims;

    assert_eq!(claims["room"], "Räksmörgås");
    assert_eq!(claims["context"]["user"]["id"], "stable-subject");
}

#[test]
fn jitsi_room_url_keeps_configured_host_for_url_like_room_names() {
    let base = Url::parse("https://meet.example.com/base").expect("valid base url");

    let absolute = create_jitsi_room_url(base.as_str(), "https://evil.example/room")
        .expect("room url should be created");
    let absolute = Url::parse(&absolute).unwrap();
    assert_eq!(absolute.host_str(), Some("meet.example.com"));
    assert_eq!(absolute.path(), "/base/https:%2F%2Fevil.example%2Froom");

    let scheme_relative =
        create_jitsi_room_url(base.as_str(), "//evil.example/room").expect("room url should be created");
    let scheme_relative = Url::parse(&scheme_relative).unwrap();
    assert_eq!(scheme_relative.host_str(), Some("meet.example.com"));
    assert_eq!(scheme_relative.path(), "/base/%2F%2Fevil.example%2Froom");
}

#[test]
fn jitsi_jwt_expiry_uses_configured_max_age() {
    let token = create_jitsi_jwt(
        JitsiUser {
            id: "stable-subject".to_string(),
            email: None,
            affiliation: None,
            name: None,
            avatar: None,
            moderator: None,
        },
        "jitsi".to_string(),
        "jitsi".to_string(),
        "meet.example.com".to_string(),
        "room".to_string(),
        "secret".to_string(),
        "group".to_string(),
        42,
    )
    .expect("jwt should be created");

    let mut validation = Validation::default();
    validation.set_audience(&["jitsi"]);

    let claims = decode::<Value>(
        &token,
        &DecodingKey::from_secret("secret".as_bytes()),
        &validation,
    )
    .expect("jwt should decode")
    .claims;

    assert_eq!(claims["exp"].as_i64().unwrap() - claims["iat"].as_i64().unwrap(), 42);
}
