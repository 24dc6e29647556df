use jitsi_openid::claims::{
    access_token_hash_needed, audience_is_trusted, get_display_name, get_display_name_id_token, id_token_claims,
    jitsi_user_from, user_info_claims, AccessTokenHashOutcome, IdTokenEvidence, ProfileClaims,
    UserInfoOutcome, VerifiedIdToken,
};
use jitsi_openid::error::AppError;

fn profile() -> ProfileClaims {
    ProfileClaims {
        subject: "sub-1".to_string(),
        email: Some("user@example.com".to_string()),
        affiliation: Some("owner".to_string()),
        name: None,
        given_name: Some("Ada".to_string()),
        middle_name: None,
        family_name: Some("Lovelace".to_string()),
        preferred_username: Some("ada".to_string()),
        picture: Some("https://example.com/ada.png".to_string()),
        moderator: Some(true),
    }
}

fn evidence(auth_context: Option<&str>, hash: Option<&str>, computed: AccessTokenHashOutcome) -> IdTokenEvidence {
    IdTokenEvidence {
        verification: Ok(VerifiedIdToken {
            profile: profile(),
            auth_context: auth_context.map(|s| s.to_string()),
            access_token_hash: hash.map(|s| s.to_string()),
        }),
        computed_access_token_hash: computed,
    }
}

fn computed(s: &str) -> AccessTokenHashOutcome {
    AccessTokenHashOutcome::Computed(s.to_string())
}

#[test]
fn display_name_prefers_name_claim() {
    let mut c = profile();
    c.name = Some("Countess".to_string());
    assert_eq!(get_display_name(&c), Some("Countess".to_string()));
}

#[test]
fn display_name_joins_present_name_parts() {
    assert_eq!(get_display_name(&profile()), Some("Ada Lovelace".to_string()));
    let mut c = profile();
    c.middle_name = Some("King".to_string());
    assert_eq!(get_display_name_id_token(&c), Some("Ada King Lovelace".to_string()));
    c.given_name = None;
    c.family_name = None;
    assert_eq!(get_display_name(&c), Some("King".to_string()));
}

#[test]
fn display_name_falls_back_to_preferred_username() {
    let mut c = profile();
    c.given_name = None;
    c.family_name = None;
    assert_eq!(get_display_name(&c), Some("ada".to_string()));
    c.preferred_username = None;
    assert_eq!(get_display_name(&c), None);
}

#[test]
fn jitsi_user_takes_subject_and_passes_claims_through() {
    let u = jitsi_user_from(profile());
    assert_eq!(u.id, "sub-1");
    assert_eq!(u.email.as_deref(), Some("user@example.com"));
    assert_eq!(u.affiliation.as_deref(), Some("owner"));
    assert_eq!(u.name.as_deref(), Some("Ada Lovelace"));
    assert_eq!(u.avatar.as_deref(), Some("https://example.com/ada.png"));
    assert_eq!(u.moderator, Some(true));
}

#[test]
fn extra_audiences_are_trusted_only_when_listed() {
    let trusted = Some(vec!["api".to_string(), "other".to_string()]);
    assert!(audience_is_trusted(&trusted, "api"));
    assert!(audience_is_trusted(&trusted, "other"));
    assert!(!audience_is_trusted(&trusted, "evil"));
    assert!(!audience_is_trusted(&Some(Vec::new()), "api"));
    assert!(!audience_is_trusted(&None, "api"));
}

#[test]
fn missing_id_token_depends_on_acr_configuration() {
    assert!(matches!(id_token_claims(&None, None, None), Ok(None)));
    let acr = Some(vec!["password".to_string()]);
    assert!(matches!(id_token_claims(&acr, None, None), Err(AppError::IdTokenRequired)));
}

#[test]
fn unverifiable_id_token_is_refused_with_its_reason() {
    let e = IdTokenEvidence { verification: Err("bad nonce".to_string()), computed_access_token_hash: computed("h") };
    match id_token_claims(&None, None, Some(e)) {
        Err(AppError::InvalidIdTokenNonce(msg)) => assert_eq!(msg, "bad nonce"),
        _ => panic!("expected InvalidIdTokenNonce"),
    }
}

#[test]
fn authentication_context_must_be_one_of_the_configured() {
    let acr = Some(vec!["password".to_string(), "mfa".to_string()]);
    assert!(matches!(
        id_token_claims(&acr, None, Some(evidence(Some("other"), Some("h"), computed("h")))),
        Err(AppError::AuthenticationContextWasNotFulfilled)
    ));
    assert!(matches!(
        id_token_claims(&acr, None, Some(evidence(None, Some("h"), computed("h")))),
        Err(AppError::AuthenticationContextWasNotFulfilled)
    ));
    assert!(matches!(
        id_token_claims(&acr, None, Some(evidence(Some("mfa"), Some("h"), computed("h")))),
        Ok(Some(_))
    ));
}

#[test]
fn access_token_hash_is_checked_by_default() {
    assert!(matches!(
        id_token_claims(&None, None, Some(evidence(None, None, computed("h")))),
        Err(AppError::MissingAccessTokenHash)
    ));
    assert!(matches!(
        id_token_claims(&None, None, Some(evidence(None, Some("h"), AccessTokenHashOutcome::UnsupportedAlgorithm))),
        Err(AppError::UnsupportedSigningAlgorithm)
    ));
    assert!(matches!(
        id_token_claims(&None, None, Some(evidence(None, Some("h"), AccessTokenHashOutcome::InvalidSigningKey))),
        Err(AppError::InvalidSigningKey)
    ));
    assert!(matches!(
        id_token_claims(&None, Some(true), Some(evidence(None, Some("h"), computed("x")))),
        Err(AppError::InvalidAccessToken)
    ));
    match id_token_claims(&None, None, Some(evidence(None, Some("h"), computed("h")))) {
        Ok(Some(u)) => assert_eq!(u.id, "sub-1"),
        _ => panic!("expected a user"),
    }
}

#[test]
fn access_token_hash_check_can_be_disabled() {
    assert!(matches!(
        id_token_claims(&None, Some(false), Some(evidence(None, None, computed("x")))),
        Ok(Some(_))
    ));
}

#[test]
fn user_info_outcomes_map_to_login_results() {
    assert!(matches!(user_info_claims(UserInfoOutcome::MissingEndpoint), Ok(None)));
    assert!(matches!(user_info_claims(UserInfoOutcome::EndpointError), Err(AppError::InternalServerError)));
    assert!(matches!(user_info_claims(UserInfoOutcome::RequestFailed), Err(AppError::UnableToQueryUserInfo)));
    match user_info_claims(UserInfoOutcome::Claims(profile())) {
        Ok(Some(u)) => assert_eq!(u.name.as_deref(), Some("Ada Lovelace")),
        _ => panic!("expected a user"),
    }
}

#[test]
fn access_token_hash_is_read_only_when_checked_and_present() {
    let ok = |hash: Option<&str>, ctx: Option<&str>| -> Result<VerifiedIdToken, String> {
        Ok(VerifiedIdToken {
            profile: profile(),
            auth_context: ctx.map(|s| s.to_string()),
            access_token_hash: hash.map(|s| s.to_string()),
        })
    };
    assert!(access_token_hash_needed(&None, None, &ok(Some("h"), None)));
    assert!(!access_token_hash_needed(&None, Some(false), &ok(Some("h"), None)));
    assert!(!access_token_hash_needed(&None, None, &ok(None, None)));
    assert!(!access_token_hash_needed(&None, None, &Err("bad".to_string())));
    let acr = Some(vec!["mfa".to_string()]);
    assert!(!access_token_hash_needed(&acr, None, &ok(Some("h"), Some("other"))));
    assert!(access_token_hash_needed(&acr, None, &ok(Some("h"), Some("mfa"))));
}
