use upstream_auth::error::ErrorResponseType;
use upstream_auth::fed_cm::{is_fed_cm_enabled, is_web_identity_fetch};
use upstream_auth::provider::AuthProvider;
use upstream_auth::reconcile::{
    AuthProviderAddressClaims, AuthProviderIdClaims, Language, Reconciliation, User, UserValues,
};
use upstream_auth::template::AuthProviderTemplate;

fn claims(email: Option<&str>, sub: &str) -> AuthProviderIdClaims {
    AuthProviderIdClaims {
        iss: "https://idp".to_string(),
        sub: sub.to_string(),
        aud: None,
        azp: None,
        amr: None,
        email: email.map(|s| s.to_string()),
        email_verified: Some(true),
        given_name: Some("Ada".to_string()),
        family_name: None,
        address: None,
        birthdate: None,
        locale: Some("de-DE".to_string()),
        phone: None,
    }
}

fn user(email: &str, provider: Option<&str>, uid: Option<&str>, failed: Option<i64>) -> User {
    User {
        id: "u-1".to_string(),
        email: email.to_string(),
        given_name: "Old".to_string(),
        family_name: "Name".to_string(),
        enabled: true,
        email_verified: false,
        language: Language::En,
        last_login: Some(1),
        last_failed_login: None,
        failed_login_attempts: failed,
        auth_provider_id: provider.map(|s| s.to_string()),
        federation_uid: uid.map(|s| s.to_string()),
    }
}

#[test]
fn payload_is_second_segment() {
    // base64url of {"sub":"x"}
    let bytes = AuthProviderIdClaims::payload_of("aGVhZGVy.eyJzdWIiOiJ4In0.c2ln").unwrap();
    assert_eq!(bytes, b"{\"sub\":\"x\"}".to_vec());
    let bytes = AuthProviderIdClaims::payload_of("aGVhZGVy.eyJzdWIiOiJ4In0").unwrap();
    assert_eq!(bytes, b"{\"sub\":\"x\"}".to_vec());
}

#[test]
fn payload_requires_a_dot_and_base64() {
    assert_eq!(AuthProviderIdClaims::payload_of("nodots").unwrap_err().error, ErrorResponseType::BadRequest);
    assert_eq!(AuthProviderIdClaims::payload_of("a.!!!.c").unwrap_err().error, ErrorResponseType::BadRequest);
}

#[test]
fn email_claim_is_mandatory() {
    let c = claims(None, "U1");
    assert_eq!(c.user_lookup().unwrap_err().error, ErrorResponseType::BadRequest);
    let r = c.validate_update_user("P1", Some(user("a@x", Some("P1"), Some("U1"), None)), None, 100);
    assert_eq!(r.unwrap_err().error, ErrorResponseType::BadRequest);
    let l = claims(Some("a@x"), "U1").user_lookup().unwrap();
    assert_eq!(l.email, "a@x");
    assert_eq!(l.federation_uid, "U1");
}

#[test]
fn other_subject_is_forbidden_and_counted() {
    let existing = user("a@x", Some("P1"), Some("U1"), Some(2));
    let r = claims(Some("a@x"), "U2").validate_update_user("P1", Some(existing), None, 500).unwrap();
    match r {
        Reconciliation::Forbidden { user, error } => {
            assert_eq!(error.error, ErrorResponseType::Forbidden);
            assert_eq!(user.failed_login_attempts, Some(3));
            assert_eq!(user.last_failed_login, Some(500));
            assert_eq!(user.email, "a@x");
            assert_eq!(user.given_name, "Old");
            assert_eq!(user.family_name, "Name");
        }
        _ => panic!("expected a forbidden reconciliation"),
    }
}

#[test]
fn other_provider_or_local_account_is_forbidden() {
    let r = claims(Some("a@x"), "U1").validate_update_user("P2", Some(user("a@x", Some("P1"), Some("U1"), None)), None, 5).unwrap();
    assert!(matches!(r, Reconciliation::Forbidden { ref user, .. } if user.failed_login_attempts == Some(1)));
    let r = claims(Some("a@x"), "U1").validate_update_user("P1", Some(user("a@x", None, None, None)), None, 5).unwrap();
    assert!(matches!(r, Reconciliation::Forbidden { .. }));
}

#[test]
fn failure_counter_saturates() {
    let r = claims(Some("a@x"), "U2").validate_update_user("P1", Some(user("a@x", Some("P1"), Some("U1"), Some(i64::MAX))), None, 5).unwrap();
    assert!(matches!(r, Reconciliation::Forbidden { ref user, .. } if user.failed_login_attempts == Some(i64::MAX)));
}

#[test]
fn bound_account_is_updated() {
    let r = claims(Some("new@x"), "U1").validate_update_user("P1", None, Some(user("old@x", Some("P1"), Some("U1"), Some(4))), 77).unwrap();
    match r {
        Reconciliation::Updated { user, old_email } => {
            assert_eq!(user.email, "new@x");
            assert_eq!(old_email, Some("old@x".to_string()));
            assert_eq!(user.given_name, "Ada");
            assert_eq!(user.family_name, "Name");
            assert_eq!(user.last_login, Some(77));
            assert_eq!(user.failed_login_attempts, None);
            assert_eq!(user.id, "u-1");
        }
        _ => panic!("expected an update"),
    }
    let r = claims(Some("a@x"), "U1").validate_update_user("P1", Some(user("a@x", Some("P1"), Some("U1"), None)), None, 1).unwrap();
    assert!(matches!(r, Reconciliation::Updated { old_email: None, .. }));
}

#[test]
fn unknown_identity_creates_user() {
    let r = claims(Some("n@x"), "U9").validate_update_user("P1", None, None, 42).unwrap();
    match r {
        Reconciliation::Created { user } => {
            assert_eq!(user.email, "n@x");
            assert_eq!(user.given_name, "Ada");
            assert_eq!(user.family_name, "N/A");
            assert!(user.enabled);
            assert!(user.email_verified);
            assert_eq!(user.language, Language::De);
            assert_eq!(user.auth_provider_id, Some("P1".to_string()));
            assert_eq!(user.federation_uid, Some("U9".to_string()));
            assert_eq!(user.last_login, Some(42));
        }
        _ => panic!("expected a new user"),
    }
}

#[test]
fn locales_map_to_languages() {
    assert_eq!(Language::from_locale("de"), Language::De);
    assert_eq!(Language::from_locale("zh-Hans"), Language::ZhHans);
    assert_eq!(Language::from_locale("fr"), Language::En);
    assert_eq!(Language::from_locale(""), Language::En);
}

#[test]
fn profile_values_only_when_claimed() {
    assert!(claims(Some("a@x"), "U1").user_values_update(None).is_none());
    let stored = UserValues {
        birthdate: Some("1990-01-01".to_string()),
        phone: Some("111".to_string()),
        street: None,
        zip: Some(1000),
        city: None,
        country: None,
    };
    let mut c = claims(Some("a@x"), "U1");
    c.phone = Some("222".to_string());
    c.address = Some(AuthProviderAddressClaims {
        formatted: None,
        street_address: Some("Main 1".to_string()),
        locality: Some("Town".to_string()),
        postal_code: None,
        country: Some("DE".to_string()),
    });
    let v = c.user_values_update(Some(stored)).unwrap();
    assert_eq!(v.birthdate, Some("1990-01-01".to_string()));
    assert_eq!(v.phone, Some("222".to_string()));
    assert_eq!(v.street, Some("Main 1".to_string()));
    assert_eq!(v.zip, Some(1000));
    assert_eq!(v.city, Some("Town".to_string()));
    assert_eq!(v.country, Some("DE".to_string()));
    let mut c = claims(Some("a@x"), "U1");
    c.birthdate = Some("2000-02-02".to_string());
    let v = c.user_values_update(None).unwrap();
    assert_eq!(v.birthdate, Some("2000-02-02".to_string()));
    assert_eq!(v.phone, None);
}

fn bare_provider(id: &str, name: &str, use_pkce: bool) -> AuthProvider {
    AuthProvider {
        id: id.to_string(),
        name: name.to_string(),
        typ: upstream_auth::provider::AuthProviderType::OIDC,
        issuer: String::new(),
        authorization_endpoint: String::new(),
        token_endpoint: String::new(),
        userinfo_endpoint: String::new(),
        client_id: String::new(),
        secret: None,
        scope: String::new(),
        allow_insecure_requests: false,
        use_pkce,
        root_pem: None,
        logo: None,
        logo_type: None,
    }
}

#[test]
fn templates_of_providers() {
    assert!(AuthProviderTemplate::from_providers(vec![]).is_none());
    assert_eq!(AuthProviderTemplate::cache_idx(), "auth_provider_template");
    let t = AuthProviderTemplate::from_providers(vec![bare_provider("a", "A", true), bare_provider("b", "B", false)]).unwrap();
    assert_eq!(t.len(), 2);
    assert_eq!((t[0].id.as_str(), t[0].name.as_str(), t[0].use_pkce), ("a", "A", true));
    assert_eq!((t[1].id.as_str(), t[1].name.as_str(), t[1].use_pkce), ("b", "B", false));
}

#[test]
fn web_identity_guards() {
    assert!(is_fed_cm_enabled(true).is_ok());
    assert_eq!(is_fed_cm_enabled(false).unwrap_err().error, ErrorResponseType::Internal);
    assert!(is_web_identity_fetch(Some("webidentity")).is_ok());
    assert_eq!(is_web_identity_fetch(Some("document")).unwrap_err().error, ErrorResponseType::BadRequest);
    assert_eq!(is_web_identity_fetch(None).unwrap_err().error, ErrorResponseType::BadRequest);
}
