use upstream_auth::callback::{
    AuthProviderCallback, AuthProviderTokenSet, CallbackStore, ClientInfo, MfaStep, ProviderCallbackRequest,
    ProviderLoginRequest,
};
use upstream_auth::crypto::EncKeySet;
use upstream_auth::error::ErrorResponseType;
use upstream_auth::provider::{AuthProvider, ProviderRequest};

const VERIFIER: &str = "dBjftJeZ4CVP-mB92K27uhbUJU1p1r_wW1gFWFOEjXk";
const NOW: i64 = 1_700_000_000;
const CHALLENGE: &str = "E9Melhoa2OwvFrEMTJguCHaoeK1t8URWbuGJSstw-cM";

fn keys() -> EncKeySet {
    EncKeySet { active: "testkey01".to_string(), keys: vec![("testkey01".to_string(), vec![9u8; 32])] }
}

fn provider(k: &EncKeySet, use_pkce: bool) -> AuthProvider {
    let req = ProviderRequest {
        name: "Upstream".to_string(),
        issuer: "https://idp".to_string(),
        authorization_endpoint: "https://idp/auth".to_string(),
        token_endpoint: "https://idp/token".to_string(),
        userinfo_endpoint: "https://idp/userinfo".to_string(),
        client_id: "rp".to_string(),
        client_secret: Some("pw".to_string()),
        scope: "openid email".to_string(),
        danger_allow_insecure: None,
        use_pkce,
        root_pem: None,
    };
    AuthProvider::try_from_id_req(k, "prov1".to_string(), req).unwrap()
}

fn client(enabled: bool, force_mfa: bool) -> ClientInfo {
    ClientInfo {
        id: "app".to_string(),
        enabled,
        scopes: vec!["openid".to_string(), "email".to_string()],
        force_mfa,
        allowed_origins: Some(vec!["https://app".to_string()]),
    }
}

fn login(scopes: Option<Vec<&str>>) -> ProviderLoginRequest {
    ProviderLoginRequest {
        provider_id: "prov1".to_string(),
        client_id: "app".to_string(),
        redirect_uri: "https://app/cb".to_string(),
        scopes: scopes.map(|v| v.into_iter().map(|s| s.to_string()).collect()),
        state: Some("client-state".to_string()),
        nonce: None,
        code_challenge: None,
        code_challenge_method: None,
        pkce_challenge: CHALLENGE.to_string(),
    }
}

fn callback(state: &str, xsrf: &str, verifier: &str) -> ProviderCallbackRequest {
    ProviderCallbackRequest {
        state: state.to_string(),
        code: "code123".to_string(),
        xsrf_token: xsrf.to_string(),
        pkce_verifier: verifier.to_string(),
    }
}

#[test]
fn start_builds_location_and_cookie() {
    let k = keys();
    let mut store = CallbackStore::new();
    let ls = AuthProviderCallback::login_start(&k, &mut store, "https://me/cb", provider(&k, true), client(true, false), login(Some(vec!["openid"])), NOW)
        .unwrap();
    assert_eq!(ls.callback_id.len(), 32);
    assert_eq!(ls.xsrf_token.len(), 32);
    assert!(ls.callback_id.chars().all(|c| c.is_ascii_alphanumeric()));
    assert_ne!(ls.callback_id, ls.xsrf_token);
    let expected = format!(
        "https://idp/auth?client_id=rp&redirect_uri=https://me/cb&response_type=code&scope=openid+email&state={}&code_challenge={}&code_challenge_method=S256",
        ls.callback_id, CHALLENGE
    );
    assert_eq!(ls.location, expected);
    assert!(!ls.cookie_value.contains(&ls.callback_id));
    assert_eq!(ls.allowed_origins, Some(vec!["https://app".to_string()]));
}

#[test]
fn start_without_pkce_has_no_challenge() {
    let k = keys();
    let mut store = CallbackStore::new();
    let ls = AuthProviderCallback::login_start(&k, &mut store, "https://me/cb", provider(&k, false), client(true, false), login(None), NOW).unwrap();
    assert!(!ls.location.contains("code_challenge"));
}

#[test]
fn start_rejects_bad_requests() {
    let k = keys();
    let mut store = CallbackStore::new();
    let e = AuthProviderCallback::login_start(&k, &mut store, "https://me/cb", provider(&k, true), client(false, false), login(None), NOW).unwrap_err();
    assert_eq!(e.error, ErrorResponseType::BadRequest);
    let e = AuthProviderCallback::login_start(&k, &mut store, "https://me/cb", provider(&k, true), client(true, false), login(Some(vec!["openid", "admin"])), NOW)
        .unwrap_err();
    assert_eq!(e.error, ErrorResponseType::BadRequest);
    let mut other = login(None);
    other.provider_id = "prov2".to_string();
    let e = AuthProviderCallback::login_start(&k, &mut store, "https://me/cb", provider(&k, true), client(true, false), other, NOW).unwrap_err();
    assert_eq!(e.error, ErrorResponseType::BadRequest);
    let mut probe = CallbackStore::new();
    let ls = AuthProviderCallback::login_start(&k, &mut probe, "https://me/cb", provider(&k, true), client(true, false), login(None), NOW).unwrap();
    assert!(store.take(&ls.callback_id).is_none());
}

#[test]
fn finish_succeeds_once_then_not_found() {
    let k = keys();
    let mut store = CallbackStore::new();
    let ls = AuthProviderCallback::login_start(&k, &mut store, "https://me/cb", provider(&k, true), client(true, false), login(None), NOW).unwrap();
    let req = callback(&ls.callback_id, &ls.xsrf_token, VERIFIER);
    let rec = AuthProviderCallback::login_finish(&k, &mut store, &ls.cookie_value, &req, NOW).unwrap();
    assert_eq!(rec.callback_id, ls.callback_id);
    assert_eq!(rec.provider_id, "prov1");
    assert_eq!(rec.client_state, Some("client-state".to_string()));
    let again = AuthProviderCallback::login_finish(&k, &mut store, &ls.cookie_value, &req, NOW).unwrap_err();
    assert_eq!(again.error, ErrorResponseType::NotFound);
}

#[test]
fn finish_rejects_altered_cookie() {
    let k = keys();
    let mut store = CallbackStore::new();
    let probe = AuthProviderCallback::login_start(&k, &mut store, "https://me/cb", provider(&k, true), client(true, false), login(None), NOW).unwrap();
    for i in 0..probe.cookie_value.len() {
        let ls = AuthProviderCallback::login_start(&k, &mut store, "https://me/cb", provider(&k, true), client(true, false), login(None), NOW).unwrap();
        let req = callback(&ls.callback_id, &ls.xsrf_token, VERIFIER);
        let mut bytes = ls.cookie_value.clone().into_bytes();
        bytes[i] = if bytes[i] == b'A' { b'B' } else { b'A' };
        let tampered = String::from_utf8(bytes).unwrap();
        let e = AuthProviderCallback::login_finish(&k, &mut store, &tampered, &req, NOW).unwrap_err();
        assert_eq!(e.error, ErrorResponseType::Unauthorized);
    }
    let req = callback(&probe.callback_id, &probe.xsrf_token, VERIFIER);
    assert!(AuthProviderCallback::login_finish(&k, &mut store, &probe.cookie_value, &req, NOW).is_ok());
}

#[test]
fn finish_rejects_state_mismatch_and_deletes() {
    let k = keys();
    let mut store = CallbackStore::new();
    let ls = AuthProviderCallback::login_start(&k, &mut store, "https://me/cb", provider(&k, true), client(true, false), login(None), NOW).unwrap();
    let e = AuthProviderCallback::login_finish(&k, &mut store, &ls.cookie_value, &callback("other", &ls.xsrf_token, VERIFIER), NOW).unwrap_err();
    assert_eq!(e.error, ErrorResponseType::Unauthorized);
    assert!(store.take(&ls.callback_id).is_none());
}

#[test]
fn finish_rejects_wrong_xsrf_and_deletes() {
    let k = keys();
    let mut store = CallbackStore::new();
    let ls = AuthProviderCallback::login_start(&k, &mut store, "https://me/cb", provider(&k, true), client(true, false), login(None), NOW).unwrap();
    let e = AuthProviderCallback::login_finish(&k, &mut store, &ls.cookie_value, &callback(&ls.callback_id, "nope", VERIFIER), NOW).unwrap_err();
    assert_eq!(e.error, ErrorResponseType::Unauthorized);
    let e = AuthProviderCallback::login_finish(&k, &mut store, &ls.cookie_value, &callback(&ls.callback_id, &ls.xsrf_token, VERIFIER), NOW)
        .unwrap_err();
    assert_eq!(e.error, ErrorResponseType::NotFound);
}

#[test]
fn finish_rejects_wrong_verifier_and_deletes() {
    let k = keys();
    let mut store = CallbackStore::new();
    let ls = AuthProviderCallback::login_start(&k, &mut store, "https://me/cb", provider(&k, true), client(true, false), login(None), NOW).unwrap();
    let e = AuthProviderCallback::login_finish(&k, &mut store, &ls.cookie_value, &callback(&ls.callback_id, &ls.xsrf_token, "wrong"), NOW)
        .unwrap_err();
    assert_eq!(e.error, ErrorResponseType::Unauthorized);
    assert!(store.take(&ls.callback_id).is_none());
}

#[test]
fn finish_rejects_garbage_cookie() {
    let k = keys();
    let mut store = CallbackStore::new();
    let e = AuthProviderCallback::login_finish(&k, &mut store, "%%%", &callback("x", "y", VERIFIER), NOW).unwrap_err();
    assert_eq!(e.error, ErrorResponseType::Unauthorized);
}

#[test]
fn token_request_carries_decrypted_secret() {
    let k = keys();
    let mut store = CallbackStore::new();
    let ls = AuthProviderCallback::login_start(&k, &mut store, "https://me/cb", provider(&k, true), client(true, false), login(None), NOW).unwrap();
    let req = callback(&ls.callback_id, &ls.xsrf_token, VERIFIER);
    let rec = AuthProviderCallback::login_finish(&k, &mut store, &ls.cookie_value, &req, NOW).unwrap();
    let t = rec.token_request(&k, "https://me/cb", &req).unwrap();
    assert_eq!(t.token_endpoint, "https://idp/token");
    assert_eq!(t.basic_auth_user, "rp");
    assert_eq!(t.basic_auth_password, Some("pw".to_string()));
    assert_eq!(t.client_secret, Some("pw".to_string()));
    assert_eq!(t.code, "code123");
    assert_eq!(t.code_verifier, Some(VERIFIER.to_string()));
    assert_eq!(t.grant_type, "authorization_code");
    assert_eq!(t.redirect_uri, "https://me/cb");
}

#[test]
fn token_request_fails_on_undecryptable_secret() {
    let k = keys();
    let mut store = CallbackStore::new();
    let mut p = provider(&k, false);
    p.secret = Some(vec![0, 1, 2]);
    let ls = AuthProviderCallback::login_start(&k, &mut store, "https://me/cb", p, client(true, false), login(None), NOW).unwrap();
    let req = callback(&ls.callback_id, &ls.xsrf_token, VERIFIER);
    let rec = AuthProviderCallback::login_finish(&k, &mut store, &ls.cookie_value, &req, NOW).unwrap();
    assert_eq!(rec.token_request(&k, "https://me/cb", &req).unwrap_err().error, ErrorResponseType::Internal);
}

#[test]
fn id_token_is_required() {
    let ts = AuthProviderTokenSet {
        access_token: "at".to_string(),
        token_type: None,
        id_token: None,
        expires_in: 60,
        refresh_token: None,
    };
    assert_eq!(ts.into_id_token("https://idp").unwrap_err().error, ErrorResponseType::Internal);
    let ts = AuthProviderTokenSet {
        access_token: "at".to_string(),
        token_type: None,
        id_token: Some("a.b.c".to_string()),
        expires_in: 60,
        refresh_token: None,
    };
    assert_eq!(ts.into_id_token("https://idp").unwrap(), "a.b.c");
}

#[test]
fn forced_mfa_steps() {
    let k = keys();
    let mut store = CallbackStore::new();
    let ls = AuthProviderCallback::login_start(&k, &mut store, "https://me/cb", provider(&k, true), client(true, true), login(None), NOW).unwrap();
    let req = callback(&ls.callback_id, &ls.xsrf_token, VERIFIER);
    let rec = AuthProviderCallback::login_finish(&k, &mut store, &ls.cookie_value, &req, NOW).unwrap();
    assert!(rec.client_force_mfa);
    assert!(matches!(rec.mfa_step(true), Ok(MfaStep::StepUp)));
    assert_eq!(rec.mfa_step(false).unwrap_err().error, ErrorResponseType::MfaEnrollmentRequired);
    let mut relaxed = rec.clone();
    relaxed.client_force_mfa = false;
    assert!(matches!(relaxed.mfa_step(false), Ok(MfaStep::Proceed)));
}

#[test]
fn store_take_and_delete() {
    let k = keys();
    let mut store = CallbackStore::new();
    let ls = AuthProviderCallback::login_start(&k, &mut store, "https://me/cb", provider(&k, true), client(true, false), login(None), NOW).unwrap();
    AuthProviderCallback::delete(&mut store, &ls.callback_id);
    assert!(store.take(&ls.callback_id).is_none());
}

#[test]
fn expired_session_is_not_found() {
    let k = keys();
    let mut store = CallbackStore::new();
    let ls = AuthProviderCallback::login_start(&k, &mut store, "https://me/cb", provider(&k, true), client(true, false), login(None), NOW).unwrap();
    let req = callback(&ls.callback_id, &ls.xsrf_token, VERIFIER);
    let e = AuthProviderCallback::login_finish(&k, &mut store, &ls.cookie_value, &req, NOW + 300).unwrap_err();
    assert_eq!(e.error, ErrorResponseType::NotFound);
    assert!(store.take(&ls.callback_id).is_none());
    let ls = AuthProviderCallback::login_start(&k, &mut store, "https://me/cb", provider(&k, true), client(true, false), login(None), NOW).unwrap();
    let req = callback(&ls.callback_id, &ls.xsrf_token, VERIFIER);
    let rec = AuthProviderCallback::login_finish(&k, &mut store, &ls.cookie_value, &req, NOW + 299).unwrap();
    assert_eq!(rec.expires_at, NOW + 300);
}

#[test]
fn expiry_saturates_at_largest_time() {
    let k = keys();
    let mut store = CallbackStore::new();
    let ls = AuthProviderCallback::login_start(&k, &mut store, "https://me/cb", provider(&k, true), client(true, false), login(None), i64::MAX - 10).unwrap();
    let req = callback(&ls.callback_id, &ls.xsrf_token, VERIFIER);
    let rec = AuthProviderCallback::login_finish(&k, &mut store, &ls.cookie_value, &req, i64::MAX - 1).unwrap();
    assert_eq!(rec.expires_at, i64::MAX);
}

#[test]
fn finish_rejects_short_cookies_without_panicking() {
    let k = keys();
    let mut store = CallbackStore::new();
    for cookie in ["", "AQ==", "AQE=", "AQEAAA=="] {
        let e = AuthProviderCallback::login_finish(&k, &mut store, cookie, &callback("x", "y", VERIFIER), NOW).unwrap_err();
        assert_eq!(e.error, ErrorResponseType::Unauthorized);
    }
}

#[test]
fn session_ids_are_letters() {
    let k = keys();
    let mut store = CallbackStore::new();
    let ls = AuthProviderCallback::login_start(&k, &mut store, "https://me/cb", provider(&k, true), client(true, false), login(None), NOW).unwrap();
    assert!(ls.callback_id.chars().all(|c| c.is_ascii_alphabetic()));
    assert!(ls.xsrf_token.chars().all(|c| c.is_ascii_alphabetic()));
    let rec = store.take(&ls.callback_id).unwrap();
    assert_eq!(rec.callback_id, ls.callback_id);
}
