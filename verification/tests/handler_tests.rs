use auth_service::controllers::auth_controller::peer_label;
use auth_service::handlers::callback_handler::{begin_callback, callback_outcome, CallbackStart};
use auth_service::handlers::login_handler::{login_redirect_target, register_login};
use auth_service::handlers::validation_handler::{record_signature_check, validation_step, ValidationStep};
use auth_service::http::{HttpOutcome, HttpStatus};
use auth_service::shared::oidc_state::OidcState;
use auth_service::shared::oidc_state_map::OidcStateMap;
use auth_service::shared::token_cache::TokenCache;
use openidconnect::{Nonce, PkceCodeVerifier};

fn respond(step: ValidationStep) -> HttpOutcome {
    match step {
        ValidationStep::Respond(o) => o,
        ValidationStep::CheckSignature(_) => panic!("expected an answer"),
    }
}

#[test]
fn missing_token_is_refused() {
    let cache = TokenCache::new();
    let o = respond(validation_step(&cache, None));
    assert!(o.status == HttpStatus::Unauthorized);
    assert_eq!(o.body.as_deref(), Some("No token found in request."));
}

#[test]
fn unknown_token_needs_check() {
    let cache = TokenCache::new();
    match validation_step(&cache, Some("tok".to_string())) {
        ValidationStep::CheckSignature(t) => assert_eq!(t, "tok"),
        ValidationStep::Respond(_) => panic!("expected a check"),
    }
}

#[test]
fn valid_token_is_cached_and_then_accepted() {
    let mut cache = TokenCache::new();
    let o = record_signature_check(&mut cache, "tok".to_string(), true);
    assert!(o.status == HttpStatus::Success);
    assert_eq!(o.body.as_deref(), Some("Token is valid."));
    assert!(cache.contains(&"tok".to_string()));
    let o = respond(validation_step(&cache, Some("tok".to_string())));
    assert!(o.status == HttpStatus::Success);
    assert_eq!(o.body.as_deref(), Some("Token is cached."));
}

#[test]
fn invalid_token_is_refused_and_not_cached() {
    let mut cache = TokenCache::new();
    let o = record_signature_check(&mut cache, "bad".to_string(), false);
    assert!(o.status == HttpStatus::Unauthorized);
    assert_eq!(o.body.as_deref(), Some("Token is invalid."));
    assert!(!cache.contains(&"bad".to_string()));
}

#[test]
fn cache_insert_reports_novelty() {
    let mut cache = TokenCache::new();
    assert!(cache.insert("a".to_string()));
    assert!(!cache.insert("a".to_string()));
    assert!(cache.insert("b".to_string()));
    assert!(cache.contains(&"a".to_string()) && cache.contains(&"b".to_string()));
}

#[test]
fn redirect_target_is_decoded() {
    assert_eq!(login_redirect_target("rd=https%3A%2F%2Fgithub.com"), "https://github.com");
    assert_eq!(login_redirect_target("x=1"), "/");
    assert_eq!(login_redirect_target("rd=%41%+5z"), "A\u{5}z");
    assert_eq!(login_redirect_target("rd=%C3%A9"), "\u{c3}\u{a9}");
}

#[test]
fn login_then_callback_round_trip() {
    let mut map = OidcStateMap::new();
    let o = register_login(
        &mut map,
        "csrf123".to_string(),
        "/home".to_string(),
        PkceCodeVerifier::new("verifier".to_string()),
        Nonce::new("nonce".to_string()),
        "https://idp/authorize?x=1".to_string(),
    );
    assert!(o.status == HttpStatus::Found);
    assert_eq!(o.location.as_deref(), Some("https://idp/authorize?x=1"));
    assert!(o.cookie.is_none() && o.body.is_none());
    assert!(map.contains_key(&"csrf123".to_string()));

    match begin_callback(&mut map, "state=csrf123&code=thecode") {
        CallbackStart::Proceed { code, redirect_uri, pkce_verifier, nonce } => {
            assert_eq!(code, "thecode");
            assert_eq!(redirect_uri, "/home");
            assert_eq!(pkce_verifier.secret(), "verifier");
            assert_eq!(nonce.secret(), "nonce");
        }
        CallbackStart::Rejected(_) => panic!("expected to proceed"),
    }
    assert!(!map.contains_key(&"csrf123".to_string()));

    match begin_callback(&mut map, "state=csrf123&code=thecode") {
        CallbackStart::Rejected(o) => {
            assert!(o.status == HttpStatus::Unauthorized);
            assert!(o.body.is_none());
        }
        CallbackStart::Proceed { .. } => panic!("a replay must be refused"),
    }
}

#[test]
fn callback_with_unknown_state_is_refused() {
    let mut map = OidcStateMap::new();
    match begin_callback(&mut map, "code=thecode") {
        CallbackStart::Rejected(o) => assert!(o.status == HttpStatus::Unauthorized),
        CallbackStart::Proceed { .. } => panic!("expected a refusal"),
    }
}

#[test]
fn callback_outcome_sets_cookie_and_location() {
    let o = callback_outcome(Some("jwt".to_string()), "/after".to_string());
    assert!(o.status == HttpStatus::Found);
    assert_eq!(o.location.as_deref(), Some("/after"));
    let c = o.cookie.expect("cookie");
    assert_eq!(c.name, "auth_token");
    assert_eq!(c.value, "jwt");
    assert_eq!(c.path, "/");
    assert!(!c.secure && !c.http_only);
    let o = callback_outcome(None, "/after".to_string());
    assert!(o.status == HttpStatus::Unauthorized && o.location.is_none() && o.cookie.is_none());
}

#[test]
fn state_map_insert_replaces_and_remove_returns() {
    let mut map = OidcStateMap::new();
    let s1 = OidcState::new("/a".to_string(), PkceCodeVerifier::new("v1".to_string()), Nonce::new("n1".to_string()));
    let s2 = OidcState::new("/b".to_string(), PkceCodeVerifier::new("v2".to_string()), Nonce::new("n2".to_string()));
    assert!(map.insert("k".to_string(), s1).is_none());
    let prev = map.insert("k".to_string(), s2).expect("previous state");
    assert_eq!(prev.redirect_uri(), "/a");
    let got = map.remove(&"k".to_string()).expect("state");
    assert_eq!(got.redirect_uri(), "/b");
    assert!(map.remove(&"k".to_string()).is_none());
}

#[test]
fn oidc_state_secrets_taken_once() {
    let mut s = OidcState::new("/r".to_string(), PkceCodeVerifier::new("v".to_string()), Nonce::new("n".to_string()));
    assert_eq!(s.take_pkce_verifier().map(|v| v.secret().clone()), Some("v".to_string()));
    assert!(s.take_pkce_verifier().is_none());
    assert!(s.pkce_verifier().is_none());
    assert_eq!(s.nonce().as_ref().map(|n| n.secret().clone()), Some("n".to_string()));
    assert_eq!(s.take_nonce().map(|n| n.secret().clone()), Some("n".to_string()));
    assert!(s.take_nonce().is_none());
    assert_eq!(s.redirect_uri(), "/r");
}

#[test]
fn peer_label_defaults_to_unknown() {
    assert_eq!(peer_label(None), "unknown");
    assert_eq!(peer_label(Some("1.2.3.4:80".to_string())), "1.2.3.4:80");
}
