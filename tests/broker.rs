use std::collections::HashMap;

use auth_gateway::broker::{
    authorize_url, exchange_url, introspect_url, login_location, login_requested, redirect_uri,
    state_key, step, BrokerError, FlowAction, FlowEvent, FlowState, ProviderReply, StoreReply,
};
use auth_gateway::environment::AppEnvironment;
use auth_gateway::facebook::{
    FacebookAccessToken, FacebookDebugTokenGraph, FacebookDebugTokenGraphContainer,
    FacebookGranularScope, RedirectResponse,
};

fn env() -> AppEnvironment {
    AppEnvironment {
        base_url: "http://localhost:8080".to_string(),
        facebook_client_id: "1234".to_string(),
        facebook_client_secret: "s3cr3t".to_string(),
        facebook_required_scopes: "email,public_profile".to_string(),
        mongodb_url: "mongodb://localhost:27017".to_string(),
        redis_url: "redis://localhost".to_string(),
        sentry_dsn: String::new(),
        cf_access_aud: "aud".to_string(),
        cf_access_team: "team".to_string(),
        cf_access_certs_url: "https://team.cloudflareaccess.com/cdn-cgi/access/certs".to_string(),
    }
}

fn token() -> FacebookAccessToken {
    FacebookAccessToken {
        access_token: "EAAB-provider-token".to_string(),
        token_type: "bearer".to_string(),
        expires_in: 5183944,
    }
}

fn graph() -> FacebookDebugTokenGraphContainer {
    FacebookDebugTokenGraphContainer {
        data: FacebookDebugTokenGraph {
            app_id: "1234".to_string(),
            type_: "USER".to_string(),
            application: "gateway".to_string(),
            data_access_expires_at: 1_700_000_000,
            expires_at: 1_690_000_000,
            is_valid: true,
            issued_at: 1_680_000_000,
            scopes: vec!["email".to_string()],
            granular_scopes: vec![FacebookGranularScope {
                scope: "email".to_string(),
                target_ids: vec![],
            }],
            user_id: "42".to_string(),
        },
    }
}

/// An in-memory stand-in for the key-value store.
#[derive(Default)]
struct MemoryStore {
    values: HashMap<String, String>,
}

impl MemoryStore {
    fn put(&mut self, key: String, value: String) {
        self.values.insert(key, value);
    }

    fn take(&self, key: &str) -> StoreReply {
        match self.values.get(key) {
            Some(v) => StoreReply::Value(v.clone()),
            None => StoreReply::Missing,
        }
    }
}

/// Runs the login leg against `store` and returns the response.
fn run_login(store: &mut MemoryStore, email: &str, state_token: &str) -> RedirectResponse<auth_gateway::facebook::TempResponse> {
    let e = env();
    let event = FlowEvent::LoginRequested {
        email: email.to_string(),
        state_token: state_token.to_string(),
    };
    let (s, a) = step(&e, FlowState::AwaitingLogin, event);
    let (key, value) = match a {
        FlowAction::StoreState { key, value } => (key, value),
        other => panic!("expected a store write, got {:?}", other),
    };
    store.put(key, value);
    match step(&e, s, FlowEvent::StateStored(true)) {
        (FlowState::AwaitingCallback, FlowAction::Respond(resp)) => resp,
        other => panic!("unexpected step {:?}", other),
    }
}

/// Runs the callback leg up to its first provider call, or its response.
fn run_callback(
    store: &MemoryStore,
    email: &str,
    code: Option<&str>,
    state: Option<&str>,
) -> (FlowState, FlowAction) {
    let e = env();
    let event = FlowEvent::CallbackReceived {
        email: email.to_string(),
        code: code.map(|c| c.to_string()),
        state: state.map(|s| s.to_string()),
    };
    let (s, a) = step(&e, FlowState::AwaitingCallback, event);
    let key = match a {
        FlowAction::ReadState { key } => key,
        other => return (s, other),
    };
    step(&e, s, FlowEvent::StateRead(store.take(&key)))
}

#[test]
fn state_key_is_namespaced_by_email() {
    assert_eq!(state_key("a@b.com"), "fb_state+a@b.com");
    assert_eq!(state_key(""), "fb_state+");
}

#[test]
fn fresh_state_token_is_sixteen_alphanumerics() {
    for _ in 0..20 {
        match login_requested("a@b.com".to_string()) {
            FlowEvent::LoginRequested { email, state_token } => {
                assert_eq!(email, "a@b.com");
                assert_eq!(state_token.len(), 16);
                assert!(state_token.chars().all(|c| c.is_ascii_alphanumeric()));
            }
            other => panic!("unexpected event {:?}", other),
        }
    }
}

#[test]
fn provider_urls_are_exact() {
    let e = env();
    assert_eq!(redirect_uri(&e).unwrap(), "http://localhost:8080/api/v1/redirect/facebook");
    assert_eq!(
        authorize_url(&e, &"AbCdEfGh12345678".to_string()).unwrap(),
        "https://www.facebook.com/v15.0/dialog/oauth?client_id=1234&redirect_uri=http%3A%2F%2Flocalhost%3A8080%2Fapi%2Fv1%2Fredirect%2Ffacebook&state=AbCdEfGh12345678&scope=email%2Cpublic_profile"
    );
    assert_eq!(
        exchange_url(&e, &"the code".to_string()).unwrap(),
        "https://graph.facebook.com/v15.0/oauth/access_token?client_id=1234&client_secret=s3cr3t&redirect_uri=http%3A%2F%2Flocalhost%3A8080%2Fapi%2Fv1%2Fredirect%2Ffacebook&code=the+code"
    );
    assert_eq!(
        introspect_url(&e, &"tok".to_string()).unwrap(),
        "https://graph.facebook.com/debug_token?input_token=tok&access_token=1234%7Cs3cr3t"
    );
    assert_eq!(login_location(&e), "http://localhost:8080/api/v1/login/facebook");
}

#[test]
fn bad_base_url_is_a_configuration_error() {
    let mut e = env();
    e.base_url = "not a url".to_string();
    assert!(redirect_uri(&e).is_none());
    let event = FlowEvent::LoginRequested {
        email: "a@b.com".to_string(),
        state_token: "AbCdEfGh12345678".to_string(),
    };
    match step(&e, FlowState::AwaitingLogin, event) {
        (FlowState::Rejected(BrokerError::ConfigurationInvalid), FlowAction::Respond(r)) => {
            assert_eq!(r.status(), 500)
        }
        other => panic!("unexpected step {:?}", other),
    }
}

#[test]
fn csrf_round_trip() {
    let mut store = MemoryStore::default();
    run_login(&mut store, "a@b.com", "abc123");
    assert_eq!(store.values.get("fb_state+a@b.com").map(String::as_str), Some("abc123"));
    match store.take(&state_key("a@b.com")) {
        StoreReply::Value(v) => assert_eq!(v, "abc123"),
        other => panic!("unexpected reply {:?}", other),
    }
    let (s, a) = run_callback(&store, "a@b.com", Some("code"), Some("abc123"));
    assert!(matches!(s, FlowState::Exchanging));
    assert!(matches!(a, FlowAction::ProviderGet { .. }));
    assert!(matches!(store.take(&state_key("nobody@b.com")), StoreReply::Missing));
}

#[test]
fn later_login_overwrites_state() {
    let mut store = MemoryStore::default();
    run_login(&mut store, "a@b.com", "first");
    run_login(&mut store, "a@b.com", "second");
    let (s, _) = run_callback(&store, "a@b.com", Some("code"), Some("first"));
    assert!(matches!(s, FlowState::Rejected(BrokerError::CsrfMismatch)));
    let (s, _) = run_callback(&store, "a@b.com", Some("code"), Some("second"));
    assert!(matches!(s, FlowState::Exchanging));
}

#[test]
fn callback_without_stored_state_is_rejected() {
    let store = MemoryStore::default();
    match run_callback(&store, "a@b.com", Some("code"), Some("abc123")) {
        (FlowState::Rejected(BrokerError::CsrfMismatch), FlowAction::Respond(r)) => {
            assert_eq!(r.status(), 400)
        }
        other => panic!("unexpected step {:?}", other),
    }
}

#[test]
fn mismatched_state_never_reaches_exchange() {
    let mut store = MemoryStore::default();
    run_login(&mut store, "a@b.com", "AbCdEfGh12345678");
    let mut provider_calls = 0;
    let (s, a) = run_callback(&store, "a@b.com", Some("code"), Some("AbCdEfGh1234567X"));
    if let FlowAction::ProviderGet { .. } = a {
        provider_calls += 1;
    }
    assert_eq!(provider_calls, 0);
    assert!(matches!(s, FlowState::Rejected(BrokerError::CsrfMismatch)));
    match a {
        FlowAction::Respond(r) => assert_eq!(r.status(), 400),
        other => panic!("unexpected action {:?}", other),
    }
}

#[test]
fn other_users_state_does_not_match() {
    let mut store = MemoryStore::default();
    run_login(&mut store, "a@b.com", "AbCdEfGh12345678");
    let (s, _) = run_callback(&store, "c@d.com", Some("code"), Some("AbCdEfGh12345678"));
    assert!(matches!(s, FlowState::Rejected(BrokerError::CsrfMismatch)));
}

#[test]
fn missing_code_or_state_is_unauthorized() {
    let store = MemoryStore::default();
    for (code, state) in [(None, Some("s")), (Some("c"), None), (None, None)] {
        match run_callback(&store, "a@b.com", code, state) {
            (FlowState::Rejected(BrokerError::MissingCallbackParameter), FlowAction::Respond(r)) => {
                assert_eq!(r.status(), 400)
            }
            other => panic!("unexpected step {:?}", other),
        }
    }
}

#[test]
fn store_failures_are_server_errors() {
    let e = env();
    let event = FlowEvent::LoginRequested {
        email: "a@b.com".to_string(),
        state_token: "AbCdEfGh12345678".to_string(),
    };
    let (s, _) = step(&e, FlowState::AwaitingLogin, event);
    match step(&e, s, FlowEvent::StateStored(false)) {
        (FlowState::Rejected(BrokerError::CsrfStoreUnavailable), FlowAction::Respond(r)) => {
            assert_eq!(r.status(), 500)
        }
        other => panic!("unexpected step {:?}", other),
    }
    let checking = FlowState::CheckingState { code: "c".to_string(), state: "s".to_string() };
    match step(&e, checking, FlowEvent::StateRead(StoreReply::Unavailable)) {
        (FlowState::Rejected(BrokerError::CsrfStoreUnavailable), FlowAction::Respond(r)) => {
            assert_eq!(r.status(), 500)
        }
        other => panic!("unexpected step {:?}", other),
    }
}

#[test]
fn unparseable_exchange_redirects_to_login() {
    let e = env();
    match step(&e, FlowState::Exchanging, FlowEvent::TokenExchanged(ProviderReply::Unparseable)) {
        (FlowState::AwaitingLogin, FlowAction::Respond(r)) => {
            assert_eq!(r.status(), 307);
            match r {
                RedirectResponse::Redirect(l) => {
                    assert_eq!(l.location, "http://localhost:8080/api/v1/login/facebook")
                }
                other => panic!("unexpected response {:?}", other),
            }
        }
        other => panic!("unexpected step {:?}", other),
    }
}

#[test]
fn unreachable_provider_is_a_server_error() {
    let e = env();
    match step(&e, FlowState::Exchanging, FlowEvent::TokenExchanged(ProviderReply::Unreachable)) {
        (FlowState::Rejected(BrokerError::ProviderUnreachable), FlowAction::Respond(r)) => {
            assert_eq!(r.status(), 500)
        }
        other => panic!("unexpected step {:?}", other),
    }
    let introspecting = FlowState::Introspecting { token: token() };
    match step(&e, introspecting, FlowEvent::TokenIntrospected(ProviderReply::Unreachable)) {
        (FlowState::Rejected(BrokerError::ProviderUnreachable), FlowAction::Respond(r)) => {
            assert_eq!(r.status(), 500)
        }
        other => panic!("unexpected step {:?}", other),
    }
    let introspecting = FlowState::Introspecting { token: token() };
    match step(&e, introspecting, FlowEvent::TokenIntrospected(ProviderReply::Unparseable)) {
        (FlowState::Rejected(BrokerError::ProviderResponseUnparseable), FlowAction::Respond(r)) => {
            assert_eq!(r.status(), 500)
        }
        other => panic!("unexpected step {:?}", other),
    }
}

#[test]
fn out_of_order_event_is_rejected() {
    let e = env();
    match step(&e, FlowState::Completed, FlowEvent::StateStored(true)) {
        (FlowState::Rejected(BrokerError::UnexpectedEvent), FlowAction::Respond(r)) => {
            assert_eq!(r.status(), 500)
        }
        other => panic!("unexpected step {:?}", other),
    }
}

#[test]
fn login_then_callback_end_to_end() {
    let e = env();
    let mut store = MemoryStore::default();
    let state_token = match login_requested("a@b.com".to_string()) {
        FlowEvent::LoginRequested { state_token, .. } => state_token,
        other => panic!("unexpected event {:?}", other),
    };
    let resp = run_login(&mut store, "a@b.com", &state_token);
    assert_eq!(resp.status(), 307);
    let location = match resp {
        RedirectResponse::Redirect(l) => l.location,
        other => panic!("unexpected response {:?}", other),
    };
    assert!(location.contains(&format!("client_id=1234&")));
    assert!(location.contains(&format!("&state={}&", state_token)));
    assert_eq!(state_token.len(), 16);
    assert_eq!(store.values.get("fb_state+a@b.com"), Some(&state_token));

    let mut exchange_calls = 0;
    let (s, a) = run_callback(&store, "a@b.com", Some("the-code"), Some(&state_token));
    let url = match a {
        FlowAction::ProviderGet { url } => url,
        other => panic!("unexpected action {:?}", other),
    };
    exchange_calls += 1;
    assert!(url.starts_with("https://graph.facebook.com/v15.0/oauth/access_token?"));
    assert!(url.contains("code=the-code"));
    assert_eq!(exchange_calls, 1);

    let (s, a) = step(&e, s, FlowEvent::TokenExchanged(ProviderReply::Parsed(token())));
    match a {
        FlowAction::ProviderGet { url } => {
            assert!(url.contains("input_token=EAAB-provider-token"))
        }
        other => panic!("unexpected action {:?}", other),
    }
    match step(&e, s, FlowEvent::TokenIntrospected(ProviderReply::Parsed(graph()))) {
        (FlowState::Completed, FlowAction::Respond(r)) => {
            assert_eq!(r.status(), 200);
            match r {
                RedirectResponse::Success(body) => {
                    assert_eq!(body.access_token.access_token, "EAAB-provider-token");
                    assert_eq!(body.access_token.token_type, "bearer");
                    assert_eq!(body.debug_graph.data.user_id, "42");
                    assert!(body.debug_graph.data.is_valid);
                }
                other => panic!("unexpected response {:?}", other),
            }
        }
        other => panic!("unexpected step {:?}", other),
    }
}
