use oauth_redirect::auth::{
    ExchangeResult, OAuth2Authorizer, SessionState, TokenOutcome, TokenRequest,
};
use oauth_redirect::config::{ClientConfig, ClientRawConfig, ServicePresetConfig};
use oauth_redirect::error::AuthError;
use oauth_redirect::listener::{
    first_address, handle_callback, handle_token_outcome, parse_callback_query,
    CallbackAction, ExchangeQueryParams, ExchangeTokenData,
};
use oauth_redirect::registry::AuthorizerThreadsState;

const VERIFIER: &str = "dBjftJeZ4CVP-mB92K27uhbUJU1p1r_wW1gFWFOEjXk";
const CHALLENGE: &str = "E9Melhoa2OwvFrEMTJguCHaoeK1t8URWbuGJSstw-cM";

fn preset(auth_url: &str) -> ServicePresetConfig {
    ServicePresetConfig {
        auth_url: auth_url.to_string(),
        token_url: Some("https://example.com/token".to_string()),
        base_url: "https://api.example.com/".to_string(),
    }
}

fn config(auth_url: &str, scopes: &[&str]) -> ClientConfig {
    ClientConfig {
        preset: preset(auth_url),
        client_id: "my client".to_string(),
        client_secret: Some("shh".to_string()),
        redirect_url: "http://localhost:8080/callback".to_string(),
        scopes: scopes.iter().map(|s| s.to_string()).collect(),
    }
}

fn session(csrf: &str) -> OAuth2Authorizer {
    OAuth2Authorizer::with_secrets(
        config("https://example.com/authorize", &["read", "write"]),
        VERIFIER.to_string(),
        csrf.to_string(),
    )
}

fn granted(token: &str) -> ExchangeResult {
    ExchangeResult {
        access_token: token.to_string(),
        refresh_token: None,
        token_type: "bearer".to_string(),
        expires_in_secs: Some(3600),
    }
}

#[test]
fn client_config_merges_preset_and_registration() {
    let raw = ClientRawConfig {
        preset_name: "github".to_string(),
        client_id: "id".to_string(),
        client_secret: None,
        redirect_url: "http://127.0.0.1:9000/cb".to_string(),
        scopes: vec!["repo".to_string()],
    };
    let c = ClientConfig::new(preset("https://example.com/authorize"), raw);
    assert_eq!(c.preset, preset("https://example.com/authorize"));
    assert_eq!(c.client_id, "id");
    assert_eq!(c.client_secret, None);
    assert_eq!(c.redirect_url, "http://127.0.0.1:9000/cb");
    assert_eq!(c.scopes, vec!["repo".to_string()]);
}

#[test]
fn authorize_url_has_every_parameter_encoded() {
    let a = session("csrf-token_1");
    assert_eq!(
        a.authorize_url(),
        "https://example.com/authorize?response_type=code&client_id=my+client\
         &redirect_uri=http%3A%2F%2Flocalhost%3A8080%2Fcallback&scope=read+write\
         &state=csrf-token_1&code_challenge=E9Melhoa2OwvFrEMTJguCHaoeK1t8URWbuGJSstw-cM\
         &code_challenge_method=S256"
    );
    assert_eq!(a.state(), SessionState::AwaitingCallback);
}

#[test]
fn authorize_url_extends_an_existing_query_and_omits_empty_scope() {
    let a = OAuth2Authorizer::with_secrets(
        config("https://example.com/auth?prompt=consent", &[]),
        VERIFIER.to_string(),
        "s".to_string(),
    );
    assert_eq!(
        a.authorize_url(),
        "https://example.com/auth?prompt=consent&response_type=code&client_id=my+client\
         &redirect_uri=http%3A%2F%2Flocalhost%3A8080%2Fcallback\
         &state=s&code_challenge=E9Melhoa2OwvFrEMTJguCHaoeK1t8URWbuGJSstw-cM\
         &code_challenge_method=S256"
    );
    let b = OAuth2Authorizer::with_secrets(
        config("https://example.com/auth?", &[]),
        VERIFIER.to_string(),
        "s".to_string(),
    );
    assert!(b.authorize_url().starts_with("https://example.com/auth?response_type=code&"));
}

#[test]
fn fresh_session_binds_its_random_secrets_into_the_url() {
    let a = OAuth2Authorizer::new(config("https://example.com/authorize", &["read"]));
    let b = OAuth2Authorizer::new(config("https://example.com/authorize", &["read"]));
    assert_eq!(a.csrf_token().len(), 22);
    assert_eq!(a.pkce_verifier().len(), 43);
    assert_ne!(a.csrf_token(), b.csrf_token());
    assert_ne!(a.pkce_verifier(), b.pkce_verifier());
    let expected_state = format!("&state={}&code_challenge=", a.csrf_token());
    assert!(a.authorize_url().contains(&expected_state));
    assert!(a.authorize_url().ends_with("&code_challenge_method=S256"));
    // The challenge is the one that the verifier yields.
    let again = OAuth2Authorizer::with_secrets(
        config("https://example.com/authorize", &["read"]),
        a.pkce_verifier().clone(),
        a.csrf_token().clone(),
    );
    assert_eq!(again.authorize_url(), a.authorize_url());
}

#[test]
fn wrong_state_fails_with_csrf_mismatch_and_fails_the_session() {
    let mut a = session("good");
    assert_eq!(a.exchange_code("ABC", "bad"), Err(AuthError::CsrfMismatch));
    assert_eq!(a.state(), SessionState::Failed);
    assert_eq!(a.exchange_code("ABC", "good"), Err(AuthError::SessionClosed));
    assert_eq!(a.exchange_code("ABC", "bad"), Err(AuthError::CsrfMismatch));
}

#[test]
fn wrong_state_after_exchange_is_still_a_csrf_mismatch() {
    let mut a = session("good");
    assert!(a.exchange_code("ABC", "good").is_ok());
    assert_eq!(a.exchange_code("ABC", "other"), Err(AuthError::CsrfMismatch));
    assert_eq!(a.state(), SessionState::Exchanging);
}

#[test]
fn exchange_is_single_use() {
    let mut a = session("good");
    let req = a.exchange_code("ABC", "good").unwrap();
    assert_eq!(
        req,
        TokenRequest {
            token_url: Some("https://example.com/token".to_string()),
            code: "ABC".to_string(),
            redirect_uri: "http://localhost:8080/callback".to_string(),
            client_id: "my client".to_string(),
            client_secret: Some("shh".to_string()),
            code_verifier: VERIFIER.to_string(),
        }
    );
    assert_eq!(a.state(), SessionState::Exchanging);
    assert_eq!(a.exchange_code("ABC", "good"), Err(AuthError::AlreadyExchanged));
    assert_eq!(
        a.complete_exchange(TokenOutcome::Granted(granted("tok123"))),
        Ok(granted("tok123"))
    );
    assert_eq!(a.state(), SessionState::Exchanged);
    assert_eq!(a.exchange_code("ABC", "good"), Err(AuthError::AlreadyExchanged));
    assert_eq!(
        a.complete_exchange(TokenOutcome::Granted(granted("again"))),
        Err(AuthError::SessionClosed)
    );
}

#[test]
fn token_endpoint_failures_fail_the_session() {
    let mut a = session("good");
    a.exchange_code("ABC", "good").unwrap();
    let outcome = TokenOutcome::EndpointError { status: Some(401), body: "denied".to_string() };
    assert_eq!(
        a.complete_exchange(outcome),
        Err(AuthError::TokenEndpointError { status: Some(401), body: "denied".to_string() })
    );
    assert_eq!(a.state(), SessionState::Failed);

    let mut b = session("good");
    b.exchange_code("ABC", "good").unwrap();
    assert_eq!(
        b.complete_exchange(TokenOutcome::DecodeError("eof".to_string())),
        Err(AuthError::TokenDecodeError("eof".to_string()))
    );
    assert_eq!(b.state(), SessionState::Failed);
}

#[test]
fn completing_without_an_exchange_in_flight_is_refused() {
    let mut a = session("good");
    assert_eq!(
        a.complete_exchange(TokenOutcome::Granted(granted("x"))),
        Err(AuthError::SessionClosed)
    );
    assert_eq!(a.state(), SessionState::AwaitingCallback);
}

#[test]
fn abort_closes_a_pending_session_only() {
    let mut a = session("good");
    a.abort();
    assert_eq!(a.state(), SessionState::Aborted);
    assert_eq!(a.exchange_code("ABC", "good"), Err(AuthError::SessionClosed));

    let mut b = session("good");
    b.exchange_code("ABC", "good").unwrap();
    b.complete_exchange(TokenOutcome::Granted(granted("t"))).unwrap();
    b.abort();
    assert_eq!(b.state(), SessionState::Exchanged);
}

#[test]
fn one_shot_exchange_consumes_the_session() {
    let a = session("good");
    let req = a.try_into_token_request("XYZ", "good").unwrap();
    assert_eq!(req.code, "XYZ");
    assert_eq!(req.code_verifier, VERIFIER);
    let b = session("good");
    assert_eq!(b.try_into_token_request("XYZ", "nope"), Err(AuthError::CsrfMismatch));
}

#[test]
fn callback_query_is_decoded_and_checked() {
    assert_eq!(
        parse_callback_query("code=ABC&state=xyz"),
        Ok(ExchangeQueryParams { code: "ABC".to_string(), state: "xyz".to_string() })
    );
    assert_eq!(
        parse_callback_query("state=s%2F1&code=a%20b+c"),
        Ok(ExchangeQueryParams { code: "a b c".to_string(), state: "s/1".to_string() })
    );
    assert_eq!(
        parse_callback_query("code=first&code=second&state=s"),
        Ok(ExchangeQueryParams { code: "first".to_string(), state: "s".to_string() })
    );
    assert_eq!(parse_callback_query("state=xyz"), Err(AuthError::MissingCode));
    assert_eq!(parse_callback_query(""), Err(AuthError::MissingCode));
    assert_eq!(parse_callback_query("code=ABC"), Err(AuthError::MissingState));
}

#[test]
fn callback_without_code_is_a_bad_request_and_keeps_waiting() {
    let mut a = session("good");
    let action = handle_callback(&mut a, "state=good");
    assert_eq!(
        action,
        CallbackAction::Respond {
            status: 400,
            body: "missing query parameter: code".to_string()
        }
    );
    assert_eq!(a.state(), SessionState::AwaitingCallback);
}

#[test]
fn callback_with_wrong_state_is_a_server_error_naming_csrf() {
    let mut a = session("good");
    match handle_callback(&mut a, "code=ABC&state=evil") {
        CallbackAction::Respond { status, body } => {
            assert_eq!(status, 500);
            assert!(body.contains("CSRF"));
        }
        CallbackAction::RequestToken(_) => panic!("a token request was made"),
    }
    assert_eq!(a.state(), SessionState::Failed);
}

#[test]
fn end_to_end_callback_publishes_the_token() {
    let mut registry: AuthorizerThreadsState<OAuth2Authorizer> = AuthorizerThreadsState::new();
    let a = session("csrf42");
    let url = a.authorize_url().clone();
    assert!(url.contains("&state=csrf42&"));
    assert_eq!(registry.insert("github".to_string(), a).map_err(|_| ()), Ok(()));

    let mut a = registry.take("github").unwrap();
    let req = match handle_callback(&mut a, "code=ABC&state=csrf42") {
        CallbackAction::RequestToken(req) => req,
        other => panic!("unexpected {:?}", other),
    };
    assert_eq!(req.code, "ABC");
    assert_eq!(req.code_verifier, VERIFIER);
    let reply = handle_token_outcome(&mut a, "github", TokenOutcome::Granted(granted("tok123")));
    assert_eq!(reply.status, 200);
    assert_eq!(reply.body, "OK");
    assert_eq!(
        reply.event,
        Some(ExchangeTokenData {
            name: "github".to_string(),
            access_token: "tok123".to_string(),
            refresh_token: None,
        })
    );
    assert_eq!(a.state(), SessionState::Exchanged);
}

#[test]
fn failed_token_request_is_answered_without_an_event() {
    let mut a = session("good");
    handle_callback(&mut a, "code=ABC&state=good");
    let outcome = TokenOutcome::EndpointError { status: None, body: "timeout".to_string() };
    let reply = handle_token_outcome(&mut a, "github", outcome);
    assert_eq!(reply.status, 500);
    assert_eq!(reply.body, "token endpoint error: timeout");
    assert_eq!(reply.event, None);
}

#[test]
fn registry_refuses_a_duplicate_name() {
    let mut r: AuthorizerThreadsState<u32> = AuthorizerThreadsState::new();
    assert_eq!(r.insert("a".to_string(), 1), Ok(()));
    assert_eq!(r.insert("a".to_string(), 2), Err(2));
    assert_eq!(r.len(), 1);
    assert_eq!(r.remove("a"), Some(1));
    assert_eq!(r.insert("a".to_string(), 3), Ok(()));
    assert_eq!(r.remove("a"), Some(3));
}

#[test]
fn registry_stop_is_idempotent() {
    let mut r: AuthorizerThreadsState<u32> = AuthorizerThreadsState::new();
    assert_eq!(r.remove("never"), None);
    assert_eq!(r.insert("a".to_string(), 1), Ok(()));
    assert_eq!(r.insert("b".to_string(), 2), Ok(()));
    assert_eq!(r.remove("a"), Some(1));
    assert_eq!(r.remove("a"), None);
    assert!(!r.contains("a"));
    assert!(r.contains("b"));
    assert_eq!(r.len(), 1);
    assert_eq!(r.take("a"), Err(AuthError::NotFound));
    assert_eq!(r.take("b"), Ok(2));
}

#[test]
fn first_address_or_resolution_error() {
    assert_eq!(first_address::<u16>(vec![]), Err(AuthError::AddressResolutionError));
    assert_eq!(first_address(vec![8080u16, 9090]), Ok(8080));
}

#[test]
fn errors_carry_status_and_text() {
    assert_eq!(AuthError::MissingCode.status(), 400);
    assert_eq!(AuthError::MissingState.status(), 400);
    assert_eq!(AuthError::CsrfMismatch.status(), 500);
    assert_eq!(AuthError::CsrfMismatch.message(), "CSRF token mismatch");
    assert_eq!(
        AuthError::BindError("in use".to_string()).message(),
        "cannot bind redirect listener: in use"
    );
    assert_eq!(AuthError::DuplicateSession.message(), "session already running");
}
