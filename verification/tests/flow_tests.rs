use bff_proxy::config::Config;
use bff_proxy::error::{ConfigKey, FlowError, SessionKey};
use bff_proxy::flow::{callback, callback_begin, callback_exchange, callback_profile, start,
    start_fresh, CallbackParams};
use bff_proxy::provider::{ExchangeOutcome, ProfileOutcome, TokenResponse, UserProfile};
use bff_proxy::reply::{index_reply, reply_for_callback, reply_for_start};
use bff_proxy::session::SessionState;

fn full_config() -> Config {
    Config {
        client_id: Some("id1".to_string()),
        client_secret: Some("sec".to_string()),
        redirect_uri: Some("http://localhost/cb".to_string()),
    }
}

fn sample_profile() -> UserProfile {
    UserProfile {
        login: "alice".to_string(),
        id: 1,
        node_id: "MDQ6VXNlcjE=".to_string(),
        avatar_url: "https://avatars.example/1".to_string(),
        gravatar_id: None,
        url: "https://api.github.com/users/alice".to_string(),
        html_url: "https://github.com/alice".to_string(),
        followers_url: "https://api.github.com/users/alice/followers".to_string(),
        following_url: "https://api.github.com/users/alice/following".to_string(),
        gists_url: "https://api.github.com/users/alice/gists".to_string(),
        starred_url: "https://api.github.com/users/alice/starred".to_string(),
        subscriptions_url: "https://api.github.com/users/alice/subscriptions".to_string(),
        organizations_url: "https://api.github.com/users/alice/orgs".to_string(),
        repos_url: "https://api.github.com/users/alice/repos".to_string(),
        events_url: "https://api.github.com/users/alice/events".to_string(),
        received_events_url: "https://api.github.com/users/alice/received_events".to_string(),
        type_: Some("User".to_string()),
        site_admin: false,
        name: "Alice".to_string(),
        company: None,
        blog: None,
        location: None,
        email: Some("alice@example.com".to_string()),
        hireable: false,
        bio: None,
        twitter_username: None,
        public_repos: 3,
        public_gists: 0,
        followers: 2,
        following: 1,
        created_at: "2020-01-01T00:00:00Z".to_string(),
        updated_at: "2023-01-01T00:00:00Z".to_string(),
    }
}

fn good_exchange() -> ExchangeOutcome {
    ExchangeOutcome::Response(TokenResponse {
        access_token: "tok123".to_string(),
        token_type: "bearer".to_string(),
        scope: "user:email".to_string(),
    })
}

#[test]
fn start_stores_token_and_builds_url() {
    let (session, outcome) = start(&full_config(), "abc123".to_string(), SessionState::Empty);
    assert_eq!(session.csrf_state(), Some(&"abc123".to_string()));
    let url = outcome.unwrap();
    assert_eq!(
        url,
        "https://github.com/login/oauth/authorize?scope=user:email&client_id=id1&redirect_uri=http://localhost/cb&state=abc123"
    );
}

#[test]
fn start_missing_client_id_fails_fast() {
    let config = Config { client_id: None, ..full_config() };
    let (session, outcome) = start(&config, "abc".to_string(), SessionState::Empty);
    assert!(session.csrf_state().is_none());
    let e = outcome.unwrap_err();
    assert_eq!(e, FlowError::ConfigurationMissing(ConfigKey::ClientId));
    assert_eq!(e.message(), "Error: CLIENT_ID not set!");
}

#[test]
fn start_missing_redirect_fails_fast() {
    let config = Config { redirect_uri: None, ..full_config() };
    let (_, outcome) = start(&config, "abc".to_string(), SessionState::Empty);
    let e = outcome.unwrap_err();
    assert_eq!(e, FlowError::ConfigurationMissing(ConfigKey::RedirectUri));
    assert_eq!(e.message(), "Error: REDIRECT_URI not set!");
}

#[test]
fn callback_missing_config_fails_before_session_and_network() {
    let params = CallbackParams { code: "c0".to_string(), state: "aaa".to_string() };
    let pending = SessionState::PendingAuth { state: "aaa".to_string() };

    let no_id = Config { client_id: None, ..full_config() };
    let (session, outcome) = callback_begin(&no_id, pending.clone(), &params);
    // the session was not even read: the pending token is still there
    assert_eq!(session.csrf_state(), Some(&"aaa".to_string()));
    assert_eq!(outcome.unwrap_err(), FlowError::ConfigurationMissing(ConfigKey::ClientId));

    let no_secret = Config { client_secret: None, ..full_config() };
    let (_, outcome) = callback_begin(&no_secret, pending.clone(), &params);
    let e = outcome.unwrap_err();
    assert_eq!(e, FlowError::ConfigurationMissing(ConfigKey::ClientSecret));
    assert_eq!(e.message(), "Error: CLIENT_SECRET not set!");

    let no_redirect = Config { redirect_uri: None, ..full_config() };
    let (_, outcome) = callback_begin(&no_redirect, pending, &params);
    assert_eq!(outcome.unwrap_err(), FlowError::ConfigurationMissing(ConfigKey::RedirectUri));
}

#[test]
fn callback_without_pending_state_fails() {
    let params = CallbackParams { code: "c0".to_string(), state: "aaa".to_string() };
    let (session, outcome) = callback_begin(&full_config(), SessionState::Empty, &params);
    assert!(session.csrf_state().is_none());
    let e = outcome.unwrap_err();
    assert_eq!(e, FlowError::CsrfStateAbsent);
    assert_eq!(e.message(), "Error: Could not get session state!");
}

#[test]
fn callback_state_mismatch_fails_and_consumes_token() {
    let params = CallbackParams { code: "c0".to_string(), state: "bbb".to_string() };
    let pending = SessionState::PendingAuth { state: "aaa".to_string() };
    let (session, outcome) = callback_begin(&full_config(), pending, &params);
    // single use: the mismatching token is gone
    assert!(session.csrf_state().is_none());
    let e = outcome.unwrap_err();
    assert_eq!(e, FlowError::CsrfStateMismatch);
    assert_eq!(e.message(), "Error: State does not match!");
}

#[test]
fn callback_matching_state_yields_exchange_request() {
    let params = CallbackParams { code: "c0".to_string(), state: "aaa".to_string() };
    let pending = SessionState::PendingAuth { state: "aaa".to_string() };
    let (session, outcome) = callback_begin(&full_config(), pending, &params);
    assert!(session.csrf_state().is_none());
    let req = outcome.unwrap();
    assert_eq!(
        req.url,
        "https://github.com/login/oauth/access_token?code=c0&client_id=id1&client_secret=sec&redirect_uri=http://localhost/cb"
    );
    assert_eq!(req.accept, "application/json");
}

#[test]
fn exchange_response_persists_token_and_builds_profile_request() {
    let (session, outcome) = callback_exchange(SessionState::Empty, good_exchange());
    assert_eq!(session.access_token(), Some(&"tok123".to_string()));
    let req = outcome.unwrap();
    assert_eq!(req.url, "https://api.github.com/user");
    assert_eq!(req.api_version, "2022-11-28");
    assert_eq!(req.accept, "application/json");
    assert_eq!(req.user_agent, "Caveman Learn App");
    assert_eq!(req.bearer_token, "tok123");
}

#[test]
fn exchange_transport_error_is_distinct_from_csrf_mismatch() {
    let (session, outcome) = callback_exchange(SessionState::Empty, ExchangeOutcome::TransportError);
    assert!(session.access_token().is_none());
    let e = outcome.unwrap_err();
    assert_eq!(e, FlowError::TokenExchangeTransportError);
    assert_ne!(e.message(), FlowError::CsrfStateMismatch.message());
}

#[test]
fn exchange_decode_error_fails() {
    let (_, outcome) = callback_exchange(SessionState::Empty, ExchangeOutcome::DecodeError);
    let e = outcome.unwrap_err();
    assert_eq!(e, FlowError::TokenExchangeDecodeError);
    assert_eq!(e.message(), "Error: Could not get access token!");
}

#[test]
fn profile_outcomes_map_to_name_or_error() {
    assert_eq!(
        callback_profile(ProfileOutcome::Response(sample_profile())).unwrap(),
        "Alice"
    );
    let e = callback_profile(ProfileOutcome::TransportError).unwrap_err();
    assert_eq!(e, FlowError::ProfileFetchTransportError);
    assert_eq!(e.message(), "Error: Could not fetch user info!");
    let e = callback_profile(ProfileOutcome::DecodeError).unwrap_err();
    assert_eq!(e, FlowError::ProfileFetchDecodeError);
    assert_eq!(e.message(), "Error: Could not deserialize user info!");
}

#[test]
fn full_callback_with_stubbed_provider_yields_display_name() {
    let params = CallbackParams { code: "any-code".to_string(), state: "aaa".to_string() };
    let pending = SessionState::PendingAuth { state: "aaa".to_string() };
    let (session, outcome) = callback(
        &full_config(),
        pending,
        &params,
        good_exchange(),
        ProfileOutcome::Response(sample_profile()),
    );
    assert_eq!(session.access_token(), Some(&"tok123".to_string()));
    let reply = reply_for_callback(outcome);
    assert_eq!(reply.status, 200);
    assert_eq!(reply.body, "Alice");
    assert!(reply.location.is_none());
}

#[test]
fn full_callback_with_failing_exchange_yields_distinct_500() {
    let params = CallbackParams { code: "any-code".to_string(), state: "aaa".to_string() };
    let pending = SessionState::PendingAuth { state: "aaa".to_string() };
    let (session, outcome) = callback(
        &full_config(),
        pending,
        &params,
        ExchangeOutcome::TransportError,
        ProfileOutcome::Response(sample_profile()),
    );
    // the pending token is consumed even though the exchange failed
    assert!(session.csrf_state().is_none());
    let reply = reply_for_callback(outcome);
    assert_eq!(reply.status, 500);
    assert_eq!(reply.body, "Error: Could not get access token!");
    assert_ne!(reply.body, "Error: State does not match!");
}

#[test]
fn fresh_tokens_differ_and_only_the_second_wins() {
    let config = full_config();
    let (session1, outcome1) = start_fresh(&config, SessionState::Empty);
    let first = session1.csrf_state().unwrap().clone();
    let (session2, outcome2) = start_fresh(&config, session1.clone());
    let second = session2.csrf_state().unwrap().clone();
    assert!(outcome1.is_ok() && outcome2.is_ok());
    assert_eq!(first.len(), 36);
    assert_eq!(second.len(), 36);
    assert_ne!(first, second);

    let stale = CallbackParams { code: "c0".to_string(), state: first };
    let (_, outcome) = callback_begin(&config, session2.clone(), &stale);
    assert_eq!(outcome.unwrap_err(), FlowError::CsrfStateMismatch);

    let current = CallbackParams { code: "c0".to_string(), state: second };
    let (_, outcome) = callback_begin(&config, session2, &current);
    assert!(outcome.is_ok());
}

#[test]
fn redirect_reply_preserves_url_and_error_reply_carries_message() {
    let reply = reply_for_start(Ok("https://example/auth".to_string()));
    assert_eq!(reply.status, 307);
    assert_eq!(reply.location, Some("https://example/auth".to_string()));
    assert_eq!(reply.body, "");

    let reply = reply_for_start(Err(FlowError::SessionWriteFailure(SessionKey::CsrfState)));
    assert_eq!(reply.status, 500);
    assert!(reply.location.is_none());
    assert_eq!(reply.body, "Error: Could not set session state!");

    let reply = reply_for_callback(Err(FlowError::SessionWriteFailure(SessionKey::AccessToken)));
    assert_eq!(reply.body, "Error: Could not set session access token!");

    let reply = reply_for_callback(Err(FlowError::SessionReadFailure));
    assert_eq!(reply.body, "Error: Could not get session state!");
}

#[test]
fn index_replies_hello_world() {
    let reply = index_reply();
    assert_eq!(reply.status, 200);
    assert_eq!(reply.body, "Hello world!");
    assert!(reply.location.is_none());
}
