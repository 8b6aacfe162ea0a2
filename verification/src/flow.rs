//! The sign-in flow controller. Each step is a pure function from the
//! settings, the session payload and (for the callback) the outcome of a
//! provider call to the next session payload and a result; the matching
//! `*_step` spec functions pin every answer exactly. The caller performs the
//! redirect, the session-store round trips and the two provider calls, and
//! feeds what came back into the next step.

use vstd::prelude::*;
use crate::config::{Config, ConfigView};
use crate::error::{ConfigKey, FlowError};
use crate::provider::{authorize_url, authorize_url_spec, token_request, token_url_spec,
    profile_request, ExchangeOutcome, ExchangeView, ProfileOutcome, ProfileView, TokenRequest,
    ProfileRequest};
use crate::session::{SessionState, SessionView};

verus! {

/// The two query parameters the provider echoes back to the callback.
#[derive(Clone, Debug)]
pub struct CallbackParams {
    pub code: String,
    pub state: String,
}

/// A string result abstracted to a character-sequence result.
pub open spec fn str_result_view(r: Result<String, FlowError>) -> Result<Seq<char>, FlowError> {
    match r {
        Ok(s) => Ok(s@),
        Err(e) => Err(e),
    }
}

/// A token-exchange-request result abstracted to its URL.
pub open spec fn token_req_result_view(r: Result<TokenRequest, FlowError>) -> Result<
    Seq<char>,
    FlowError,
> {
    match r {
        Ok(req) => Ok(req.url@),
        Err(e) => Err(e),
    }
}

/// A profile-fetch-request result abstracted to its bearer credential.
pub open spec fn profile_req_result_view(r: Result<ProfileRequest, FlowError>) -> Result<
    Seq<char>,
    FlowError,
> {
    match r {
        Ok(req) => Ok(req.bearer_token@),
        Err(e) => Err(e),
    }
}

/// What the start step does: check the two settings it needs, store the
/// fresh token, and answer with the authorization URL that embeds it. On a
/// missing setting the session is left untouched.
pub open spec fn start_step(c: ConfigView, session: SessionView, token: Seq<char>) -> (
    SessionView,
    Result<Seq<char>, FlowError>,
) {
    match c.client_id {
        None => (session, Err(FlowError::ConfigurationMissing(ConfigKey::ClientId))),
        Some(cid) => match c.redirect_uri {
            None => (session, Err(FlowError::ConfigurationMissing(ConfigKey::RedirectUri))),
            Some(ruri) => (
                SessionView::Pending { state: token },
                Ok(authorize_url_spec(cid, ruri, token)),
            ),
        },
    }
}

/// What the callback does before any network call: check the three settings,
/// read and remove the pending token in one move, compare it to the echoed
/// state parameter, and only then hand out the token-exchange URL. The
/// token is consumed by the read, so a mismatched callback cannot leave it
/// behind for a later replay.
pub open spec fn callback_begin_step(
    c: ConfigView,
    session: SessionView,
    code: Seq<char>,
    state_param: Seq<char>,
) -> (SessionView, Result<Seq<char>, FlowError>) {
    match c.client_id {
        None => (session, Err(FlowError::ConfigurationMissing(ConfigKey::ClientId))),
        Some(cid) => match c.client_secret {
            None => (session, Err(FlowError::ConfigurationMissing(ConfigKey::ClientSecret))),
            Some(secret) => match c.redirect_uri {
                None => (session, Err(FlowError::ConfigurationMissing(ConfigKey::RedirectUri))),
                Some(ruri) => match session {
                    SessionView::Pending { state } => if state == state_param {
                        (SessionView::Empty, Ok(token_url_spec(code, cid, secret, ruri)))
                    } else {
                        (SessionView::Empty, Err(FlowError::CsrfStateMismatch))
                    },
                    _ => (session, Err(FlowError::CsrfStateAbsent)),
                },
            },
        },
    }
}

/// What the callback does with the token-exchange outcome: persist the
/// access token and hand it on as the bearer credential, or stop with the
/// matching failure.
pub open spec fn callback_exchange_step(session: SessionView, outcome: ExchangeView) -> (
    SessionView,
    Result<Seq<char>, FlowError>,
) {
    match outcome {
        ExchangeView::Response(t) => (
            SessionView::Authed { token: t.access_token },
            Ok(t.access_token),
        ),
        ExchangeView::TransportError => (session, Err(FlowError::TokenExchangeTransportError)),
        ExchangeView::DecodeError => (session, Err(FlowError::TokenExchangeDecodeError)),
    }
}

/// What the callback does with the profile-fetch outcome: answer with the
/// display name, or stop with the matching failure.
pub open spec fn callback_profile_step(outcome: ProfileView) -> Result<Seq<char>, FlowError> {
    match outcome {
        ProfileView::Response(p) => Ok(p.name),
        ProfileView::TransportError => Err(FlowError::ProfileFetchTransportError),
        ProfileView::DecodeError => Err(FlowError::ProfileFetchDecodeError),
    }
}

/// The whole callback, given how the two provider calls would end: the three
/// steps in strict sequence, each failure terminal.
pub open spec fn callback_step(
    c: ConfigView,
    session: SessionView,
    code: Seq<char>,
    state_param: Seq<char>,
    exchange: ExchangeView,
    profile: ProfileView,
) -> (SessionView, Result<Seq<char>, FlowError>) {
    let (s1, begun) = callback_begin_step(c, session, code, state_param);
    match begun {
        Err(e) => (s1, Err(e)),
        Ok(_url) => {
            let (s2, exchanged) = callback_exchange_step(s1, exchange);
            match exchanged {
                Err(e) => (s2, Err(e)),
                Ok(_bearer) => match callback_profile_step(profile) {
                    Err(e) => (s2, Err(e)),
                    Ok(name) => (s2, Ok(name)),
                },
            }
        },
    }
}

/// The start step on a caller-supplied token. On success the returned
/// session holds exactly the token that the returned URL embeds.
pub fn start(config: &Config, token: String, session: SessionState) -> (r: (
    SessionState,
    Result<String, FlowError>,
))
    ensures
        r.0@ == start_step(config@, session@, token@).0,
        str_result_view(r.1) == start_step(config@, session@, token@).1,
{
    let cid = match &config.client_id {
        Some(c) => c,
        None => {
            return (session, Err(FlowError::ConfigurationMissing(ConfigKey::ClientId)));
        },
    };
    let ruri = match &config.redirect_uri {
        Some(r) => r,
        None => {
            return (session, Err(FlowError::ConfigurationMissing(ConfigKey::RedirectUri)));
        },
    };
    let url = authorize_url(cid.as_str(), ruri.as_str(), token.as_str());
    (SessionState::PendingAuth { state: token }, Ok(url))
}

/// Relies on `uuid::Uuid::new_v4` and its `Display` form: a fresh random
/// version-4 identifier rendered as the 36-character hyphenated string.
/// Nothing beyond the length holds of every outcome, the value being random.
#[verifier::external_body]
pub(crate) fn fresh_state_token() -> (t: String)
    ensures
        t@.len() == 36,
{
    uuid::Uuid::new_v4().to_string()
}

/// The start step on a freshly generated random token: what the sign-in
/// endpoint does. The answer is the start step's answer for some
/// 36-character token; which one is the generator's choice.
pub fn start_fresh(config: &Config, session: SessionState) -> (r: (
    SessionState,
    Result<String, FlowError>,
))
    ensures
        exists|t: Seq<char>|
            t.len() == 36 && r.0@ == #[trigger] start_step(config@, session@, t).0
                && str_result_view(r.1) == start_step(config@, session@, t).1,
{
    let token = fresh_state_token();
    let ghost t = token@;
    let ghost s0 = session@;
    let r = start(config, token, session);
    proof {
        assert(t.len() == 36 && r.0@ == start_step(config@, s0, t).0 && str_result_view(r.1)
            == start_step(config@, s0, t).1);
    }
    r
}

/// The callback up to, and excluding, the token exchange: the CSRF gate.
/// The pending token is consumed whenever the session is reached; a
/// token-exchange request comes out only for a matching state parameter.
pub fn callback_begin(config: &Config, session: SessionState, params: &CallbackParams) -> (r: (
    SessionState,
    Result<TokenRequest, FlowError>,
))
    ensures
        r.0@ == callback_begin_step(config@, session@, params.code@, params.state@).0,
        token_req_result_view(r.1) == callback_begin_step(
            config@,
            session@,
            params.code@,
            params.state@,
        ).1,
        r.1 matches Ok(req) ==> req.accept@ == "application/json"@,
{
    let cid = match &config.client_id {
        Some(c) => c,
        None => {
            return (session, Err(FlowError::ConfigurationMissing(ConfigKey::ClientId)));
        },
    };
    let secret = match &config.client_secret {
        Some(s) => s,
        None => {
            return (session, Err(FlowError::ConfigurationMissing(ConfigKey::ClientSecret)));
        },
    };
    let ruri = match &config.redirect_uri {
        Some(r) => r,
        None => {
            return (session, Err(FlowError::ConfigurationMissing(ConfigKey::RedirectUri)));
        },
    };
    match session {
        SessionState::PendingAuth { state } => {
            // the stored token is consumed by this read, before the comparison
            if state == params.state {
                let req = token_request(
                    params.code.as_str(),
                    cid.as_str(),
                    secret.as_str(),
                    ruri.as_str(),
                );
                (SessionState::Empty, Ok(req))
            } else {
                (SessionState::Empty, Err(FlowError::CsrfStateMismatch))
            }
        },
        other => (other, Err(FlowError::CsrfStateAbsent)),
    }
}

/// The callback's reaction to the token-exchange outcome: on a decoded
/// response the access token is persisted in the session and comes back as
/// the bearer credential of the profile-fetch request.
pub fn callback_exchange(session: SessionState, outcome: ExchangeOutcome) -> (r: (
    SessionState,
    Result<ProfileRequest, FlowError>,
))
    ensures
        r.0@ == callback_exchange_step(session@, outcome@).0,
        profile_req_result_view(r.1) == callback_exchange_step(session@, outcome@).1,
        r.1 matches Ok(req) ==> (req.url@ == "https://api.github.com/user"@ && req.api_version@
            == "2022-11-28"@ && req.accept@ == "application/json"@ && req.user_agent@
            == "Caveman Learn App"@),
{
    match outcome {
        ExchangeOutcome::Response(t) => {
            let token = t.access_token;
            let stored = SessionState::Authenticated { token: token.clone() };
            let req = profile_request(token);
            (stored, Ok(req))
        },
        ExchangeOutcome::TransportError => (session, Err(FlowError::TokenExchangeTransportError)),
        ExchangeOutcome::DecodeError => (session, Err(FlowError::TokenExchangeDecodeError)),
    }
}

/// The callback's reaction to the profile-fetch outcome: the display name
/// of the decoded snapshot is the success body.
pub fn callback_profile(outcome: ProfileOutcome) -> (r: Result<String, FlowError>)
    ensures
        str_result_view(r) == callback_profile_step(outcome@),
{
    match outcome {
        ProfileOutcome::Response(p) => Ok(p.name),
        ProfileOutcome::TransportError => Err(FlowError::ProfileFetchTransportError),
        ProfileOutcome::DecodeError => Err(FlowError::ProfileFetchDecodeError),
    }
}

/// The whole callback, given how the two provider calls end. A caller that
/// performs the calls lazily drives the three steps itself; this one-call
/// form is the same sequence with both outcomes supplied up front.
pub fn callback(
    config: &Config,
    session: SessionState,
    params: &CallbackParams,
    exchange: ExchangeOutcome,
    profile: ProfileOutcome,
) -> (r: (SessionState, Result<String, FlowError>))
    ensures
        r.0@ == callback_step(
            config@,
            session@,
            params.code@,
            params.state@,
            exchange@,
            profile@,
        ).0,
        str_result_view(r.1) == callback_step(
            config@,
            session@,
            params.code@,
            params.state@,
            exchange@,
            profile@,
        ).1,
{
    let (s1, begun) = callback_begin(config, session, params);
    match begun {
        Err(e) => (s1, Err(e)),
        Ok(_req) => {
            let (s2, exchanged) = callback_exchange(s1, exchange);
            match exchanged {
                Err(e) => (s2, Err(e)),
                Ok(_profile_req) => match callback_profile(profile) {
                    Err(e) => (s2, Err(e)),
                    Ok(name) => (s2, Ok(name)),
                },
            }
        },
    }
}

} // verus!
