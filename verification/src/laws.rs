//! What the flow guarantees, stated and proved over the step functions:
//! the token is stored before any redirect exists, a callback whose state
//! parameter is not the pending token never reaches the token exchange,
//! the pending token is single-use, a missing setting stops either
//! endpoint before the session or the network is touched, and of two
//! successive starts only the second token opens the callback.

use vstd::prelude::*;
use crate::config::{callback_config_gap, callback_config_ok, start_config_gap, start_config_ok,
    ConfigView};
use crate::error::FlowError;
use crate::flow::{callback_begin_step, callback_step, start_step};
use crate::provider::{authorize_url_spec, ExchangeView, ProfileView};
use crate::session::{pending_of, SessionView};

verus! {

/// Whenever the start step yields a redirect URL, the session it hands
/// back already holds the very token that the URL embeds; a redirect never
/// exists without its token stored.
pub proof fn lemma_start_stores_token(c: ConfigView, session: SessionView, token: Seq<char>)
    ensures
        start_step(c, session, token).1 is Ok ==> start_step(c, session, token).0
            == (SessionView::Pending { state: token }),
        start_step(c, session, token).1 is Ok ==> start_step(c, session, token).1
            == Ok::<Seq<char>, FlowError>(
            authorize_url_spec(c.client_id.unwrap(), c.redirect_uri.unwrap(), token),
        ),
{
}

/// A callback whose state parameter is not the pending token — because no
/// token is pending, or because a different one is — stops at the CSRF
/// gate: no token-exchange request comes out of it.
pub proof fn lemma_callback_rejects_foreign_state(
    c: ConfigView,
    session: SessionView,
    code: Seq<char>,
    state_param: Seq<char>,
)
    requires
        pending_of(session) != Some(state_param),
    ensures
        callback_begin_step(c, session, code, state_param).1 is Err,
{
}

/// The pending token is single-use: once a callback with complete settings
/// has run, no token is pending any more, whether the callback succeeded,
/// stopped at the CSRF gate, or failed on a provider call. (With a setting
/// absent, the callback stops before it reaches the session.)
pub proof fn lemma_callback_consumes_state(
    c: ConfigView,
    session: SessionView,
    code: Seq<char>,
    state_param: Seq<char>,
    exchange: ExchangeView,
    profile: ProfileView,
)
    requires
        callback_config_ok(c),
    ensures
        pending_of(callback_begin_step(c, session, code, state_param).0) is None,
        pending_of(callback_step(c, session, code, state_param, exchange, profile).0) is None,
{
}

/// With a setting absent, the start step fails at once: the session is
/// untouched, no URL exists, and the error names the first absent setting.
pub proof fn lemma_start_config_gate(c: ConfigView, session: SessionView, token: Seq<char>)
    requires
        !start_config_ok(c),
    ensures
        start_step(c, session, token) == (
            session,
            Err::<Seq<char>, FlowError>(
                FlowError::ConfigurationMissing(start_config_gap(c).unwrap()),
            ),
        ),
{
}

/// With a setting absent, the callback fails at once: the session is
/// untouched, no token-exchange request exists — so no provider call can
/// follow — and the error names the first absent setting.
pub proof fn lemma_callback_config_gate(
    c: ConfigView,
    session: SessionView,
    code: Seq<char>,
    state_param: Seq<char>,
)
    requires
        !callback_config_ok(c),
    ensures
        callback_begin_step(c, session, code, state_param) == (
            session,
            Err::<Seq<char>, FlowError>(
                FlowError::ConfigurationMissing(callback_config_gap(c).unwrap()),
            ),
        ),
{
}

/// Of two successive start steps the second token wins: the session holds
/// it, a callback echoing the first (different) token is rejected, and one
/// echoing the second passes the CSRF gate.
pub proof fn lemma_second_start_wins(
    c: ConfigView,
    session: SessionView,
    first: Seq<char>,
    second: Seq<char>,
    code: Seq<char>,
)
    requires
        start_config_ok(c),
        callback_config_ok(c),
        first != second,
    ensures
        ({
            let after_two = start_step(c, start_step(c, session, first).0, second).0;
            &&& after_two == (SessionView::Pending { state: second })
            &&& callback_begin_step(c, after_two, code, first).1 == Err::<Seq<char>, FlowError>(
                FlowError::CsrfStateMismatch,
            )
            &&& callback_begin_step(c, after_two, code, second).1 is Ok
        }),
{
}

} // verus!
