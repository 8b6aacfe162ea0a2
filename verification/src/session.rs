//! The per-browser session payload, modelled as a typed sum rather than a
//! string-keyed bag: either nothing is stored, or a CSRF state token is
//! pending between the start and callback steps, or an access token has
//! been persisted by a completed callback. The store that holds a value of
//! this type lives with the caller; the flow functions take the payload in
//! and hand the updated payload back.

use vstd::prelude::*;

verus! {

/// What a session holds, with the strings abstracted to character sequences.
pub enum SessionView {
    Empty,
    Pending { state: Seq<char> },
    Authed { token: Seq<char> },
}

/// The session payload as the flow reads and writes it.
#[derive(Clone, Debug)]
pub enum SessionState {
    /// No sign-in flow has touched this session.
    Empty,
    /// A start step stored this CSRF state token; a callback is awaited.
    PendingAuth { state: String },
    /// A callback completed and persisted this access token.
    Authenticated { token: String },
}

impl View for SessionState {
    type V = SessionView;

    open spec fn view(&self) -> SessionView {
        match self {
            SessionState::Empty => SessionView::Empty,
            SessionState::PendingAuth { state } => SessionView::Pending { state: state@ },
            SessionState::Authenticated { token } => SessionView::Authed { token: token@ },
        }
    }
}

/// The stored CSRF state token, if one is pending.
pub open spec fn pending_of(s: SessionView) -> Option<Seq<char>> {
    match s {
        SessionView::Pending { state } => Some(state),
        _ => None,
    }
}

/// The persisted access token, if a callback has completed.
pub open spec fn token_of(s: SessionView) -> Option<Seq<char>> {
    match s {
        SessionView::Authed { token } => Some(token),
        _ => None,
    }
}

impl SessionState {
    /// The stored CSRF state token, if one is pending.
    pub fn csrf_state(&self) -> (r: Option<&String>)
        ensures
            match r {
                Some(s) => pending_of(self@) == Some(s@),
                None => pending_of(self@) is None,
            },
    {
        match self {
            SessionState::PendingAuth { state } => Some(state),
            _ => None,
        }
    }

    /// The persisted access token, if a callback has completed.
    pub fn access_token(&self) -> (r: Option<&String>)
        ensures
            match r {
                Some(t) => token_of(self@) == Some(t@),
                None => token_of(self@) is None,
            },
    {
        match self {
            SessionState::Authenticated { token } => Some(token),
            _ => None,
        }
    }
}

} // verus!
