//! The failure taxonomy of the sign-in flow. Every failure is terminal for
//! the request it arose in and maps to an HTTP 500 whose body is a short
//! fixed message; `message_spec` pins the exact text per variant.

use vstd::prelude::*;

verus! {

/// Which of the three provider-registration settings is absent.
#[derive(Clone, Copy, Debug, PartialEq, Eq, Structural)]
pub enum ConfigKey {
    ClientId,
    ClientSecret,
    RedirectUri,
}

/// Which session entry a store write was aimed at when it failed.
#[derive(Clone, Copy, Debug, PartialEq, Eq, Structural)]
pub enum SessionKey {
    CsrfState,
    AccessToken,
}

/// Everything that can go wrong while driving the sign-in flow.
/// No variant is retried: each one ends the current request.
#[derive(Clone, Copy, Debug, PartialEq, Eq, Structural)]
pub enum FlowError {
    ConfigurationMissing(ConfigKey),
    SessionReadFailure,
    SessionWriteFailure(SessionKey),
    CsrfStateAbsent,
    CsrfStateMismatch,
    TokenExchangeTransportError,
    TokenExchangeDecodeError,
    ProfileFetchTransportError,
    ProfileFetchDecodeError,
}

/// The plain-text body that accompanies the HTTP 500 for each failure.
/// A transport failure and a decode failure of the same provider call
/// share one text; the CSRF texts are distinct from both.
pub open spec fn message_spec(e: FlowError) -> Seq<char> {
    match e {
        FlowError::ConfigurationMissing(ConfigKey::ClientId) => "Error: CLIENT_ID not set!"@,
        FlowError::ConfigurationMissing(ConfigKey::ClientSecret) => "Error: CLIENT_SECRET not set!"@,
        FlowError::ConfigurationMissing(ConfigKey::RedirectUri) => "Error: REDIRECT_URI not set!"@,
        FlowError::SessionReadFailure => "Error: Could not get session state!"@,
        FlowError::SessionWriteFailure(SessionKey::CsrfState) => "Error: Could not set session state!"@,
        FlowError::SessionWriteFailure(SessionKey::AccessToken) => "Error: Could not set session access token!"@,
        FlowError::CsrfStateAbsent => "Error: Could not get session state!"@,
        FlowError::CsrfStateMismatch => "Error: State does not match!"@,
        FlowError::TokenExchangeTransportError => "Error: Could not get access token!"@,
        FlowError::TokenExchangeDecodeError => "Error: Could not get access token!"@,
        FlowError::ProfileFetchTransportError => "Error: Could not fetch user info!"@,
        FlowError::ProfileFetchDecodeError => "Error: Could not deserialize user info!"@,
    }
}

impl FlowError {
    /// The user-facing body for this failure.
    pub fn message(&self) -> (m: String)
        ensures
            m@ == message_spec(*self),
    {
        match self {
            FlowError::ConfigurationMissing(ConfigKey::ClientId) => "Error: CLIENT_ID not set!".to_owned(),
            FlowError::ConfigurationMissing(ConfigKey::ClientSecret) => "Error: CLIENT_SECRET not set!".to_owned(),
            FlowError::ConfigurationMissing(ConfigKey::RedirectUri) => "Error: REDIRECT_URI not set!".to_owned(),
            FlowError::SessionReadFailure => "Error: Could not get session state!".to_owned(),
            FlowError::SessionWriteFailure(SessionKey::CsrfState) => "Error: Could not set session state!".to_owned(),
            FlowError::SessionWriteFailure(SessionKey::AccessToken) => "Error: Could not set session access token!".to_owned(),
            FlowError::CsrfStateAbsent => "Error: Could not get session state!".to_owned(),
            FlowError::CsrfStateMismatch => "Error: State does not match!".to_owned(),
            FlowError::TokenExchangeTransportError => "Error: Could not get access token!".to_owned(),
            FlowError::TokenExchangeDecodeError => "Error: Could not get access token!".to_owned(),
            FlowError::ProfileFetchTransportError => "Error: Could not fetch user info!".to_owned(),
            FlowError::ProfileFetchDecodeError => "Error: Could not deserialize user info!".to_owned(),
        }
    }
}

} // verus!
