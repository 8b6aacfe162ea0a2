//! The provider-registration settings the flow needs. The caller reads them
//! from its environment once and passes them in; a `None` field means the
//! setting is absent, which the flow turns into a fatal configuration error
//! before it touches the session or the network.

use vstd::prelude::*;
use crate::error::ConfigKey;

verus! {

/// The settings with the strings abstracted to character sequences.
pub struct ConfigView {
    pub client_id: Option<Seq<char>>,
    pub client_secret: Option<Seq<char>>,
    pub redirect_uri: Option<Seq<char>>,
}

/// The settings registered with the identity provider, each possibly absent.
#[derive(Clone, Debug)]
pub struct Config {
    pub client_id: Option<String>,
    pub client_secret: Option<String>,
    pub redirect_uri: Option<String>,
}

impl View for Config {
    type V = ConfigView;

    open spec fn view(&self) -> ConfigView {
        ConfigView {
            client_id: match self.client_id {
                Some(s) => Some(s@),
                None => None,
            },
            client_secret: match self.client_secret {
                Some(s) => Some(s@),
                None => None,
            },
            redirect_uri: match self.redirect_uri {
                Some(s) => Some(s@),
                None => None,
            },
        }
    }
}

/// The start step needs the client identifier and the redirect target.
pub open spec fn start_config_ok(c: ConfigView) -> bool {
    c.client_id is Some && c.redirect_uri is Some
}

/// The callback step needs all three settings.
pub open spec fn callback_config_ok(c: ConfigView) -> bool {
    c.client_id is Some && c.client_secret is Some && c.redirect_uri is Some
}

/// The first absent setting among those the start step needs, in the order
/// the flow checks them.
pub open spec fn start_config_gap(c: ConfigView) -> Option<ConfigKey> {
    if c.client_id is None {
        Some(ConfigKey::ClientId)
    } else if c.redirect_uri is None {
        Some(ConfigKey::RedirectUri)
    } else {
        None
    }
}

/// The first absent setting among those the callback step needs, in the
/// order the flow checks them.
pub open spec fn callback_config_gap(c: ConfigView) -> Option<ConfigKey> {
    if c.client_id is None {
        Some(ConfigKey::ClientId)
    } else if c.client_secret is None {
        Some(ConfigKey::ClientSecret)
    } else if c.redirect_uri is None {
        Some(ConfigKey::RedirectUri)
    } else {
        None
    }
}

} // verus!
