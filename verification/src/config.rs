//! The configuration and how it is resolved from overrides and defaults.

use vstd::prelude::*;
use crate::address::{parsed, AbsoluteUrl};
use crate::error::{ConfigError, ConfigErrorView, UrlField};
use crate::identity::{discovered, Environment, EnvironmentView};

verus! {

/// The KeyCloak instance that is used where none is configured.
pub const DEFAULT_KEYCLOAK_URL: &'static str = "https://keycloak.isambard.ac.uk/realms/isambard/";

/// The Waldur API server that is used where none is configured.
pub const DEFAULT_WALDUR_API_URL: &'static str = "https://portal-api.isambard.ac.uk/";

/// The client ID that is used where none is configured.
pub const DEFAULT_CLIENT_ID: &'static str = "clifton";

/// What the client needs to know to authenticate and to reach the API.
#[derive(Debug, PartialEq, Eq)]
pub struct Config {
    /// The URL of the KeyCloak instance
    pub keycloak_url: AbsoluteUrl,
    /// The URL of the Waldur API server
    pub waldur_api_url: AbsoluteUrl,
    /// The client ID in KeyCloak
    pub client_id: String,
    /// The location of the identity to use
    pub identity: Option<String>,
}

/// A [`Config`] with its text as sequences of characters.
pub struct ConfigView {
    pub keycloak_url: Seq<char>,
    pub waldur_api_url: Seq<char>,
    pub client_id: Seq<char>,
    pub identity: Option<Seq<char>>,
}

impl View for Config {
    type V = ConfigView;

    open spec fn view(&self) -> ConfigView {
        ConfigView {
            keycloak_url: self.keycloak_url@,
            waldur_api_url: self.waldur_api_url@,
            client_id: self.client_id@,
            identity: self.identity.deep_view(),
        }
    }
}

/// The values that a caller supplies in place of the defaults, each field on
/// its own: `None` leaves the field to its default.
#[derive(Debug, PartialEq, Eq)]
pub struct Overrides {
    /// Text to parse as the URL of the KeyCloak instance
    pub keycloak_url: Option<String>,
    /// Text to parse as the URL of the Waldur API server
    pub waldur_api_url: Option<String>,
    /// The client ID in KeyCloak
    pub client_id: Option<String>,
    /// The location of the identity to use
    pub identity: Option<String>,
}

/// [`Overrides`] with their text as sequences of characters.
pub struct OverridesView {
    pub keycloak_url: Option<Seq<char>>,
    pub waldur_api_url: Option<Seq<char>>,
    pub client_id: Option<Seq<char>>,
    pub identity: Option<Seq<char>>,
}

impl View for Overrides {
    type V = OverridesView;

    open spec fn view(&self) -> OverridesView {
        OverridesView {
            keycloak_url: self.keycloak_url.deep_view(),
            waldur_api_url: self.waldur_api_url.deep_view(),
            client_id: self.client_id.deep_view(),
            identity: self.identity.deep_view(),
        }
    }
}

/// The built-in default for the URL field `field`, as text.
pub open spec fn default_url(field: UrlField) -> Seq<char> {
    match field {
        UrlField::KeycloakUrl => DEFAULT_KEYCLOAK_URL@,
        UrlField::WaldurApiUrl => DEFAULT_WALDUR_API_URL@,
    }
}

/// The value of the URL field `field`: the normal form of the override where
/// one is supplied, else that of the default.
pub open spec fn resolved_url(field: UrlField, supplied: Option<Seq<char>>) -> Result<
    Seq<char>,
    ConfigErrorView,
> {
    match supplied {
        Some(input) => match parsed(input) {
            Some(url) => Ok(url),
            None => Err(ConfigErrorView::ParseError { field, input }),
        },
        None => match parsed(default_url(field)) {
            Some(url) => Ok(url),
            None => Err(ConfigErrorView::InvalidDefault { field }),
        },
    }
}

/// The client ID: the override as it is, else the default.
pub open spec fn resolved_client_id(supplied: Option<Seq<char>>) -> Seq<char> {
    match supplied {
        Some(id) => id,
        None => DEFAULT_CLIENT_ID@,
    }
}

/// The identity: the override as it is, whether or not such a file exists,
/// else what discovery yields in `env`.
pub open spec fn resolved_identity(supplied: Option<Seq<char>>, env: EnvironmentView) -> Result<
    Option<Seq<char>>,
    ConfigErrorView,
> {
    match supplied {
        Some(path) => Ok(Some(path)),
        None => discovered(env),
    }
}

/// The configuration that `overrides` resolve to in `env`, or the error of
/// the first field that fails, taking the KeyCloak URL, the Waldur API URL
/// and the identity in that order.
pub open spec fn resolved(overrides: OverridesView, env: EnvironmentView) -> Result<
    ConfigView,
    ConfigErrorView,
> {
    match resolved_url(UrlField::KeycloakUrl, overrides.keycloak_url) {
        Err(e) => Err(e),
        Ok(keycloak_url) => match resolved_url(UrlField::WaldurApiUrl, overrides.waldur_api_url) {
            Err(e) => Err(e),
            Ok(waldur_api_url) => match resolved_identity(overrides.identity, env) {
                Err(e) => Err(e),
                Ok(identity) => Ok(
                    ConfigView {
                        keycloak_url,
                        waldur_api_url,
                        client_id: resolved_client_id(overrides.client_id),
                        identity,
                    },
                ),
            },
        },
    }
}

/// The view of what resolving one URL field returns.
pub open spec fn url_outcome_view(r: Result<AbsoluteUrl, ConfigError>) -> Result<
    Seq<char>,
    ConfigErrorView,
> {
    match r {
        Ok(url) => Ok(url@),
        Err(e) => Err(e@),
    }
}

/// The view of what resolution returns.
pub open spec fn resolution_view(r: Result<Config, ConfigError>) -> Result<
    ConfigView,
    ConfigErrorView,
> {
    match r {
        Ok(config) => Ok(config@),
        Err(e) => Err(e@),
    }
}

/// The built-in default for `field`, for parsing.
fn default_url_text(field: UrlField) -> (text: &'static str)
    ensures
        text@ == default_url(field),
{
    match field {
        UrlField::KeycloakUrl => DEFAULT_KEYCLOAK_URL,
        UrlField::WaldurApiUrl => DEFAULT_WALDUR_API_URL,
    }
}

/// Resolves the URL field `field` from the override `supplied`.
fn resolve_url(field: UrlField, supplied: Option<String>) -> (r: Result<AbsoluteUrl, ConfigError>)
    ensures
        url_outcome_view(r) == resolved_url(field, supplied.deep_view()),
{
    match supplied {
        Some(input) => match AbsoluteUrl::parse(input.as_str()) {
            Some(url) => Ok(url),
            None => Err(ConfigError::ParseError { field, input }),
        },
        None => match AbsoluteUrl::parse(default_url_text(field)) {
            Some(url) => Ok(url),
            None => Err(ConfigError::InvalidDefault { field }),
        },
    }
}

/// Resolves the client ID from the override `supplied`.
fn resolve_client_id(supplied: Option<String>) -> (id: String)
    ensures
        id@ == resolved_client_id(supplied.deep_view()),
{
    match supplied {
        Some(id) => id,
        None => Config::default_client_id(),
    }
}

impl Overrides {
    /// No override at all: every field is left to its default.
    pub fn none() -> (overrides: Overrides)
        ensures
            overrides@ == (OverridesView {
                keycloak_url: None,
                waldur_api_url: None,
                client_id: None,
                identity: None,
            }),
    {
        Overrides { keycloak_url: None, waldur_api_url: None, client_id: None, identity: None }
    }

    /// Whether resolving these overrides consults the environment. It does
    /// where no identity is supplied; where one is, nothing needs to be read
    /// of the machine and any environment will do.
    pub fn needs_environment(&self) -> (needed: bool)
        ensures
            needed == (self@.identity is None),
    {
        self.identity.is_none()
    }
}

impl Config {
    /// The default KeyCloak URL, parsed. An error means that the built-in
    /// text is not a URL, which a caller should treat as fatal.
    pub fn default_keycloak_url() -> (r: Result<AbsoluteUrl, ConfigError>)
        ensures
            url_outcome_view(r) == resolved_url(UrlField::KeycloakUrl, None),
    {
        resolve_url(UrlField::KeycloakUrl, None)
    }

    /// The default Waldur API URL, parsed. An error means that the built-in
    /// text is not a URL, which a caller should treat as fatal.
    pub fn default_waldur_api_url() -> (r: Result<AbsoluteUrl, ConfigError>)
        ensures
            url_outcome_view(r) == resolved_url(UrlField::WaldurApiUrl, None),
    {
        resolve_url(UrlField::WaldurApiUrl, None)
    }

    /// The default client ID.
    pub fn default_client_id() -> (id: String)
        ensures
            id@ == DEFAULT_CLIENT_ID@,
    {
        DEFAULT_CLIENT_ID.to_owned()
    }

    /// Resolves `overrides` in the environment `env`: each field is the
    /// override where one is supplied and the default otherwise.
    ///
    /// The fields are taken in the order KeyCloak URL, Waldur API URL,
    /// identity, and the first that fails gives the error. `env` is consulted
    /// only where no identity is supplied. Where it is consulted and holds no
    /// home directory, resolution fails as a whole rather than leaving the
    /// identity empty.
    pub fn resolve(overrides: Overrides, env: &Environment) -> (r: Result<Config, ConfigError>)
        ensures
            resolution_view(r) == resolved(overrides@, env@),
    {
        let keycloak_url = match resolve_url(UrlField::KeycloakUrl, overrides.keycloak_url) {
            Ok(url) => url,
            Err(e) => {
                return Err(e);
            },
        };
        let waldur_api_url = match resolve_url(UrlField::WaldurApiUrl, overrides.waldur_api_url) {
            Ok(url) => url,
            Err(e) => {
                return Err(e);
            },
        };
        let identity = match overrides.identity {
            Some(path) => Some(path),
            None => match Config::default_identity(env) {
                Ok(found) => found,
                Err(e) => {
                    return Err(e);
                },
            },
        };
        let client_id = resolve_client_id(overrides.client_id);
        Ok(Config { keycloak_url, waldur_api_url, client_id, identity })
    }
}

} // verus!
