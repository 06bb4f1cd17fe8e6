//! The ways in which resolving a configuration can fail.

use vstd::prelude::*;

verus! {

/// The two fields of a configuration that hold a URL.
#[derive(Clone, Copy, Debug, PartialEq, Eq)]
pub enum UrlField {
    /// The base URL of the KeyCloak identity provider.
    KeycloakUrl,
    /// The base URL of the Waldur resource API.
    WaldurApiUrl,
}

/// Why no configuration was produced.
#[derive(Debug, PartialEq, Eq)]
pub enum ConfigError {
    /// The override given for `field` is not an absolute URL; `input` is the
    /// override as it was given.
    ParseError { field: UrlField, input: String },
    /// The built-in default for `field` is not an absolute URL. This can only
    /// come from a defect in this library, never from what a caller supplied,
    /// and a caller should treat it as fatal.
    InvalidDefault { field: UrlField },
    /// No identity was given and the home directory, under which one would
    /// be looked for, cannot be determined.
    HomeDirectoryUnavailable,
}

/// A [`ConfigError`] with its text as a sequence of characters.
pub enum ConfigErrorView {
    ParseError { field: UrlField, input: Seq<char> },
    InvalidDefault { field: UrlField },
    HomeDirectoryUnavailable,
}

impl View for ConfigError {
    type V = ConfigErrorView;

    open spec fn view(&self) -> ConfigErrorView {
        match self {
            ConfigError::ParseError { field, input } => ConfigErrorView::ParseError {
                field: *field,
                input: input@,
            },
            ConfigError::InvalidDefault { field } => ConfigErrorView::InvalidDefault {
                field: *field,
            },
            ConfigError::HomeDirectoryUnavailable => ConfigErrorView::HomeDirectoryUnavailable,
        }
    }
}

} // verus!
