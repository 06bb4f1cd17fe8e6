//! Configuration for a command-line client that authenticates against a
//! KeyCloak identity provider and talks to a Waldur resource API.
//!
//! A [`Config`] holds two base URLs, an OAuth client identifier and an
//! optional SSH identity file. Each field comes from an override where one is
//! given and from a built-in default otherwise; the default for the identity
//! is found by probing `~/.ssh` for key files in a fixed order of preference.

pub mod address;
pub mod config;
pub mod error;
pub mod identity;
pub mod laws;

pub use address::AbsoluteUrl;
pub use config::{Config, Overrides};
pub use error::{ConfigError, UrlField};
pub use identity::Environment;
