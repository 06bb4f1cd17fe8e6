//! What holds of resolution on every input, stated over the functions that
//! the contracts use.

use vstd::prelude::*;
use crate::address::{is_normal_form, parsed};
use crate::config::{resolved, resolved_url, ConfigView, OverridesView};
use crate::error::{ConfigErrorView, UrlField};
use crate::identity::{
    candidate, discovered, first_present, pending, reported_present, EnvironmentView, CANDIDATES,
};

verus! {

/// The override that `overrides` hold for the URL field `field`.
pub open spec fn supplied_url(overrides: OverridesView, field: UrlField) -> Option<Seq<char>> {
    match field {
        UrlField::KeycloakUrl => overrides.keycloak_url,
        UrlField::WaldurApiUrl => overrides.waldur_api_url,
    }
}

/// The URL that `config` holds in the field `field`.
pub open spec fn url_of(config: ConfigView, field: UrlField) -> Seq<char> {
    match field {
        UrlField::KeycloakUrl => config.keycloak_url,
        UrlField::WaldurApiUrl => config.waldur_api_url,
    }
}

/// Whether the error `e` reports the URL field `field`.
pub open spec fn reports_field(e: ConfigErrorView, field: UrlField) -> bool {
    match e {
        ConfigErrorView::ParseError { field: reported, .. } => reported == field,
        ConfigErrorView::InvalidDefault { field: reported } => reported == field,
        ConfigErrorView::HomeDirectoryUnavailable => false,
    }
}

/// Whether every character of `text` is a space, a tab or a line break. The
/// empty text is blank.
pub open spec fn is_blank(text: Seq<char>) -> bool {
    forall|i: int|
        0 <= i < text.len() ==> (#[trigger] text[i]) == ' ' || text[i] == '\t' || text[i] == '\n'
            || text[i] == '\r'
}

/// Resolution succeeds exactly where both URL fields resolve and, if no
/// identity is supplied, the home directory is known.
pub proof fn lemma_success_is_owed(overrides: OverridesView, env: EnvironmentView)
    ensures
        resolved(overrides, env) is Ok <==> {
            &&& resolved_url(UrlField::KeycloakUrl, overrides.keycloak_url) is Ok
            &&& resolved_url(UrlField::WaldurApiUrl, overrides.waldur_api_url) is Ok
            &&& (overrides.identity is Some || env.home is Some)
        },
{
}

/// Overriding a URL field with an absolute URL never fails on account of
/// that field, and where resolution succeeds the field holds the normal form
/// of that URL.
pub proof fn lemma_url_override_is_stored(
    overrides: OverridesView,
    env: EnvironmentView,
    field: UrlField,
    url: Seq<char>,
)
    requires
        supplied_url(overrides, field) == Some(url),
        parsed(url) is Some,
    ensures
        resolved(overrides, env) matches Ok(config) ==> Some(url_of(config, field)) == parsed(url),
        resolved(overrides, env) matches Err(e) ==> !reports_field(e, field),
{
}

/// Overriding a URL field with a text that is no absolute URL makes
/// resolution fail. The error names that field and carries the text, unless
/// the KeyCloak URL, which is looked at first, has already failed.
pub proof fn lemma_malformed_override_is_rejected(
    overrides: OverridesView,
    env: EnvironmentView,
    field: UrlField,
    text: Seq<char>,
)
    requires
        supplied_url(overrides, field) == Some(text),
        parsed(text) is None,
    ensures
        resolved(overrides, env) is Err,
        field == UrlField::KeycloakUrl || resolved_url(
            UrlField::KeycloakUrl,
            overrides.keycloak_url,
        ) is Ok ==> resolved(overrides, env) == Err::<ConfigView, ConfigErrorView>(
            ConfigErrorView::ParseError { field, input: text },
        ),
{
}

/// A text without a colon has no scheme and is no absolute URL.
pub proof fn lemma_text_without_scheme_is_malformed(text: Seq<char>)
    requires
        !text.contains(':'),
    ensures
        parsed(text) is None,
{
}

/// A blank text, the empty one among them, is no absolute URL.
pub proof fn lemma_blank_text_is_malformed(text: Seq<char>)
    requires
        is_blank(text),
    ensures
        parsed(text) is None,
{
    if text.contains(':') {
        let i = choose|i: int| 0 <= i < text.len() && text[i] == ':';
        assert(text[i] == ':');
    }
}

/// The URLs of a resolved configuration are normal forms of absolute URLs:
/// no text that the parser did not produce is ever stored.
pub proof fn lemma_stored_urls_are_valid(overrides: OverridesView, env: EnvironmentView)
    ensures
        resolved(overrides, env) matches Ok(config) ==> is_normal_form(config.keycloak_url)
            && is_normal_form(config.waldur_api_url),
{
}

/// The most preferred of the candidates under `home` that are among the
/// paths `on_disk`.
pub open spec fn first_on_disk(home: Seq<char>, on_disk: Set<Seq<char>>) -> Option<Seq<char>> {
    if on_disk.contains(candidate(home, 0)) {
        Some(candidate(home, 0))
    } else if on_disk.contains(candidate(home, 1)) {
        Some(candidate(home, 1))
    } else if on_disk.contains(candidate(home, 2)) {
        Some(candidate(home, 2))
    } else {
        None
    }
}

/// Whether `probes` are what testing the candidates under `home` gives when
/// the paths that exist are those of `on_disk`: every candidate that was
/// tested is reported present exactly where it is among them.
pub open spec fn probes_of(home: Seq<char>, probes: Seq<Option<bool>>, on_disk: Set<Seq<char>>) -> bool {
    forall|i: int|
        0 <= i < probes.len() && i < CANDIDATES ==> (#[trigger] reported_present(probes, i)
            <==> on_disk.contains(candidate(home, i)))
}

/// The candidate that is found present and that no present candidate is
/// preferred to is the one discovered.
pub proof fn lemma_most_preferred_is_discovered(
    home: Seq<char>,
    probes: Seq<Option<bool>>,
    index: int,
)
    requires
        0 <= index < CANDIDATES,
        reported_present(probes, index),
        forall|i: int| 0 <= i < index ==> !reported_present(probes, i),
    ensures
        discovered(EnvironmentView { home: Some(home), probes }) == Ok::<
            Option<Seq<char>>,
            ConfigErrorView,
        >(Some(candidate(home, index))),
{
}

/// Where no candidate is found present, discovery yields no identity, which
/// is no error.
pub proof fn lemma_nothing_present_is_no_identity(home: Seq<char>, probes: Seq<Option<bool>>)
    requires
        forall|i: int| 0 <= i < CANDIDATES ==> !reported_present(probes, i),
    ensures
        discovered(EnvironmentView { home: Some(home), probes }) == Ok::<
            Option<Seq<char>>,
            ConfigErrorView,
        >(None),
{
}

/// At most as many tests are asked for as there are candidates.
pub proof fn lemma_probing_ends(env: EnvironmentView)
    requires
        env.probes.len() >= CANDIDATES,
    ensures
        pending(env) is None,
{
}

/// Once no test is asked for, the identity is settled: whatever further
/// tests would have told, discovery yields the same.
pub proof fn lemma_settled_when_nothing_is_pending(env: EnvironmentView, further: Seq<Option<bool>>)
    requires
        pending(env) is None,
    ensures
        discovered(EnvironmentView { home: env.home, probes: env.probes + further }) == discovered(
            env,
        ),
{
    let longer = env.probes + further;
    assert forall|i: int| 0 <= i < env.probes.len() implies longer[i] == env.probes[i] by {}
    if env.home is Some && env.probes.len() < CANDIDATES {
        let found = first_present(env.probes)->0;
        assert(reported_present(env.probes, found));
        assert(reported_present(longer, found));
    }
}

/// Testing the candidates as asked, until no test is asked for, discovers
/// the most preferred candidate that exists on disk, whichever files happen
/// to exist; and none where none of them exists.
pub proof fn lemma_discovery_finds_first_on_disk(
    home: Seq<char>,
    probes: Seq<Option<bool>>,
    on_disk: Set<Seq<char>>,
)
    requires
        probes_of(home, probes, on_disk),
        pending(EnvironmentView { home: Some(home), probes }) is None,
    ensures
        discovered(EnvironmentView { home: Some(home), probes }) == Ok::<
            Option<Seq<char>>,
            ConfigErrorView,
        >(first_on_disk(home, on_disk)),
{
    if probes.len() >= CANDIDATES {
        assert(reported_present(probes, 0) <==> on_disk.contains(candidate(home, 0)));
        assert(reported_present(probes, 1) <==> on_disk.contains(candidate(home, 1)));
        assert(reported_present(probes, 2) <==> on_disk.contains(candidate(home, 2)));
    } else {
        let found = first_present(probes)->0;
        assert(reported_present(probes, found));
        assert forall|i: int| 0 <= i <= found implies (reported_present(probes, i)
            <==> on_disk.contains(candidate(home, i))) by {}
    }
}

/// Resolution is a function of its input: the same overrides, the same home
/// directory and the same candidates found present give the same outcome,
/// field for field.
pub proof fn lemma_resolution_is_deterministic(
    first: OverridesView,
    first_env: EnvironmentView,
    second: OverridesView,
    second_env: EnvironmentView,
)
    requires
        first.keycloak_url == second.keycloak_url,
        first.waldur_api_url == second.waldur_api_url,
        first.client_id == second.client_id,
        first.identity == second.identity,
        first_env.home == second_env.home,
        forall|i: int|
            0 <= i < CANDIDATES ==> reported_present(first_env.probes, i) == reported_present(
                second_env.probes,
                i,
            ),
    ensures
        resolved(first, first_env) == resolved(second, second_env),
{
}

/// An identity that is supplied is the identity of the configuration as it
/// stands, whatever the environment holds: whether such a file exists, or a
/// home directory is known, plays no part.
pub proof fn lemma_identity_override_is_verbatim(
    overrides: OverridesView,
    env: EnvironmentView,
    other: EnvironmentView,
    path: Seq<char>,
)
    requires
        overrides.identity == Some(path),
    ensures
        resolved(overrides, env) matches Ok(config) ==> config.identity == Some(path),
        resolved(overrides, env) == resolved(overrides, other),
{
}

} // verus!
