//! Finding the SSH identity to use when none is configured.
//!
//! The private keys `id_ed25519`, `id_ecdsa` and `id_rsa` are looked for, in
//! that order of preference, in the `.ssh` directory under the user's home
//! directory. The first one that exists is the identity.
//!
//! Nothing here touches the disk. An [`Environment`] holds what has been
//! learnt of it so far and names the next path to test; whoever owns the
//! process makes the test and records its outcome:
//!
//! ```text
//! let mut env = Environment::new(home);
//! while let Some(path) = env.next_probe() {
//!     env.record(/* does `path` exist? */);
//! }
//! let identity = Config::default_identity(&env);
//! ```

use vstd::prelude::*;
use crate::config::Config;
use crate::error::{ConfigError, ConfigErrorView};

verus! {

/// How many key files are looked for.
pub const CANDIDATES: usize = 3;

/// The file names of the keys that are looked for, most preferred first.
pub open spec fn key_file_names() -> Seq<Seq<char>> {
    seq!["id_ed25519"@, "id_ecdsa"@, "id_rsa"@]
}

/// What `std::path::Path::join` makes of the path `base` and the path
/// `part`, each taken as text.
pub uninterp spec fn path_join(base: Seq<char>, part: Seq<char>) -> Seq<char>;

/// The path of the key file at `index` in the order of preference, for the
/// home directory `home`.
pub open spec fn candidate(home: Seq<char>, index: int) -> Seq<char> {
    path_join(path_join(home, ".ssh"@), key_file_names()[index])
}

/// Whether the candidate at `index` was found to exist. A test that failed,
/// or that was never made, counts as the candidate being absent.
pub open spec fn reported_present(probes: Seq<Option<bool>>, index: int) -> bool {
    0 <= index < probes.len() && probes[index] == Some(true)
}

/// The place in the order of preference of the most preferred candidate that
/// was found to exist.
pub open spec fn first_present(probes: Seq<Option<bool>>) -> Option<int> {
    if reported_present(probes, 0) {
        Some(0)
    } else if reported_present(probes, 1) {
        Some(1)
    } else if reported_present(probes, 2) {
        Some(2)
    } else {
        None
    }
}

/// What identity discovery knows of the world outside the process.
#[derive(Debug, PartialEq, Eq)]
pub struct Environment {
    /// The user's home directory, or `None` where it cannot be determined.
    pub home: Option<String>,
    /// For each candidate, in order of preference, the outcome of testing
    /// whether it exists: `Some(true)` or `Some(false)` where the test gave
    /// an answer, `None` where the test itself failed. Candidates beyond the
    /// end of the list were not tested.
    pub probes: Vec<Option<bool>>,
}

/// An [`Environment`] with its text as sequences of characters.
pub struct EnvironmentView {
    pub home: Option<Seq<char>>,
    pub probes: Seq<Option<bool>>,
}

impl View for Environment {
    type V = EnvironmentView;

    open spec fn view(&self) -> EnvironmentView {
        EnvironmentView { home: self.home.deep_view(), probes: self.probes@ }
    }
}

/// The path to test next in `env`: the candidate after those already
/// tested, as long as there is a home directory to look under, a candidate
/// left, and none found yet.
pub open spec fn pending(env: EnvironmentView) -> Option<Seq<char>> {
    match env.home {
        None => None,
        Some(home) => if env.probes.len() < CANDIDATES && first_present(env.probes) is None {
            Some(candidate(home, env.probes.len() as int))
        } else {
            None
        },
    }
}

/// The identity that discovery yields in `env`: an error where there is no
/// home directory, else the most preferred candidate that was found to
/// exist, if any.
pub open spec fn discovered(env: EnvironmentView) -> Result<Option<Seq<char>>, ConfigErrorView> {
    match env.home {
        None => Err(ConfigErrorView::HomeDirectoryUnavailable),
        Some(home) => match first_present(env.probes) {
            Some(index) => Ok(Some(candidate(home, index))),
            None => Ok(None),
        },
    }
}

/// The view of what discovery returns.
pub open spec fn discovery_view(r: Result<Option<String>, ConfigError>) -> Result<
    Option<Seq<char>>,
    ConfigErrorView,
> {
    match r {
        Ok(identity) => Ok(identity.deep_view()),
        Err(e) => Err(e@),
    }
}

/// Calls `std::path::Path::join` on `base` with `part`, and turns the result
/// back into text. The join of two Unicode texts is Unicode, so the
/// conversion replaces nothing.
///
/// Trusted: the result is the one named by [`path_join`].
#[verifier::external_body]
fn join_path(base: &str, part: &str) -> (r: String)
    ensures
        r@ == path_join(base@, part@),
{
    std::path::Path::new(base).join(part).to_string_lossy().into_owned()
}

/// The file name of the key at `index` in the order of preference.
fn key_file_name(index: usize) -> (name: &'static str)
    requires
        index < CANDIDATES,
    ensures
        name@ == key_file_names()[index as int],
{
    if index == 0 {
        "id_ed25519"
    } else if index == 1 {
        "id_ecdsa"
    } else {
        "id_rsa"
    }
}

/// The path of the key file at `index` under `home`.
fn candidate_path(home: &str, index: usize) -> (path: String)
    requires
        index < CANDIDATES,
    ensures
        path@ == candidate(home@, index as int),
{
    let directory = join_path(home, ".ssh");
    join_path(directory.as_str(), key_file_name(index))
}

/// Whether the outcome of an existence test says that the file is there.
fn is_present(outcome: Option<bool>) -> (present: bool)
    ensures
        present == (outcome == Some(true)),
{
    match outcome {
        Some(exists) => exists,
        None => false,
    }
}

/// Where in the order of preference the most preferred candidate stands that
/// `probes` report present.
fn find_present(probes: &Vec<Option<bool>>) -> (found: Option<usize>)
    ensures
        found matches Some(index) ==> first_present(probes@) == Some(index as int),
        found is None ==> first_present(probes@) is None,
{
    let mut index: usize = 0;
    while index < CANDIDATES
        invariant
            index <= CANDIDATES,
            forall|i: int| 0 <= i < index ==> !reported_present(probes@, i),
        decreases CANDIDATES - index,
    {
        if index < probes.len() && is_present(probes[index]) {
            return Some(index);
        }
        index += 1;
    }
    None
}

/// The paths under `home` at which a key is looked for, most preferred
/// first.
pub fn identity_candidates(home: &str) -> (paths: Vec<String>)
    ensures
        paths.len() == CANDIDATES,
        forall|i: int| 0 <= i < CANDIDATES ==> (#[trigger] paths[i])@ == candidate(home@, i),
{
    let mut paths: Vec<String> = Vec::new();
    let mut index: usize = 0;
    while index < CANDIDATES
        invariant
            index <= CANDIDATES,
            paths.len() == index,
            forall|i: int| 0 <= i < index ==> (#[trigger] paths[i])@ == candidate(home@, i),
        decreases CANDIDATES - index,
    {
        paths.push(candidate_path(home, index));
        index += 1;
    }
    paths
}

impl Environment {
    /// The environment of which the home directory is known, or known to be
    /// missing, and no candidate has been tested yet.
    pub fn new(home: Option<String>) -> (env: Environment)
        ensures
            env@.home == home.deep_view(),
            env@.probes == Seq::<Option<bool>>::empty(),
    {
        Environment { home, probes: Vec::new() }
    }

    /// The path whose existence is to be tested next, or `None` once the
    /// identity is settled: the candidates are tested in order of preference
    /// and no further than the first that exists.
    pub fn next_probe(&self) -> (path: Option<String>)
        ensures
            path.deep_view() == pending(self@),
    {
        match &self.home {
            None => None,
            Some(home) => {
                let tested = self.probes.len();
                if tested < CANDIDATES && find_present(&self.probes).is_none() {
                    Some(candidate_path(home.as_str(), tested))
                } else {
                    None
                }
            },
        }
    }

    /// Records the outcome of testing the path that [`Environment::next_probe`]
    /// named: whether it exists, or `None` where that could not be found
    /// out.
    pub fn record(&mut self, outcome: Option<bool>)
        ensures
            final(self)@.home == old(self)@.home,
            final(self)@.probes == old(self)@.probes.push(outcome),
    {
        self.probes.push(outcome);
    }
}

impl Config {
    /// The default identity: the most preferred candidate that was found to
    /// exist in `env`. Finding none is no error and gives `None`; having no
    /// home directory to look under is an error.
    pub fn default_identity(env: &Environment) -> (r: Result<Option<String>, ConfigError>)
        ensures
            discovery_view(r) == discovered(env@),
    {
        match &env.home {
            None => Err(ConfigError::HomeDirectoryUnavailable),
            Some(home) => match find_present(&env.probes) {
                Some(index) => Ok(Some(candidate_path(home.as_str(), index))),
                None => Ok(None),
            },
        }
    }
}

} // verus!
