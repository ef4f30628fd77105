//! The configuration the agent runs from, its defaults, and the checks made
//! on it before the polling loop starts.

use vstd::prelude::*;
use vstd::string::{StrSliceExecFns, StringExecFns};
use crate::repository::{reference, url_fmt, RepositoryError, RepositoryInfo};
use crate::text::{ends_with, same_text, text_ends_with};
use crate::workspace::check_existence;

verus! {

/// The latest commit of the watched branch, as the hosting API reports it.
pub struct Commit {
    pub sha: String,
}

/// A service built from the repository and deployed on its own.
pub struct Service {
    pub name: String,
    /// Where the service's sources lie within the fetched workspace.
    pub root_dir: String,
    /// The directory the built service is deployed under.
    pub build_dir: String,
}

/// The agent's configuration.
pub struct ConfigFile {
    /// `host/author/name` of the watched repository.
    pub repository: String,
    pub branch: String,
    /// The bearer token for the hosting API.
    pub token: String,
    /// The directory workspaces are fetched into.
    pub pull_dir: String,
    pub services: Vec<Service>,
}

/// The token written into a fresh configuration, which counts as unset.
pub open spec fn token_placeholder() -> Seq<char> {
    "YOUR-GITHUB-TOKEN-HERE"@
}

/// The repository written into a fresh configuration, which counts as unset.
pub open spec fn repository_placeholder() -> Seq<char> {
    "github.com/your-repository/link"@
}

impl Service {
    pub open spec fn is_default(&self) -> bool {
        &&& self.name@ == "service-name"@
        &&& self.root_dir@ == "/var/www/your_repository/backend/my_service"@
        &&& self.build_dir@ == "/var/www/my_service"@
    }
}

impl Default for Service {
    fn default() -> (r: Self)
        ensures
            r.is_default(),
    {
        Service {
            name: String::from_str("service-name"),
            root_dir: String::from_str("/var/www/your_repository/backend/my_service"),
            build_dir: String::from_str("/var/www/my_service"),
        }
    }
}

impl Default for ConfigFile {
    fn default() -> (r: Self)
        ensures
            r.branch@ == "main"@,
            r.repository@ == repository_placeholder(),
            r.token@ == token_placeholder(),
            r.pull_dir@ == "/var/www"@,
            r.services@.len() == 1,
            r.services@[0].is_default(),
    {
        let mut services: Vec<Service> = Vec::new();
        services.push(Service::default());
        ConfigFile {
            branch: String::from_str("main"),
            repository: String::from_str("github.com/your-repository/link"),
            token: String::from_str("YOUR-GITHUB-TOKEN-HERE"),
            pull_dir: String::from_str("/var/www"),
            services,
        }
    }
}

/// The file name of the configuration.
pub open spec fn config_file_name() -> Seq<char> {
    "deployer-config.jsonc"@
}

/// The configuration file a user-given path stands for: the path itself when
/// it already names the file, else the file inside the directory it names.
pub open spec fn config_path(p: Seq<char>) -> Seq<char> {
    if ends_with(p, config_file_name()) {
        p
    } else if ends_with(p, "/"@) {
        p + config_file_name()
    } else {
        p + "/"@ + config_file_name()
    }
}

/// Makes `path` name the configuration file: `deployer-config.jsonc` is
/// appended, after a `/` where one is missing, unless the path already ends
/// with it.
pub fn validate_path(path: &mut String)
    ensures
        final(path)@ == config_path(old(path)@),
{
    if !text_ends_with(path.as_str(), "deployer-config.jsonc") {
        if !text_ends_with(path.as_str(), "/") {
            path.append("/");
        }
        path.append("deployer-config.jsonc");
    }
}

/// Why the agent refuses to start.
#[derive(Debug, Clone, Copy, PartialEq, Eq, Structural)]
pub enum ConfigError {
    /// The token is empty or the placeholder.
    MissingToken,
    /// The repository is empty or the placeholder.
    MissingRepository,
    /// The repository identifier or the branch is rejected.
    Repository(RepositoryError),
    /// The pull directory does not exist.
    MissingDirectory,
    /// No service is configured.
    NoServices,
    /// The deployment directory (`build_dir`) of the service at this index
    /// does not exist.
    MissingDestination(usize),
}

/// The first service, from `i` on among the first `n`, whose deployment
/// directory is not known to exist in `found`.
pub open spec fn first_missing(found: Seq<bool>, n: nat, i: nat) -> Option<nat>
    decreases n - i,
{
    if i >= n {
        None
    } else if !(i < found.len() && found[i as int]) {
        Some(i)
    } else {
        first_missing(found, n, i + 1)
    }
}

/// The first of the first `n` services whose deployment directory is not
/// known to exist in `found`.
fn find_missing(found: &Vec<bool>, n: usize) -> (r: Option<usize>)
    ensures
        match r {
            Some(i) => first_missing(found@, n as nat, 0) == Some(i as nat),
            None => first_missing(found@, n as nat, 0) is None,
        },
{
    let mut i: usize = 0;
    while i < n
        invariant
            i <= n,
            first_missing(found@, n as nat, 0) == first_missing(found@, n as nat, i as nat),
        decreases n - i,
    {
        if !(i < found.len() && found[i]) {
            assert(first_missing(found@, n as nat, i as nat) == Some(i as nat));
            return Some(i);
        }
        assert(first_missing(found@, n as nat, i as nat) == first_missing(found@, n as nat, (i + 1) as nat));
        i = i + 1;
    }
    assert(first_missing(found@, n as nat, n as nat) is None);
    None
}

/// The outcome of the start-up checks, in the order they are made: token,
/// repository, repository reference, pull directory, services, and the
/// deployment directory of each service (`dest_found[i]` for service `i`).
pub open spec fn config_check(
    token: Seq<char>,
    repository: Seq<char>,
    branch: Seq<char>,
    pull_dir_exists: bool,
    n_services: nat,
    dest_found: Seq<bool>,
) -> Result<(Seq<char>, Seq<char>, Seq<char>), ConfigError> {
    if token.len() == 0 || token == token_placeholder() {
        Err(ConfigError::MissingToken)
    } else if repository.len() == 0 || repository == repository_placeholder() {
        Err(ConfigError::MissingRepository)
    } else if reference(repository, branch) is Err {
        Err(ConfigError::Repository(reference(repository, branch)->Err_0))
    } else if !pull_dir_exists {
        Err(ConfigError::MissingDirectory)
    } else if n_services == 0 {
        Err(ConfigError::NoServices)
    } else if first_missing(dest_found, n_services, 0) is Some {
        Err(ConfigError::MissingDestination(first_missing(dest_found, n_services, 0)->Some_0 as usize))
    } else {
        Ok(reference(repository, branch)->Ok_0)
    }
}

/// Checks a configuration before the agent starts, given whether its pull
/// directory exists and, for each service in order, whether its deployment
/// directory exists, and returns the repository reference it names. A
/// service without an answer in `dest_found` counts as missing.
pub fn check_config<'a>(config: &'a ConfigFile, pull_dir_exists: bool, dest_found: &Vec<bool>) -> (r: Result<
    RepositoryInfo<'a>,
    ConfigError,
>)
    ensures
        match r {
            Ok(info) => config_check(
                config.token@,
                config.repository@,
                config.branch@,
                pull_dir_exists,
                config.services@.len(),
                dest_found@,
            ) == Ok::<(Seq<char>, Seq<char>, Seq<char>), ConfigError>((info.url@, info.author@, info.name@)),
            Err(e) => config_check(
                config.token@,
                config.repository@,
                config.branch@,
                pull_dir_exists,
                config.services@.len(),
                dest_found@,
            ) == Err::<(Seq<char>, Seq<char>, Seq<char>), ConfigError>(e),
        },
{
    if config.token.as_str().unicode_len() == 0 || same_text(config.token.as_str(), "YOUR-GITHUB-TOKEN-HERE") {
        return Err(ConfigError::MissingToken);
    }
    if config.repository.as_str().unicode_len() == 0 || same_text(
        config.repository.as_str(),
        "github.com/your-repository/link",
    ) {
        return Err(ConfigError::MissingRepository);
    }
    let repository = match url_fmt(config.repository.as_str(), config.branch.as_str()) {
        Ok(info) => info,
        Err(e) => {
            return Err(ConfigError::Repository(e));
        },
    };
    if !pull_dir_exists {
        return Err(ConfigError::MissingDirectory);
    }
    if config.services.len() == 0 {
        return Err(ConfigError::NoServices);
    }
    match find_missing(dest_found, config.services.len()) {
        Some(i) => Err(ConfigError::MissingDestination(i)),
        None => Ok(repository),
    }
}

/// Checks a configuration against the disk as it is now: the pull directory
/// and each service's deployment directory are looked up, then every check
/// of `check_config` is made.
pub fn validate_config<'a>(config: &'a ConfigFile) -> (r: Result<RepositoryInfo<'a>, ConfigError>)
    ensures
        match r {
            Ok(info) => exists|found: bool, dests: Seq<bool>|
                config_check(config.token@, config.repository@, config.branch@, found, config.services@.len(), dests)
                    == Ok::<(Seq<char>, Seq<char>, Seq<char>), ConfigError>((info.url@, info.author@, info.name@)),
            Err(e) => exists|found: bool, dests: Seq<bool>|
                config_check(config.token@, config.repository@, config.branch@, found, config.services@.len(), dests)
                    == Err::<(Seq<char>, Seq<char>, Seq<char>), ConfigError>(e),
        },
{
    let found = check_existence(config.pull_dir.as_str());
    let mut dests: Vec<bool> = Vec::new();
    let mut i: usize = 0;
    while i < config.services.len()
        invariant
            i <= config.services@.len(),
        decreases config.services@.len() - i,
    {
        dests.push(check_existence(config.services[i].build_dir.as_str()));
        i = i + 1;
    }
    check_config(config, found, &dests)
}

} // verus!
