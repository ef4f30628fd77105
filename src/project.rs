//! Build strategies, one per toolchain, and the plan that takes a detected
//! manifest to a built and relocated service.

use vstd::prelude::*;
use vstd::string::{StrSliceExecFns, StringExecFns};
use crate::config::Service;
use crate::detect::{FileEntry, KeyFile};
use crate::text::starts_with;

verus! {

/// Why one service could not be deployed.
#[derive(Debug, Clone, Copy, PartialEq, Eq, Structural)]
pub enum ServiceError {
    /// The walk found no recognized manifest.
    NoSupportedProjectFound,
    /// A directory of the walk could not be opened.
    TraversalError,
    /// The project kind has no build strategy yet.
    UnsupportedProjectType(KeyFile),
    /// The build ended with a failure; the exit code, when there is one.
    BuildFailed(Option<i32>),
    /// The previous deployment could not be removed or the build moved.
    RelocationFailed,
}

/// The views of a sequence of strings.
pub open spec fn string_views(v: Seq<String>) -> Seq<Seq<char>> {
    v.map_values(|s: String| s@)
}

/// A toolchain's build strategy.
pub trait Project: Sized {
    /// The strategy is set up as `new` leaves it.
    spec fn wf(&self) -> bool;

    /// Where the build output lies, relative to the manifest's directory.
    spec fn build_subdir() -> Seq<char>;

    /// The release-build command with its arguments, if the toolchain can
    /// be built yet.
    spec fn command() -> Option<Seq<Seq<char>>>;

    fn new() -> (r: Self)
        ensures
            r.wf(),
    ;

    fn get_build_dir(&self) -> (r: &str)
        requires
            self.wf(),
        ensures
            r@ == Self::build_subdir(),
    ;

    fn build_command(&self) -> (r: Option<Vec<String>>)
        ensures
            match r {
                Some(v) => Self::command() == Some(string_views(v@)),
                None => Self::command() is None,
            },
    ;
}

/// Rust projects: `cargo build --release`, output in `target/release`.
pub struct Rust<'a> {
    build_dir: &'a str,
}

impl<'a> Project for Rust<'a> {
    closed spec fn wf(&self) -> bool {
        self.build_dir@ == "/target/release"@
    }

    open spec fn build_subdir() -> Seq<char> {
        "/target/release"@
    }

    open spec fn command() -> Option<Seq<Seq<char>>> {
        Some(seq!["cargo"@, "build"@, "--release"@])
    }

    fn new() -> (r: Self) {
        Rust { build_dir: "/target/release" }
    }

    fn get_build_dir(&self) -> (r: &str) {
        self.build_dir
    }

    fn build_command(&self) -> (r: Option<Vec<String>>) {
        let mut v: Vec<String> = Vec::new();
        v.push(String::from_str("cargo"));
        v.push(String::from_str("build"));
        v.push(String::from_str("--release"));
        assert(string_views(v@) =~= seq!["cargo"@, "build"@, "--release"@]);
        Some(v)
    }
}

/// Go projects build in the project's root; building is not supported yet.
pub struct Go<'a> {
    build_dir: &'a str,
}

impl<'a> Project for Go<'a> {
    closed spec fn wf(&self) -> bool {
        self.build_dir@ == ""@
    }

    open spec fn build_subdir() -> Seq<char> {
        ""@
    }

    open spec fn command() -> Option<Seq<Seq<char>>> {
        None
    }

    fn new() -> (r: Self) {
        Go { build_dir: "" }
    }

    fn get_build_dir(&self) -> (r: &str) {
        self.build_dir
    }

    fn build_command(&self) -> (r: Option<Vec<String>>) {
        None
    }
}

/// Gleam projects put their output in `build/prod/erlang`; building is not
/// supported yet.
pub struct Gleam<'a> {
    build_dir: &'a str,
}

impl<'a> Project for Gleam<'a> {
    closed spec fn wf(&self) -> bool {
        self.build_dir@ == "/build/prod/erlang"@
    }

    open spec fn build_subdir() -> Seq<char> {
        "/build/prod/erlang"@
    }

    open spec fn command() -> Option<Seq<Seq<char>>> {
        None
    }

    fn new() -> (r: Self) {
        Gleam { build_dir: "/build/prod/erlang" }
    }

    fn get_build_dir(&self) -> (r: &str) {
        self.build_dir
    }

    fn build_command(&self) -> (r: Option<Vec<String>>) {
        None
    }
}

/// What it takes to build and deploy one service.
pub struct BuildPlan {
    /// The directory the build runs in: the manifest's directory.
    pub work_dir: String,
    /// The build command and its arguments.
    pub command: Vec<String>,
    /// Where the build output appears.
    pub output_dir: String,
    /// Where the output is deployed, replacing what is there.
    pub target_dir: String,
}

/// The directory a service is deployed to: `<build_dir>/<name>`.
pub open spec fn relocation_path(destination: Seq<char>, name: Seq<char>) -> Seq<char> {
    destination + "/"@ + name
}

/// Returns `<destination>/<service_name>`.
pub fn relocation_target(destination: &str, service_name: &str) -> (r: String)
    ensures
        r@ == relocation_path(destination@, service_name@),
{
    let mut t = String::from_str(destination);
    t.append("/");
    t.append(service_name);
    t
}

/// `rel` inside `base`: joined with a `/` unless `rel` already starts with one.
pub open spec fn join_path(base: Seq<char>, rel: Seq<char>) -> Seq<char> {
    if starts_with(rel, "/"@) {
        base + rel
    } else {
        base + "/"@ + rel
    }
}

/// The directory a service's sources lie in within a fetched workspace.
pub fn service_root(workspace: &str, service: &Service) -> (r: String)
    ensures
        r@ == join_path(workspace@, service.root_dir@),
{
    let mut p = String::from_str(workspace);
    if !crate::text::text_starts_with(service.root_dir.as_str(), "/") {
        p.append("/");
    }
    p.append(service.root_dir.as_str());
    p
}

/// Plans the build of `service` from the manifest `found` of kind `kind`.
/// Only Rust projects can be built; any other kind is refused.
pub fn plan_build(found: &FileEntry, kind: KeyFile, service: &Service) -> (r: Result<BuildPlan, ServiceError>)
    ensures
        kind == KeyFile::Rust ==> match r {
            Ok(plan) => {
                &&& plan.work_dir@ == found.dir@
                &&& Some(string_views(plan.command@)) == <Rust as Project>::command()
                &&& plan.output_dir@ == found.dir@ + <Rust as Project>::build_subdir()
                &&& plan.target_dir@ == relocation_path(service.build_dir@, service.name@)
            },
            Err(_) => false,
        },
        kind != KeyFile::Rust ==> r == Err::<BuildPlan, ServiceError>(ServiceError::UnsupportedProjectType(kind)),
{
    match kind {
        KeyFile::Rust => {
            let strategy = Rust::new();
            let command = match strategy.build_command() {
                Some(c) => c,
                None => {
                    return Err(ServiceError::UnsupportedProjectType(kind));
                },
            };
            let mut output = found.dir.clone();
            output.append(strategy.get_build_dir());
            Ok(
                BuildPlan {
                    work_dir: found.dir.clone(),
                    command,
                    output_dir: output,
                    target_dir: relocation_target(service.build_dir.as_str(), service.name.as_str()),
                },
            )
        },
        _ => Err(ServiceError::UnsupportedProjectType(kind)),
    }
}

/// Reads a finished build's exit code: 0 is success, anything else (or no
/// code, when the build was stopped by a signal) is a failed build.
pub fn check_build(code: Option<i32>) -> (r: Result<(), ServiceError>)
    ensures
        code == Some(0i32) ==> r is Ok,
        code != Some(0i32) ==> r == Err::<(), ServiceError>(ServiceError::BuildFailed(code)),
{
    match code {
        Some(0) => Ok(()),
        _ => Err(ServiceError::BuildFailed(code)),
    }
}

/// Reads the exit code of one relocation step, removing the previous
/// deployment or moving the build output into place: 0 lets the deployment
/// go on, anything else (or no code) fails it.
pub fn check_relocation(code: Option<i32>) -> (r: Result<(), ServiceError>)
    ensures
        code == Some(0i32) ==> r is Ok,
        code != Some(0i32) ==> r == Err::<(), ServiceError>(ServiceError::RelocationFailed),
{
    match code {
        Some(0) => Ok(()),
        _ => Err(ServiceError::RelocationFailed),
    }
}

} // verus!
