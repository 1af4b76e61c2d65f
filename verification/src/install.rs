//! Installing versions: what to fetch, where to put it, and how to build it.
use vstd::prelude::*;
use crate::active::ActiveVersion;
use crate::config::Paths;
use crate::error::ApvmError;
use crate::name::spec_encode;
use crate::origin::{spec_parse, TargetSpec, VersionTarget};
use crate::package::PackageDescriptor;
use crate::path::{join, spec_join};
use crate::text::{concat, concat3, str_eq};

verus! {

/// `apvm install`.
#[derive(Debug)]
pub struct InstallCommand {
    /// Target version to install
    pub version: Option<String>,
    /// Replace an existing version if already installed
    pub force: bool,
    /// Skips any build steps
    pub skip_build: bool,
    /// Forward stdout/stderr for the underlying commands
    pub verbose: bool,
}

/// What to do about a version that may already be installed.
#[derive(Debug, Clone, Copy, PartialEq, Eq)]
pub enum ExistingInstall {
    /// Installed, and not to be replaced: nothing to do.
    Keep,
    /// Installed, and to be replaced: remove it first.
    Replace,
    /// Not installed.
    Absent,
}

impl InstallCommand {
    /// The version to install: the one given, or else the active one.
    pub fn target(&self, active: &Option<ActiveVersion>) -> (res: Result<VersionTarget, ApvmError>)
        ensures
            match self.version {
                Some(v) => match spec_parse(v@) {
                    Some(t) => res matches Ok(r) && r@ == t,
                    None => res == Err::<VersionTarget, ApvmError>(ApvmError::UnknownOrigin),
                },
                None => match active {
                    Some(a) => res matches Ok(r) && r@ == a.package.version_target@,
                    None => res == Err::<VersionTarget, ApvmError>(ApvmError::NoVersionForInstall),
                },
            },
    {
        match &self.version {
            Some(version) => VersionTarget::parse(version.as_str()),
            None => match active {
                Some(active) => Ok(active.package.version_target.clone()),
                None => Err(ApvmError::NoVersionForInstall),
            },
        }
    }

    /// Whether an existing installation is kept, replaced, or absent.
    pub fn existing(&self, exists: bool) -> (res: ExistingInstall)
        ensures
            res == (if !exists {
                ExistingInstall::Absent
            } else if self.force {
                ExistingInstall::Replace
            } else {
                ExistingInstall::Keep
            }),
    {
        if exists && !self.force {
            ExistingInstall::Keep
        } else if exists {
            ExistingInstall::Replace
        } else {
            ExistingInstall::Absent
        }
    }

    /// The same command with `--force`, as `apvm reinstall` runs it.
    pub fn forced(self) -> (res: InstallCommand)
        ensures
            res.version == self.version,
            res.force,
            res.skip_build == self.skip_build,
            res.verbose == self.verbose,
    {
        InstallCommand { force: true, ..self }
    }
}

/// One build command, with the progress message shown before it.
#[derive(Debug)]
pub struct BuildStep {
    pub message: Option<String>,
    pub args: Vec<String>,
}

/// The archive of a branch or commit of the Atlaspack repository.
pub open spec fn spec_git_url(branch: Seq<char>) -> Seq<char> {
    "https://github.com/atlassian-labs/atlaspack/archive/"@ + branch + ".tar.gz"@
}

/// The commands that build a checkout, each with the message shown before it.
pub open spec fn spec_git_build_steps() -> Seq<(Option<Seq<char>>, Seq<Seq<char>>)> {
    seq![
        (Some("Initializing"@), seq!["git"@, "init"@]),
        (None, seq!["git"@, "add"@, "."@]),
        (None, seq!["git"@, "commit"@, "-m"@, "Initial Commit"@]),
        (Some("Installing (yarn)"@), seq!["yarn"@, "install"@]),
        (Some("Building (Native)"@), seq!["yarn"@, "build-native-release"@]),
        (Some("Building (Flow)"@), seq!["yarn"@, "build"@]),
        (Some("Building (TypeScript)"@), seq!["yarn"@, "build-ts"@]),
    ]
}

/// The message and arguments of a build step.
pub open spec fn step_view(s: BuildStep) -> (Option<Seq<char>>, Seq<Seq<char>>) {
    (
        match s.message {
            Some(m) => Some(m@),
            None => None,
        },
        args_view(s.args@),
    )
}

/// The texts of a list of arguments.
pub open spec fn args_view(args: Seq<String>) -> Seq<Seq<char>> {
    args.map_values(|a: String| a@)
}

fn args2(a: &str, b: &str) -> (v: Vec<String>)
    ensures
        args_view(v@) == seq![a@, b@],
{
    let mut v: Vec<String> = Vec::new();
    v.push(a.to_owned());
    v.push(b.to_owned());
    assert(args_view(v@) =~= seq![a@, b@]);
    v
}

fn args3(a: &str, b: &str, c: &str) -> (v: Vec<String>)
    ensures
        args_view(v@) == seq![a@, b@, c@],
{
    let mut v = args2(a, b);
    let ghost prev = v@;
    v.push(c.to_owned());
    assert(args_view(v@) =~= args_view(prev).push(c@));
    assert(args_view(v@) =~= seq![a@, b@, c@]);
    v
}

fn args4(a: &str, b: &str, c: &str, d: &str) -> (v: Vec<String>)
    ensures
        args_view(v@) == seq![a@, b@, c@, d@],
{
    let mut v = args3(a, b, c);
    let ghost prev = v@;
    v.push(d.to_owned());
    assert(args_view(v@) =~= args_view(prev).push(d@));
    assert(args_view(v@) =~= seq![a@, b@, c@, d@]);
    v
}

fn build_step(message: Option<&str>, args: Vec<String>) -> (res: BuildStep)
    ensures
        step_view(res) == ((match message {
            Some(m) => Some(m@),
            None => None,
        }), args_view(args@)),
{
    BuildStep {
        message: match message {
            Some(m) => Some(m.to_owned()),
            None => None,
        },
        args,
    }
}

/// The build commands of a checkout.
fn git_build_steps() -> (res: Vec<BuildStep>)
    ensures
        res@.map_values(|s: BuildStep| step_view(s)) == spec_git_build_steps(),
{
    let mut steps: Vec<BuildStep> = Vec::new();
    steps.push(build_step(Some("Initializing"), args2("git", "init")));
    steps.push(build_step(None, args3("git", "add", ".")));
    steps.push(build_step(None, args4("git", "commit", "-m", "Initial Commit")));
    steps.push(build_step(Some("Installing (yarn)"), args2("yarn", "install")));
    steps.push(build_step(Some("Building (Native)"), args2("yarn", "build-native-release")));
    steps.push(build_step(Some("Building (Flow)"), args2("yarn", "build")));
    steps.push(build_step(Some("Building (TypeScript)"), args2("yarn", "build-ts")));
    assert(steps@.map_values(|s: BuildStep| step_view(s)) =~= spec_git_build_steps());
    steps
}

/// How to install a branch or commit of the Atlaspack repository.
#[derive(Debug)]
pub struct GitInstallPlan {
    /// The branch or commit.
    pub branch: String,
    /// The archive to download.
    pub url: String,
    /// Where the archive is unpacked (removed afterwards).
    pub temp_dir: String,
    /// Where the checkout ends up.
    pub target: String,
    /// Whether an existing checkout is removed first.
    pub remove_existing: bool,
    /// The build commands, run in the unpacked checkout (none with `--skip-build`).
    pub build_steps: Vec<BuildStep>,
}

impl GitInstallPlan {
    /// Plans the installation of `package` (a git target). An existing
    /// checkout is replaced when `force` is given or the branch is `main`;
    /// otherwise an existing checkout is an error.
    pub fn new(paths: &Paths, package: &PackageDescriptor, force: bool, skip_build: bool, target_exists: bool) -> (res: Result<GitInstallPlan, ApvmError>)
        ensures
            (target_exists && !force && package.version@ != "main"@) ==> res == Err::<GitInstallPlan, ApvmError>(ApvmError::AlreadyInstalled),
            !(target_exists && !force && package.version@ != "main"@) ==> (res matches Ok(p) && {
                &&& p.branch@ == package.version@
                &&& p.url@ == spec_git_url(package.version@)
                &&& p.temp_dir@ == spec_join(paths.temp@, package.version_encoded@ + ".temp"@)
                &&& p.target@ == spec_join(paths.versions_git@, package.version_encoded@)
                &&& p.remove_existing == target_exists
                &&& p.build_steps@.map_values(|s: BuildStep| step_view(s)) == (if skip_build {
                    Seq::empty()
                } else {
                    spec_git_build_steps()
                })
            }),
    {
        let branch = package.version.clone();
        let is_main = str_eq(branch.as_str(), "main");
        if target_exists && !(force || is_main) {
            return Err(ApvmError::AlreadyInstalled);
        }
        let temp_name = concat(package.version_encoded.as_str(), ".temp");
        let build_steps = if skip_build {
            let v: Vec<BuildStep> = Vec::new();
            assert(v@.map_values(|s: BuildStep| step_view(s)) =~= Seq::empty());
            v
        } else {
            git_build_steps()
        };
        Ok(GitInstallPlan {
            url: concat3("https://github.com/atlassian-labs/atlaspack/archive/", branch.as_str(), ".tar.gz"),
            branch,
            temp_dir: join(paths.temp.as_str(), temp_name.as_str()),
            target: join(paths.versions_git.as_str(), package.version_encoded.as_str()),
            remove_existing: target_exists,
            build_steps,
        })
    }

    /// The answer to the download request: 404 means the branch or commit
    /// does not exist.
    pub fn check_response(&self, status: u16) -> (res: Result<(), ApvmError>)
        ensures
            status == 404 ==> res == Err::<(), ApvmError>(ApvmError::VersionNotFound(self.branch)),
            status != 404 ==> res == Ok::<(), ApvmError>(()),
    {
        if status == 404 {
            return Err(ApvmError::VersionNotFound(self.branch.clone()));
        }
        Ok(())
    }
}

/// The release archive of an npm version for a platform.
pub open spec fn spec_npm_url(version: Seq<char>, tarball: Seq<char>) -> Seq<char> {
    "https://github.com/alshdavid-forks/atlaspack/releases/download/"@ + version + "/"@ + tarball
}

/// The release archive for an operating system and architecture, as
/// `std::env::consts::OS` and `ARCH` name them.
pub open spec fn spec_tarball(os: Seq<char>, arch: Seq<char>) -> Option<Seq<char>> {
    if os == "macos"@ && arch == "aarch64"@ {
        Some("atlaspack-darwin-arm64.tar.gz"@)
    } else if os == "macos"@ && arch == "x86_64"@ {
        Some("atlaspack-darwin-amd64.tar.gz"@)
    } else if os == "linux"@ && arch == "aarch64"@ {
        Some("atlaspack-linux-arm64.tar.gz"@)
    } else if os == "linux"@ && arch == "x86_64"@ {
        Some("atlaspack-linux-amd64.tar.gz"@)
    } else if os == "windows"@ && arch == "aarch64"@ {
        Some("atlaspack-windows-arm64.tar.gz"@)
    } else if os == "windows"@ && arch == "x86_64"@ {
        Some("atlaspack-windows-amd64.tar.gz"@)
    } else {
        None
    }
}

/// The release archive for a platform; `None` for a platform without releases.
pub fn tarball(os: &str, arch: &str) -> (res: Option<&'static str>)
    ensures
        match spec_tarball(os@, arch@) {
            Some(t) => res matches Some(r) && r@ == t,
            None => res is None,
        },
{
    let macos = str_eq(os, "macos");
    let linux = str_eq(os, "linux");
    let windows = str_eq(os, "windows");
    let arm = str_eq(arch, "aarch64");
    let x86 = str_eq(arch, "x86_64");
    if macos && arm {
        Some("atlaspack-darwin-arm64.tar.gz")
    } else if macos && x86 {
        Some("atlaspack-darwin-amd64.tar.gz")
    } else if linux && arm {
        Some("atlaspack-linux-arm64.tar.gz")
    } else if linux && x86 {
        Some("atlaspack-linux-amd64.tar.gz")
    } else if windows && arm {
        Some("atlaspack-windows-arm64.tar.gz")
    } else if windows && x86 {
        Some("atlaspack-windows-amd64.tar.gz")
    } else {
        None
    }
}

/// How to install a released npm version.
#[derive(Debug)]
pub struct NpmInstallPlan {
    /// The archive to download.
    pub url: String,
    /// Where the archive is unpacked (removed afterwards).
    pub temp_dir: String,
    /// Where the release ends up.
    pub target: String,
}

impl NpmInstallPlan {
    /// Plans the installation of `package` (an npm target) from the release
    /// archive `tarball`.
    pub fn new(paths: &Paths, package: &PackageDescriptor, tarball: &str) -> (res: NpmInstallPlan)
        ensures
            res.url@ == spec_npm_url(package.version@, tarball@),
            res.temp_dir@ == spec_join(paths.temp@, package.version_encoded@),
            res.target@ == spec_join(paths.versions_npm@, package.version_encoded@),
    {
        let mut url = concat3(
            "https://github.com/alshdavid-forks/atlaspack/releases/download/",
            package.version.as_str(),
            "/",
        );
        crate::text::push_str(&mut url, tarball);
        NpmInstallPlan {
            url,
            temp_dir: join(paths.temp.as_str(), package.version_encoded.as_str()),
            target: join(paths.versions_npm.as_str(), package.version_encoded.as_str()),
        }
    }

    /// The answer to the download request: anything but 200 is a failure.
    pub fn check_response(&self, status: u16) -> (res: Result<(), ApvmError>)
        ensures
            status == 200 ==> res == Ok::<(), ApvmError>(()),
            status != 200 ==> res == Err::<(), ApvmError>(ApvmError::FetchFailed),
    {
        if status != 200 {
            return Err(ApvmError::FetchFailed);
        }
        Ok(())
    }
}

} // verus!

verus! {

/// Installing puts a version where its descriptor says it lives, so that it
/// is found there again: the directory an npm, git or local installation
/// fills (`versions/<origin>/<encoded version>`, the `target` of the plans and
/// of `apvm use`) is the descriptor's path.
pub proof fn lemma_install_target_is_package_path(
    paths: Paths,
    apvm_dir: Seq<char>,
    p: PackageDescriptor,
    t: TargetSpec,
)
    requires
        paths.is_layout_of(apvm_dir),
        p.describes(paths.versions@, t),
    ensures
        t is Npm ==> spec_join(paths.versions_npm@, p.version_encoded@) == p.path@,
        t is Git ==> spec_join(paths.versions_git@, p.version_encoded@) == p.path@,
        t is Local ==> spec_join(paths.versions_local@, p.version_encoded@) == p.path@,
        p.version_encoded@ == spec_encode(t.version()),
{
}

} // verus!
