//! `apvm use`: making an installed version the active one.
//!
//! The active directory holds `bin/atlaspack` (a copy of, or hard link to,
//! the apvm executable) and `static`, a link to the installed version.
use vstd::prelude::*;
use crate::config::Paths;
use crate::name::{encode, spec_encode};
use crate::path::{join, spec_join};
use crate::text::{concat3, push_str};

verus! {

/// Where a version to use comes from.
#[derive(Debug, Clone, Copy, PartialEq, Eq)]
pub enum InstallOrigin {
    Super,
    Git,
    Local,
}

/// `apvm use`.
#[derive(Debug)]
pub struct UseCommand {
    /// Target version to use
    pub version: Option<String>,
    pub origin: Option<InstallOrigin>,
}

/// The files `apvm use` makes.
#[derive(Debug)]
pub struct UsePlan {
    /// The version used.
    pub version: String,
    /// The installed version.
    pub target_dir: String,
    /// The active directory.
    pub active_dir: String,
    /// <active>/static, linked to the installed version.
    pub target_static: String,
    /// <active>/bin
    pub target_bin: String,
    /// <active>/bin/atlaspack
    pub bin_atlaspack: String,
}

/// The version used when none is given: `main` for git, `local` for local.
pub open spec fn default_use_version(origin: InstallOrigin) -> Seq<char> {
    match origin {
        InstallOrigin::Git => "main"@,
        _ => "local"@,
    }
}

impl UsePlan {
    /// Plans `apvm use` for a git or local version, with `active_dir` the
    /// directory to make active. The version defaults to `main` for git and
    /// `local` for local sources.
    pub fn new(paths: &Paths, active_dir: &str, cmd: &UseCommand) -> (res: UsePlan)
        requires
            cmd.origin == Some(InstallOrigin::Git) || cmd.origin == Some(InstallOrigin::Local),
        ensures
            res.version@ == match cmd.version {
                Some(v) => v@,
                None => default_use_version(cmd.origin.unwrap()),
            },
            res.target_dir@ == spec_join(
                if cmd.origin == Some(InstallOrigin::Git) {
                    paths.versions_git@
                } else {
                    paths.versions_local@
                },
                spec_encode(res.version@),
            ),
            res.active_dir@ == active_dir@,
            res.target_static@ == spec_join(active_dir@, "static"@),
            res.target_bin@ == spec_join(active_dir@, "bin"@),
            res.bin_atlaspack@ == spec_join(res.target_bin@, "atlaspack"@),
    {
        let git = match cmd.origin {
            Some(InstallOrigin::Git) => true,
            _ => false,
        };
        let version = match &cmd.version {
            Some(v) => v.clone(),
            None => if git {
                "main".to_owned()
            } else {
                "local".to_owned()
            },
        };
        let version_safe = encode(version.as_str());
        let installs_dir = if git {
            &paths.versions_git
        } else {
            &paths.versions_local
        };
        let target_bin = join(active_dir, "bin");
        UsePlan {
            target_dir: join(installs_dir.as_str(), version_safe.as_str()),
            active_dir: active_dir.to_owned(),
            target_static: join(active_dir, "static"),
            bin_atlaspack: join(target_bin.as_str(), "atlaspack"),
            target_bin,
            version,
        }
    }

    /// The confirmation shown once the version is active: the version and,
    /// in brackets, `detail` (`git`, or the path local sources link to).
    pub fn message(&self, detail: &str) -> (res: String)
        ensures
            res@ == "Using: "@ + self.version@ + " ("@ + detail@ + ")"@,
    {
        let mut s = concat3("Using: ", self.version.as_str(), " (");
        push_str(&mut s, detail);
        push_str(&mut s, ")");
        s
    }
}

} // verus!
