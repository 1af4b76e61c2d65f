//! Where the version manager keeps its files.
use vstd::prelude::*;
use crate::active::ActiveVersion;
use crate::apvmrc::ApvmRc;
use crate::error::ApvmError;
use crate::path::{join, spec_file_stem, spec_join, PathExt};

verus! {

/// The directory layout under `$APVM_DIR`.
#[derive(Debug)]
pub struct Paths {
    /// $APVM_DIR (default $HOME/.local/apvm)
    pub apvm_dir: String,
    /// $APVM_DIR/.temp
    pub temp: String,
    /// $APVM_DIR/global
    pub global: String,
    /// $APVM_DIR/versions
    pub versions: String,
    /// $APVM_DIR/versions/local
    pub versions_local: String,
    /// $APVM_DIR/versions/git
    pub versions_git: String,
    /// $APVM_DIR/versions/npm
    pub versions_npm: String,
}

impl Paths {
    /// The layout rooted at `apvm_dir`.
    pub open spec fn is_layout_of(&self, apvm_dir: Seq<char>) -> bool {
        &&& self.apvm_dir@ == apvm_dir
        &&& self.global@ == spec_join(apvm_dir, "global"@)
        &&& self.temp@ == spec_join(apvm_dir, ".temp"@)
        &&& self.versions@ == spec_join(apvm_dir, "versions"@)
        &&& self.versions_local@ == spec_join(self.versions@, "local"@)
        &&& self.versions_git@ == spec_join(self.versions@, "git"@)
        &&& self.versions_npm@ == spec_join(self.versions@, "npm"@)
    }

    /// Lays out the directories under `apvm_dir`.
    pub fn new(apvm_dir: &str) -> (res: Paths)
        ensures
            res.is_layout_of(apvm_dir@),
    {
        let versions = join(apvm_dir, "versions");
        Paths {
            apvm_dir: apvm_dir.to_owned(),
            global: join(apvm_dir, "global"),
            temp: join(apvm_dir, ".temp"),
            versions_local: join(versions.as_str(), "local"),
            versions_git: join(versions.as_str(), "git"),
            versions_npm: join(versions.as_str(), "npm"),
            versions,
        }
    }

    /// The directories to create, in order, when they do not exist yet.
    pub fn dirs_to_create(&self) -> (res: Vec<String>)
        ensures
            res@.len() == 7,
            res@[0]@ == self.apvm_dir@,
            res@[1]@ == self.versions@,
            res@[2]@ == self.temp@,
            res@[3]@ == self.versions@,
            res@[4]@ == self.versions_local@,
            res@[5]@ == self.versions_git@,
            res@[6]@ == self.versions_npm@,
    {
        let mut v: Vec<String> = Vec::new();
        v.push(self.apvm_dir.clone());
        v.push(self.versions.clone());
        v.push(self.temp.clone());
        v.push(self.versions.clone());
        v.push(self.versions_local.clone());
        v.push(self.versions_git.clone());
        v.push(self.versions_npm.clone());
        v
    }
}

/// The environment the version manager runs in.
#[derive(Debug)]
pub struct Env {
    /// $APVM_SESSION
    pub apvm_session: Option<String>,
    /// $APVM_DIR, or the default directory under the home directory.
    pub apvm_dir: String,
    /// $APVM_LOCAL
    pub apvm_local: Option<String>,
}

/// The default `$APVM_DIR`: `<home>/.local/apvm`.
pub open spec fn spec_default_apvm_dir(home: Seq<char>) -> Seq<char> {
    spec_join(spec_join(home, ".local"@), "apvm"@)
}

/// The default `$APVM_DIR` under the home directory, if there is one.
pub fn apvm_dir_default(home: &Option<String>) -> (res: Result<String, ApvmError>)
    ensures
        match home {
            Some(h) => res matches Ok(d) && d@ == spec_default_apvm_dir(h@),
            None => res == Err::<String, ApvmError>(ApvmError::NoHome),
        },
{
    match home {
        Some(h) => {
            let local = join(h.as_str(), ".local");
            Ok(join(local.as_str(), "apvm"))
        },
        None => Err(ApvmError::NoHome),
    }
}

impl Env {
    /// The environment from the values of `$APVM_DIR`, `$APVM_SESSION` and
    /// `$APVM_LOCAL` (`None` when unset) and the home directory, which is
    /// used only when `$APVM_DIR` is unset.
    pub fn parse(
        apvm_dir_var: Option<String>,
        session_var: Option<String>,
        local_var: Option<String>,
        home: &Option<String>,
    ) -> (res: Result<Env, ApvmError>)
        ensures
            match apvm_dir_var {
                Some(d) => res matches Ok(env) && env.apvm_dir@ == d@,
                None => match home {
                    Some(h) => res matches Ok(env) && env.apvm_dir@ == spec_default_apvm_dir(h@),
                    None => res == Err::<Env, ApvmError>(ApvmError::NoHome),
                },
            },
            res matches Ok(env) ==> env.apvm_session == session_var && env.apvm_local == local_var,
    {
        Ok(Env {
            apvm_dir: match apvm_dir_var {
                Some(apvm_dir) => apvm_dir,
                None => apvm_dir_default(home)?,
            },
            apvm_session: session_var,
            apvm_local: local_var,
        })
    }
}

/// Everything a command needs to know about where it runs.
#[derive(Debug)]
pub struct Config {
    pub pwd: String,
    pub exe_path: String,
    pub exe_stem: String,
    pub argv: Vec<String>,
    pub apvm_rc: Option<ApvmRc>,
    pub active_version: Option<ActiveVersion>,
    pub paths: Paths,
}

impl Config {
    /// Puts the configuration together: `args` are the process arguments
    /// (the program name first, which is dropped), `exe_path` the path of
    /// the executable, whose file stem is taken, `apvm_rc` the project
    /// configuration found from `pwd`. Fails when the executable's path has
    /// no file stem.
    pub fn new(
        env: &Env,
        pwd: String,
        args: Vec<String>,
        exe_path: String,
        apvm_rc: Option<ApvmRc>,
        active_version: Option<ActiveVersion>,
    ) -> (res: Result<Config, ApvmError>)
        requires
            args@.len() > 0,
        ensures
            match spec_file_stem(exe_path@) {
                None => res == Err::<Config, ApvmError>(ApvmError::NoFileStem),
                Some(stem) => res matches Ok(c) && {
                    &&& c.pwd == pwd
                    &&& c.exe_path == exe_path
                    &&& c.exe_stem@ == stem
                    &&& c.argv@ == args@.drop_first()
                    &&& c.apvm_rc == apvm_rc
                    &&& c.active_version == active_version
                    &&& c.paths.is_layout_of(env.apvm_dir@)
                },
            },
    {
        let mut argv = args;
        argv.remove(0);
        let exe_stem = exe_path.try_file_stem()?;
        Ok(Config {
            pwd,
            exe_path,
            exe_stem,
            argv,
            apvm_rc,
            active_version,
            paths: Paths::new(env.apvm_dir.as_str()),
        })
    }
}

} // verus!
