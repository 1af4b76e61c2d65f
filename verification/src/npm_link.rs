//! Linking a version of Atlaspack into a project's `node_modules`.
use vstd::prelude::*;
use crate::error::ApvmError;
use crate::install::InstallCommand;
use crate::json::{entries_view, json_pretty_object, pretty_object};
use crate::path::{join, spec_file_stem, spec_join, PathExt};
use crate::text::{concat, concat3, starts_with_seq, str_eq, str_starts_with};

verus! {

/// `apvm npm link`.
#[derive(Debug)]
pub struct NpmLinkCommand {
    /// Target version to link
    pub version: Option<String>,
    /// Install if version doesn't exists
    pub install: bool,
}

impl NpmLinkCommand {
    /// Whether the version must be installed before it is linked: when it is
    /// missing and `--install` was given, the forced installation to run;
    /// when it is missing otherwise, an error.
    pub fn install_first(&self, exists: bool) -> (res: Result<Option<InstallCommand>, ApvmError>)
        ensures
            exists ==> res == Ok::<Option<InstallCommand>, ApvmError>(None),
            !exists && !self.install ==> res == Err::<Option<InstallCommand>, ApvmError>(ApvmError::NotInstalled),
            !exists && self.install ==> (res matches Ok(Some(c)) && c.version == self.version && c.force
                && !c.skip_build && !c.verbose),
    {
        if !exists && self.install {
            Ok(Some(InstallCommand {
                version: self.version.clone(),
                force: true,
                skip_build: false,
                verbose: false,
            }))
        } else if !exists {
            Err(ApvmError::NotInstalled)
        } else {
            Ok(None)
        }
    }
}

/// The files and links `apvm npm link` makes for an npm version.
#[derive(Debug)]
pub struct NpmLinkLayout {
    /// The installed release.
    pub package_lib: String,
    /// Its `lib` directory.
    pub package_lib_static: String,
    /// node_modules
    pub node_modules: String,
    /// node_modules/.bin
    pub node_modules_bin: String,
    /// node_modules/.bin/atlaspack (atlaspack.exe on Windows)
    pub node_modules_bin_atlaspack: String,
    /// node_modules/atlaspack, a copy of the release
    pub node_modules_super: String,
    /// node_modules/@atlaspack
    pub node_modules_atlaspack: String,
    /// node_modules/@atlaspack/super, a link to node_modules/atlaspack
    pub super_link: String,
}

/// The launcher written to `node_modules/.bin/atlaspack` outside Windows.
pub open spec fn spec_bin_script() -> Seq<char> {
    "#!/usr/bin/env node\nrequire('atlaspack/lib/cli.js')\n"@
}

/// The launcher written to `node_modules/.bin/atlaspack` outside Windows.
pub fn bin_script() -> (res: &'static str)
    ensures
        res@ == spec_bin_script(),
{
    "#!/usr/bin/env node\nrequire('atlaspack/lib/cli.js')\n"
}

impl NpmLinkLayout {
    /// The layout for the project in `pwd` and the release in `package_lib`.
    pub fn new(pwd: &str, package_lib: &str, windows: bool) -> (res: NpmLinkLayout)
        ensures
            res.package_lib@ == package_lib@,
            res.package_lib_static@ == spec_join(package_lib@, "lib"@),
            res.node_modules@ == spec_join(pwd@, "node_modules"@),
            res.node_modules_bin@ == spec_join(res.node_modules@, ".bin"@),
            res.node_modules_bin_atlaspack@ == spec_join(
                res.node_modules_bin@,
                if windows {
                    "atlaspack.exe"@
                } else {
                    "atlaspack"@
                },
            ),
            res.node_modules_super@ == spec_join(res.node_modules@, "atlaspack"@),
            res.node_modules_atlaspack@ == spec_join(res.node_modules@, "@atlaspack"@),
            res.super_link@ == spec_join(res.node_modules_atlaspack@, "super"@),
    {
        let node_modules = join(pwd, "node_modules");
        let node_modules_bin = join(node_modules.as_str(), ".bin");
        let node_modules_bin_atlaspack = if windows {
            join(node_modules_bin.as_str(), "atlaspack.exe")
        } else {
            join(node_modules_bin.as_str(), "atlaspack")
        };
        let node_modules_super = join(node_modules.as_str(), "atlaspack");
        let node_modules_atlaspack = join(node_modules.as_str(), "@atlaspack");
        let super_link = join(node_modules_atlaspack.as_str(), "super");
        NpmLinkLayout {
            package_lib: package_lib.to_owned(),
            package_lib_static: join(package_lib, "lib"),
            node_modules,
            node_modules_bin,
            node_modules_bin_atlaspack,
            node_modules_super,
            node_modules_atlaspack,
            super_link,
        }
    }
}

/// A package `@atlaspack/<name>` that forwards to a module of the copy.
#[derive(Debug)]
pub struct LinkedPackage {
    /// The module name (the file stem of the module).
    pub name: String,
    /// node_modules/@atlaspack/<name>
    pub dir: String,
    /// Its package.json and what to write there.
    pub package_json_path: String,
    pub package_json: String,
    /// Its index.js and what to write there.
    pub index_js_path: String,
    pub index_js: String,
    /// For `runtime-js`: the helpers directory to copy, and the `lib`
    /// directory to copy it into.
    pub runtime_helpers: Option<(String, String)>,
}

/// The manifest of `@atlaspack/<name>`.
pub open spec fn spec_manifest(name: Seq<char>) -> Seq<char> {
    json_pretty_object(
        seq![("name"@, "@atlaspack/"@ + name), ("main"@, "./index.js"@), ("type"@, "commonjs"@)],
        2,
    )
}

/// The entry point of `@atlaspack/<name>`.
pub open spec fn spec_index_js(name: Seq<char>) -> Seq<char> {
    "module.exports = require('atlaspack/lib/"@ + name + ".js')\n"@
}

impl LinkedPackage {
    /// The package for module `name` under the `@atlaspack` directory of `layout`.
    pub open spec fn is_package_for(&self, layout: &NpmLinkLayout, name: Seq<char>) -> bool {
        let dir = spec_join(layout.node_modules_atlaspack@, name);
        &&& self.name@ == name
        &&& self.dir@ == dir
        &&& self.package_json_path@ == spec_join(dir, "package.json"@)
        &&& self.package_json@ == spec_manifest(name)
        &&& self.index_js_path@ == spec_join(dir, "index.js"@)
        &&& self.index_js@ == spec_index_js(name)
        &&& match self.runtime_helpers {
            Some((from, to)) => name == "runtime-js"@
                && from@ == spec_join(spec_join(spec_join(layout.package_lib_static@, "runtimes"@), "js"@), "helpers"@)
                && to@ == spec_join(dir, "lib"@),
            None => name != "runtime-js"@,
        }
    }
}

fn manifest(name: &str) -> (res: String)
    ensures
        res@ == spec_manifest(name@),
{
    let mut entries: Vec<(String, String)> = Vec::new();
    entries.push(("name".to_owned(), concat("@atlaspack/", name)));
    entries.push(("main".to_owned(), "./index.js".to_owned()));
    entries.push(("type".to_owned(), "commonjs".to_owned()));
    assert(entries_view(entries@) =~= seq![("name"@, "@atlaspack/"@ + name@), ("main"@, "./index.js"@), ("type"@, "commonjs"@)]);
    pretty_object(&entries, 2)
}

impl NpmLinkLayout {
    /// What to make for one entry of the release's `lib` directory:
    /// directories and `vendor.*` modules are skipped, every other module
    /// gets a package `@atlaspack/<file stem>`.
    pub fn entry(&self, entry_path: &String, is_dir: bool) -> (res: Result<Option<LinkedPackage>, ApvmError>)
        ensures
            is_dir ==> res == Ok::<Option<LinkedPackage>, ApvmError>(None),
            !is_dir ==> match spec_file_stem(entry_path@) {
                None => res == Err::<Option<LinkedPackage>, ApvmError>(ApvmError::NoFileStem),
                Some(stem) => if starts_with_seq(stem, "vendor."@) {
                    res == Ok::<Option<LinkedPackage>, ApvmError>(None)
                } else {
                    res matches Ok(Some(p)) && p.is_package_for(self, stem)
                },
            },
    {
        if is_dir {
            return Ok(None);
        }
        let file_stem = entry_path.try_file_stem()?;
        if str_starts_with(file_stem.as_str(), "vendor.") {
            return Ok(None);
        }
        let dir = join(self.node_modules_atlaspack.as_str(), file_stem.as_str());
        let runtime_helpers = if str_eq(file_stem.as_str(), "runtime-js") {
            let runtimes = join(self.package_lib_static.as_str(), "runtimes");
            let js = join(runtimes.as_str(), "js");
            Some((join(js.as_str(), "helpers"), join(dir.as_str(), "lib")))
        } else {
            None
        };
        Ok(Some(LinkedPackage {
            package_json_path: join(dir.as_str(), "package.json"),
            package_json: manifest(file_stem.as_str()),
            index_js_path: join(dir.as_str(), "index.js"),
            index_js: concat3("module.exports = require('atlaspack/lib/", file_stem.as_str(), ".js')\n"),
            runtime_helpers,
            dir,
            name: file_stem,
        }))
    }
}

} // verus!
