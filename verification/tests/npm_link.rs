use apvm::error::ApvmError;
use apvm::npm_link::bin_script;
use apvm::npm_link::NpmLinkCommand;
use apvm::npm_link::NpmLinkLayout;

#[test]
fn install_first_decisions() {
  let with = NpmLinkCommand { version: Some("2.0.0".to_string()), install: true };
  let without = NpmLinkCommand { version: Some("2.0.0".to_string()), install: false };
  assert!(matches!(with.install_first(true), Ok(None)));
  assert!(matches!(without.install_first(true), Ok(None)));
  assert!(matches!(without.install_first(false), Err(ApvmError::NotInstalled)));
  let install = with.install_first(false).unwrap().unwrap();
  assert_eq!(install.version, Some("2.0.0".to_string()));
  assert!(install.force && !install.skip_build && !install.verbose);
}

#[test]
fn layout_paths() {
  let l = NpmLinkLayout::new("/proj", "/apvm/versions/npm/Mi4xNS4w", false);
  assert_eq!(l.package_lib, "/apvm/versions/npm/Mi4xNS4w");
  assert_eq!(l.package_lib_static, "/apvm/versions/npm/Mi4xNS4w/lib");
  assert_eq!(l.node_modules, "/proj/node_modules");
  assert_eq!(l.node_modules_bin, "/proj/node_modules/.bin");
  assert_eq!(l.node_modules_bin_atlaspack, "/proj/node_modules/.bin/atlaspack");
  assert_eq!(l.node_modules_super, "/proj/node_modules/atlaspack");
  assert_eq!(l.node_modules_atlaspack, "/proj/node_modules/@atlaspack");
  assert_eq!(l.super_link, "/proj/node_modules/@atlaspack/super");
  let w = NpmLinkLayout::new("/proj", "/lib", true);
  assert_eq!(w.node_modules_bin_atlaspack, "/proj/node_modules/.bin/atlaspack.exe");
}

#[test]
fn launcher_script() {
  assert_eq!(bin_script(), "#!/usr/bin/env node\nrequire('atlaspack/lib/cli.js')\n");
}

#[test]
fn entries_that_are_skipped() {
  let l = NpmLinkLayout::new("/proj", "/pkg", false);
  assert!(matches!(l.entry(&"/pkg/lib/core".to_string(), true), Ok(None)));
  assert!(matches!(l.entry(&"/pkg/lib/vendor.babel.js".to_string(), false), Ok(None)));
  assert!(matches!(l.entry(&"/pkg/lib/..".to_string(), false), Err(ApvmError::NoFileStem)));
}

#[test]
fn entry_for_a_module() {
  let l = NpmLinkLayout::new("/proj", "/pkg", false);
  let p = l.entry(&"/pkg/lib/core.js".to_string(), false).unwrap().unwrap();
  assert_eq!(p.name, "core");
  assert_eq!(p.dir, "/proj/node_modules/@atlaspack/core");
  assert_eq!(p.package_json_path, "/proj/node_modules/@atlaspack/core/package.json");
  assert_eq!(
    p.package_json,
    "{\n  \"name\": \"@atlaspack/core\",\n  \"main\": \"./index.js\",\n  \"type\": \"commonjs\"\n}"
  );
  assert_eq!(p.index_js_path, "/proj/node_modules/@atlaspack/core/index.js");
  assert_eq!(p.index_js, "module.exports = require('atlaspack/lib/core.js')\n");
  assert_eq!(p.runtime_helpers, None);
}

#[test]
fn entry_for_the_js_runtime_copies_helpers() {
  let l = NpmLinkLayout::new("/proj", "/pkg", false);
  let p = l.entry(&"/pkg/lib/runtime-js.js".to_string(), false).unwrap().unwrap();
  assert_eq!(p.name, "runtime-js");
  assert_eq!(
    p.runtime_helpers,
    Some(("/pkg/lib/runtimes/js/helpers".to_string(), "/proj/node_modules/@atlaspack/runtime-js/lib".to_string()))
  );
}
