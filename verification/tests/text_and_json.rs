use apvm::apvmrc::package_json_specifier_of;
use apvm::error::ApvmError;
use apvm::list::list_line;
use apvm::path::PathExt;
use apvm::text::lines_of;
use apvm::text::str_contains;
use apvm::text::str_starts_with;
use apvm::text::trim;

#[test]
fn trim_and_lines() {
  assert_eq!(trim("  git:main \t\r\n"), "git:main");
  assert_eq!(trim(""), "");
  assert_eq!(trim(" \n "), "");
  assert_eq!(lines_of("a\nb\r\n\nc"), vec!["a", "b", "", "c"]);
  assert_eq!(lines_of("a\n"), vec!["a"]);
  assert_eq!(lines_of(""), Vec::<String>::new());
}

#[test]
fn contains_and_prefix() {
  assert!(str_contains("/usr/bin/zsh", "/zsh"));
  assert!(!str_contains("/usr/bin/fish", "/zsh"));
  assert!(str_contains("abc", ""));
  assert!(str_starts_with("vendor.x", "vendor."));
  assert!(!str_starts_with("vendo", "vendor."));
}

#[test]
fn path_parts() {
  assert_eq!("/a/b".to_string().try_parent(), Ok("/a".to_string()));
  assert_eq!("/".to_string().try_parent(), Err(ApvmError::NoParent));
  assert_eq!("/a/b.js".to_string().try_file_name(), Ok("b.js".to_string()));
  assert_eq!("/".to_string().try_file_name(), Err(ApvmError::NoFileName));
  assert_eq!("/a/..".to_string().try_file_name(), Err(ApvmError::NoFileName));
  assert_eq!("/a/b.test.js".to_string().try_file_stem(), Ok("b.test".to_string()));
  assert_eq!("/x/..".to_string().try_file_stem(), Err(ApvmError::NoFileStem));
  assert_eq!("/x".to_string().try_to_string(), Ok("/x".to_string()));
}

#[test]
fn joined_paths() {
  // Paths::new joins each directory onto the one above it
  let p = apvm::config::Paths::new("/a/");
  assert_eq!(p.global, "/a/global");
  assert_eq!(p.versions_git, "/a/versions/git");
}

#[test]
fn json_members_are_read_through_their_text() {
  assert_eq!(
    package_json_specifier_of(r#"{"atlaspack": {"version": "1.0.0", "x": [1, {"y": null}]}, "n": 1}"#),
    Ok(Some("1.0.0".to_string()))
  );
  assert_eq!(package_json_specifier_of(r#"{"atlaspack": {"version": true}}"#), Ok(None));
  assert_eq!(package_json_specifier_of(r#"{"atlaspack": {"version": null}}"#), Ok(None));
  assert_eq!(package_json_specifier_of(r#"{"atlaspack": {"version": ["1"]}}"#), Ok(None));
  assert_eq!(package_json_specifier_of("\"2.0.0\""), Ok(None));
  assert_eq!(package_json_specifier_of("2.5"), Ok(None));
  assert_eq!(package_json_specifier_of(""), Err(ApvmError::InvalidJson("Unexpected end of JSON".to_string())));
}

#[test]
fn json_pretty_manifest_text() {
  let layout = apvm::npm_link::NpmLinkLayout::new("/p", "/pkg", false);
  let p = layout.entry(&"/pkg/lib/runtime-js.js".to_string(), false).unwrap().unwrap();
  assert_eq!(
    p.package_json,
    "{\n  \"name\": \"@atlaspack/runtime-js\",\n  \"main\": \"./index.js\",\n  \"type\": \"commonjs\"\n}"
  );
}

#[test]
fn text_appends() {
  // concatenations go through String::push_str, characters through String::push
  assert_eq!(apvm::text::concat("ab", "cd"), "abcd");
  assert_eq!(apvm::text::concat3("a", "", "c"), "ac");
  assert_eq!(apvm::name::encode("ab"), "YWI");
  assert_eq!(apvm::name::decode("YWI"), Some("ab".to_string()));
}

#[test]
fn list_lines() {
  assert_eq!(list_line("2.15.0", false, ""), "* 2.15.0");
  assert_eq!(list_line("main", false, "git:"), "* git:main");
  assert_eq!(list_line("2.15.0", true, ""), "\x1b[34m\x1b[1m* 2.15.0\x1b[39m\x1b[22m");
}

#[test]
fn error_messages() {
  assert_eq!(ApvmError::UnknownOrigin.message(), "Cannot convert string to VersionTarget");
  assert_eq!(ApvmError::NoVersionSelected.message(), "No version selected");
  assert_eq!(ApvmError::NoVersionForInstall.message(), "No version selected for install");
  assert_eq!(ApvmError::InvalidName.message(), "Invalid encoded name");
  assert_eq!(ApvmError::NoParent.message(), "Unable to find parent");
  assert_eq!(ApvmError::NoFileName.message(), "Cannot get file name");
  assert_eq!(ApvmError::NoFileStem.message(), "Cannot get file stem");
  assert_eq!(ApvmError::InvalidJson("Unexpected end of JSON".to_string()).message(), "Unexpected end of JSON");
  assert_eq!(ApvmError::NotInstalled.message(), "Version not installed");
  assert_eq!(ApvmError::NothingToRemove.message(), "Not installed");
  assert_eq!(ApvmError::AlreadyInstalled.message(), "Already installed");
  assert_eq!(ApvmError::FetchFailed.message(), "Unable to fetch version");
  assert_eq!(ApvmError::NoInnerPackage.message(), "Unable to find inner package");
  assert_eq!(ApvmError::NoHome.message(), "Cannot find apvm_home. Please set $APVM_HOME variable manually");
}
