use apvm::route::route;
use apvm::route::Route;
use apvm::apvmrc::ApvmRc;
use apvm::config::apvm_dir_default;
use apvm::config::Config;
use apvm::config::Env;
use apvm::config::Paths;
use apvm::error::ApvmError;
use apvm::origin::VersionTarget;

#[test]
fn paths_layout() {
  let p = Paths::new("/home/me/.local/apvm/apvm_dir");
  assert_eq!(p.apvm_dir, "/home/me/.local/apvm/apvm_dir");
  assert_eq!(p.global, "/home/me/.local/apvm/apvm_dir/global");
  assert_eq!(p.temp, "/home/me/.local/apvm/apvm_dir/.temp");
  assert_eq!(p.versions, "/home/me/.local/apvm/apvm_dir/versions");
  assert_eq!(p.versions_local, "/home/me/.local/apvm/apvm_dir/versions/local");
  assert_eq!(p.versions_git, "/home/me/.local/apvm/apvm_dir/versions/git");
  assert_eq!(p.versions_npm, "/home/me/.local/apvm/apvm_dir/versions/npm");
}

#[test]
fn directories_to_create() {
  let p = Paths::new("/x");
  assert_eq!(
    p.dirs_to_create(),
    vec!["/x", "/x/versions", "/x/.temp", "/x/versions", "/x/versions/local", "/x/versions/git", "/x/versions/npm"]
  );
}

#[test]
fn default_apvm_dir() {
  assert_eq!(apvm_dir_default(&Some("/home/me".to_string())), Ok("/home/me/.local/apvm".to_string()));
  assert_eq!(apvm_dir_default(&None), Err(ApvmError::NoHome));
}

#[test]
fn env_parse() {
  let env = Env::parse(Some("/custom".to_string()), Some("abc".to_string()), None, &None).unwrap();
  assert_eq!(env.apvm_dir, "/custom");
  assert_eq!(env.apvm_session, Some("abc".to_string()));
  assert_eq!(env.apvm_local, None);

  let env = Env::parse(None, None, Some("/src".to_string()), &Some("/home/me".to_string())).unwrap();
  assert_eq!(env.apvm_dir, "/home/me/.local/apvm");
  assert_eq!(env.apvm_session, None);
  assert_eq!(env.apvm_local, Some("/src".to_string()));

  assert!(matches!(Env::parse(None, None, None, &None), Err(ApvmError::NoHome)));
}

#[test]
fn config_drops_the_program_name() {
  let env = Env::parse(Some("/apvm".to_string()), None, None, &None).unwrap();
  let rc = ApvmRc { path: "/p/.apvmrc".to_string(), version_target: VersionTarget::Npm("1.0.0".to_string()) };
  let config = Config::new(
    &env,
    "/p".to_string(),
    vec!["apvm".to_string(), "install".to_string(), "1.0.0".to_string()],
    "/usr/bin/apvm.exe".to_string(),
    Some(rc.clone()),
    None,
  )
  .unwrap();
  assert_eq!(config.argv, vec!["install", "1.0.0"]);
  assert_eq!(config.pwd, "/p");
  assert_eq!(config.exe_path, "/usr/bin/apvm.exe");
  assert_eq!(config.exe_stem, "apvm");
  assert_eq!(config.apvm_rc, Some(rc));
  assert_eq!(config.active_version, None);
  assert_eq!(config.paths.versions_npm, "/apvm/versions/npm");
}

#[test]
fn config_needs_an_executable_stem() {
  let env = Env::parse(Some("/apvm".to_string()), None, None, &None).unwrap();
  let res = Config::new(&env, "/p".to_string(), vec!["apvm".to_string()], "/".to_string(), None, None);
  assert!(matches!(res, Err(ApvmError::NoFileStem)));
  let atlaspack = Config::new(&env, "/p".to_string(), vec!["atlaspack".to_string()], "/bin/atlaspack".to_string(), None, None);
  assert_eq!(atlaspack.unwrap().exe_stem, "atlaspack");
}

#[test]
fn multi_name_binary_routes() {
  let args = |v: &[&str]| v.iter().map(|s| s.to_string()).collect::<Vec<String>>();
  assert_eq!(route("atlaspack", args(&["build", "--watch"])), Route::Proxy(args(&["build", "--watch"])));
  assert_eq!(route("apvm", args(&["atlaspack", "--version"])), Route::Proxy(args(&["--version"])));
  assert_eq!(route("apvm", args(&["install", "2.15.0"])), Route::Commands);
  assert_eq!(route("apvm", args(&[])), Route::Commands);
  assert_eq!(route("atlaspack", args(&[])), Route::Proxy(args(&[])));
}

#[test]
fn executable_stems() {
  let env = Env::parse(Some("/apvm".to_string()), None, None, &None).unwrap();
  let make = |exe: &str| Config::new(&env, "/p".to_string(), vec!["x".to_string()], exe.to_string(), None, None);
  assert_eq!(make("/usr/local/bin/atlaspack.exe").unwrap().exe_stem, "atlaspack");
  assert_eq!(make("/usr/local/bin/apvm").unwrap().exe_stem, "apvm");
  assert_eq!(make("/opt/.apvm").unwrap().exe_stem, ".apvm");
  assert_eq!(make("/opt/apvm.tar.gz").unwrap().exe_stem, "apvm.tar");
  assert!(matches!(make("/opt/.."), Err(ApvmError::NoFileStem)));
}
