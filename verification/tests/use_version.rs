use apvm::config::Paths;
use apvm::name::encode;
use apvm::use_version::InstallOrigin;
use apvm::use_version::UseCommand;
use apvm::use_version::UsePlan;

#[test]
fn use_git_defaults_to_main() {
  let paths = Paths::new("/apvm");
  let plan = UsePlan::new(&paths, "/apvm/global", &UseCommand { version: None, origin: Some(InstallOrigin::Git) });
  assert_eq!(plan.version, "main");
  assert_eq!(plan.target_dir, format!("/apvm/versions/git/{}", encode("main")));
  assert_eq!(plan.active_dir, "/apvm/global");
  assert_eq!(plan.target_static, "/apvm/global/static");
  assert_eq!(plan.target_bin, "/apvm/global/bin");
  assert_eq!(plan.bin_atlaspack, "/apvm/global/bin/atlaspack");
  assert_eq!(plan.message("git"), "Using: main (git)");
}

#[test]
fn use_local_version() {
  let paths = Paths::new("/apvm");
  let plan = UsePlan::new(&paths, "/apvm/global", &UseCommand { version: None, origin: Some(InstallOrigin::Local) });
  assert_eq!(plan.version, "local");
  assert_eq!(plan.target_dir, format!("/apvm/versions/local/{}", encode("local")));
  let named = UsePlan::new(
    &paths,
    "/apvm/global",
    &UseCommand { version: Some("mine".to_string()), origin: Some(InstallOrigin::Local) },
  );
  assert_eq!(named.version, "mine");
  assert_eq!(named.target_dir, "/apvm/versions/local/bWluZQ");
  assert_eq!(named.message("/src/atlaspack"), "Using: mine (/src/atlaspack)");
}
