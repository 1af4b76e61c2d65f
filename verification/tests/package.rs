use apvm::list::is_active;
use apvm::active::ActiveType;
use apvm::active::ActiveVersion;
use apvm::config::Paths;
use apvm::error::ApvmError;
use apvm::name::encode;
use apvm::origin::VersionTarget;
use apvm::package::PackageDescriptor;
use apvm::package::PathProbe;

#[test]
fn parse_describes_the_install_directory() {
  let paths = Paths::new("/apvm");
  let p = PackageDescriptor::parse(&paths, &VersionTarget::Npm("2.15.0".to_string())).unwrap();
  assert_eq!(p.origin, "npm");
  assert_eq!(p.version, "2.15.0");
  assert_eq!(p.version_encoded, "Mi4xNS4w");
  assert_eq!(p.path, "/apvm/versions/npm/Mi4xNS4w");
  assert_eq!(p.version_target, VersionTarget::Npm("2.15.0".to_string()));

  let g = PackageDescriptor::parse(&paths, &VersionTarget::Git("feature/x".to_string())).unwrap();
  assert_eq!(g.path, format!("/apvm/versions/git/{}", encode("feature/x")));
  assert!(!g.version_encoded.contains('/'));
}

#[test]
fn parse_from_dir_recovers_the_target() {
  let paths = Paths::new("/apvm");
  for t in [
    VersionTarget::Npm("2.15.0".to_string()),
    VersionTarget::Git("main".to_string()),
    VersionTarget::Local("/home/me/src/atlaspack".to_string()),
  ] {
    let p = PackageDescriptor::parse(&paths, &t).unwrap();
    let q = PackageDescriptor::parse_from_dir(&paths, &p.path).unwrap();
    assert_eq!(q, p);
  }
}

#[test]
fn parse_from_dir_errors() {
  let paths = Paths::new("/apvm");
  assert_eq!(PackageDescriptor::parse_from_dir(&paths, &"/apvm/versions/npm/!!".to_string()), Err(ApvmError::InvalidName));
  assert_eq!(
    PackageDescriptor::parse_from_dir(&paths, &"/apvm/versions/svn/Zm9v".to_string()),
    Err(ApvmError::UnknownOrigin)
  );
  assert_eq!(PackageDescriptor::parse_from_dir(&paths, &"/".to_string()), Err(ApvmError::NoFileName));
  assert_eq!(PackageDescriptor::parse_from_dir(&paths, &"/apvm/..".to_string()), Err(ApvmError::NoFileName));
  // a bare name has the empty path as parent, which has no file name
  assert_eq!(PackageDescriptor::parse_from_dir(&paths, &"Zm9v".to_string()), Err(ApvmError::NoFileName));
}

#[test]
fn path_exists_reports_any_kind_of_entry() {
  let paths = Paths::new("/apvm");
  let p = PackageDescriptor::parse(&paths, &VersionTarget::Npm("1.0.0".to_string())).unwrap();
  let none = PathProbe { is_symlink: false, is_dir: false, is_present: false };
  assert_eq!(p.path_exists(&none), Ok(false));
  assert_eq!(p.path_exists(&PathProbe { is_symlink: true, ..none }), Ok(true));
  assert_eq!(p.path_exists(&PathProbe { is_dir: true, ..none }), Ok(true));
  assert_eq!(p.path_exists(&PathProbe { is_present: true, ..none }), Ok(true));
}

#[test]
fn active_version_from_node_modules() {
  let paths = Paths::new("/apvm");
  assert_eq!(ActiveVersion::detect(&paths, None), Ok(None));
  let a = ActiveVersion::detect(&paths, Some("git:main".to_string())).unwrap().unwrap();
  assert_eq!(a.active_type, ActiveType::NodeModules);
  assert_eq!(a.package.path, format!("/apvm/versions/git/{}", encode("main")));
  assert_eq!(ActiveVersion::detect(&paths, Some("x:1".to_string())), Err(ApvmError::UnknownOrigin));
}

#[test]
fn distinct_targets_get_distinct_directories() {
  let paths = Paths::new("/apvm");
  let targets = [
    VersionTarget::Npm("main".to_string()),
    VersionTarget::Git("main".to_string()),
    VersionTarget::Local("main".to_string()),
    VersionTarget::Git("main2".to_string()),
    VersionTarget::Git("mai".to_string()),
    VersionTarget::Npm("2.15.0".to_string()),
  ];
  let dirs: Vec<String> = targets.iter().map(|t| PackageDescriptor::parse(&paths, t).unwrap().path).collect();
  for i in 0..dirs.len() {
    for j in 0..dirs.len() {
      assert_eq!(i == j, dirs[i] == dirs[j], "{} vs {}", dirs[i], dirs[j]);
    }
  }
}

#[test]
fn empty_versions_get_their_own_directories() {
  let paths = Paths::new("/apvm");
  let npm = PackageDescriptor::parse(&paths, &VersionTarget::Npm(String::new())).unwrap();
  let git = PackageDescriptor::parse(&paths, &VersionTarget::Git(String::new())).unwrap();
  assert_eq!(npm.path, "/apvm/versions/npm/");
  assert_eq!(git.path, "/apvm/versions/git/");
  assert_ne!(npm.path, git.path);
}

#[test]
fn active_version_in_the_list() {
  let paths = Paths::new("/apvm");
  let main = PackageDescriptor::parse(&paths, &VersionTarget::Git("main".to_string())).unwrap();
  let other = PackageDescriptor::parse(&paths, &VersionTarget::Npm("main".to_string())).unwrap();
  let active = Some(ActiveVersion {
    active_type: ActiveType::Global,
    package: PackageDescriptor::parse(&paths, &VersionTarget::Git("main".to_string())).unwrap(),
  });
  assert!(is_active(&active, &main));
  assert!(!is_active(&active, &other));
  assert!(!is_active(&None, &main));
}
