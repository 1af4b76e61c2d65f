use apvm::apvmrc::ApvmRc;
use apvm::error::ApvmError;
use apvm::origin::VersionTarget;

#[test]
fn parse_bare_version_is_npm() {
  assert_eq!(VersionTarget::parse("2.15.0"), Ok(VersionTarget::Npm("2.15.0".to_string())));
  assert_eq!(VersionTarget::parse(""), Ok(VersionTarget::Npm(String::new())));
}

#[test]
fn parse_prefixed_versions() {
  assert_eq!(VersionTarget::parse("npm:2.15.0"), Ok(VersionTarget::Npm("2.15.0".to_string())));
  assert_eq!(VersionTarget::parse("git:main"), Ok(VersionTarget::Git("main".to_string())));
  assert_eq!(
    VersionTarget::parse("local:/home/me/atlaspack"),
    Ok(VersionTarget::Local("/home/me/atlaspack".to_string()))
  );
  // only the first colon separates the origin
  assert_eq!(VersionTarget::parse("git:feat:x"), Ok(VersionTarget::Git("feat:x".to_string())));
  assert_eq!(VersionTarget::parse("local:C:\\src"), Ok(VersionTarget::Local("C:\\src".to_string())));
}

#[test]
fn parse_rejects_unknown_origin() {
  assert_eq!(VersionTarget::parse("svn:trunk"), Err(ApvmError::UnknownOrigin));
  assert_eq!(VersionTarget::parse(":1.0.0"), Err(ApvmError::UnknownOrigin));
  assert_eq!(VersionTarget::parse("NPM:1.0.0"), Err(ApvmError::UnknownOrigin));
}

#[test]
fn version_origin_and_text() {
  let npm = VersionTarget::Npm("2.15.0".to_string());
  let git = VersionTarget::Git("main".to_string());
  let local = VersionTarget::Local("/src/atlaspack".to_string());
  assert_eq!(npm.version(), "2.15.0");
  assert_eq!(git.version(), "main");
  assert_eq!(local.version(), "/src/atlaspack");
  assert_eq!(npm.origin(), "npm");
  assert_eq!(git.origin(), "git");
  assert_eq!(local.origin(), "local");
  assert_eq!(npm.to_text(), "2.15.0");
  assert_eq!(git.to_text(), "git:main");
  assert_eq!(local.to_text(), "/src/atlaspack");
}

#[test]
fn origin_version_text_reads_back() {
  for t in [
    VersionTarget::Npm("2.15.0".to_string()),
    VersionTarget::Git("feature/x".to_string()),
    VersionTarget::Local("/a:b".to_string()),
    VersionTarget::Npm(String::new()),
  ] {
    let text = format!("{}:{}", t.origin(), t.version());
    assert_eq!(VersionTarget::parse(&text), Ok(t.clone()));
  }
}

#[test]
fn shown_text_reads_back_for_git_and_plain_npm() {
  for t in [VersionTarget::Git("main".to_string()), VersionTarget::Npm("2.15.0".to_string())] {
    assert_eq!(VersionTarget::parse(&t.to_text()), Ok(t.clone()));
  }
  // a local target is shown as its bare path, which reads back as npm
  let local = VersionTarget::Local("/src".to_string());
  assert_eq!(VersionTarget::parse(&local.to_text()), Ok(VersionTarget::Npm("/src".to_string())));
}

#[test]
fn resolve_prefers_the_given_version() {
  let rc = Some(ApvmRc { path: "/p/.apvmrc".to_string(), version_target: VersionTarget::Git("main".to_string()) });
  assert_eq!(
    VersionTarget::resolve(&rc, &Some("1.2.3".to_string())),
    Ok(VersionTarget::Npm("1.2.3".to_string()))
  );
  assert_eq!(VersionTarget::resolve(&rc, &Some("x:1".to_string())), Err(ApvmError::UnknownOrigin));
}

#[test]
fn resolve_falls_back_to_the_project_configuration() {
  let rc = Some(ApvmRc { path: "/p/.apvmrc".to_string(), version_target: VersionTarget::Git("main".to_string()) });
  assert_eq!(VersionTarget::resolve(&rc, &None), Ok(VersionTarget::Git("main".to_string())));
  assert_eq!(VersionTarget::resolve(&rc, &Some(String::new())), Ok(VersionTarget::Git("main".to_string())));
  assert_eq!(VersionTarget::resolve(&None, &None), Err(ApvmError::NoVersionSelected));
  assert_eq!(VersionTarget::resolve(&None, &Some(String::new())), Err(ApvmError::NoVersionSelected));
}
