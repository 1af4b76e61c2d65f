use apvm::apvmrc::package_json_specifier_of;
use apvm::apvmrc::rc_setting_of;
use apvm::apvmrc::specifier_in;
use apvm::json::fraction_zeros_within_bound;
use apvm::json::JsonTree;
use apvm::json::MAX_FRACTION_ZEROS;
use apvm::apvmrc::ApvmRc;
use apvm::apvmrc::DetectPhase;
use apvm::apvmrc::DetectStep;
use apvm::apvmrc::Detection;
use apvm::error::ApvmError;
use apvm::origin::VersionTarget;

#[test]
fn rc_setting_skips_comments() {
  assert_eq!(rc_setting_of("# pinned\n# again\ngit:main\n2.0.0\n"), Some("git:main".to_string()));
  assert_eq!(rc_setting_of("2.15.0"), Some("2.15.0".to_string()));
  assert_eq!(rc_setting_of("2.15.0\r\n"), Some("2.15.0".to_string()));
  // an empty line is not a comment
  assert_eq!(rc_setting_of("#c\n\n1.0.0\n"), Some(String::new()));
  assert_eq!(rc_setting_of("# only a comment\n"), None);
  assert_eq!(rc_setting_of(""), None);
}

#[test]
fn package_json_specifier_cases() {
  assert_eq!(
    package_json_specifier_of(r#"{"name":"x","atlaspack":{"version":"git:main"}}"#),
    Ok(Some("git:main".to_string()))
  );
  assert_eq!(package_json_specifier_of(r#"{"name":"x"}"#), Ok(None));
  assert_eq!(package_json_specifier_of(r#"{"atlaspack":"2.0.0"}"#), Ok(None));
  assert_eq!(package_json_specifier_of(r#"{"atlaspack":{"version":2}}"#), Ok(None));
  assert_eq!(package_json_specifier_of(r#"{"atlaspack":{}}"#), Ok(None));
  assert_eq!(package_json_specifier_of("[1, 2]"), Ok(None));
  assert_eq!(
    package_json_specifier_of("{ not json"),
    Err(ApvmError::InvalidJson("Unexpected character: n at (1:3)".to_string()))
  );
}

#[test]
fn detect_apvmrc_reads_the_trimmed_setting() {
  let rc = ApvmRc::detect_apvmrc("/p/.apvmrc", "# version\n  git:main  \n").unwrap();
  assert_eq!(rc.path, "/p/.apvmrc");
  assert_eq!(rc.version_target, VersionTarget::Git("main".to_string()));
  assert_eq!(ApvmRc::detect_apvmrc("/p/.apvmrc", "hg:tip\n"), Err(ApvmError::UnknownOrigin));
}

#[test]
fn detect_package_json_cases() {
  let found = ApvmRc::detect_package_json("/p/package.json", r#"{"atlaspack":{"version":"2.15.0"}}"#);
  assert_eq!(
    found,
    Ok(Some(ApvmRc { path: "/p/package.json".to_string(), version_target: VersionTarget::Npm("2.15.0".to_string()) }))
  );
  assert_eq!(ApvmRc::detect_package_json("/p/package.json", "{}"), Ok(None));
  assert_eq!(
    ApvmRc::detect_package_json("/p/package.json", r#"{"atlaspack":{"version":"x:1"}}"#),
    Err(ApvmError::UnknownOrigin)
  );
  assert_eq!(
    ApvmRc::detect_package_json("/p/package.json", "nope"),
    Err(ApvmError::InvalidJson("Unexpected character: o at (1:2)".to_string()))
  );
}

fn expect_read(step: &DetectStep) -> String {
  match step {
    DetectStep::Read(p) => p.clone(),
    other => panic!("expected a read, got {:?}", other),
  }
}

#[test]
fn walk_without_configuration_ends_not_found() {
  let (mut state, step) = ApvmRc::detect("/a/b");
  let mut reads = vec![expect_read(&step)];
  loop {
    let (next, step) = ApvmRc::detect_next(state, None);
    state = next;
    match step {
      DetectStep::Read(p) => reads.push(p),
      DetectStep::NotFound => break,
      other => panic!("unexpected step {:?}", other),
    }
  }
  assert_eq!(
    reads,
    vec![
      "/a/b/.apvmrc",
      "/a/.apvmrc",
      "/.apvmrc",
      "/a/b/package.json",
      "/a/package.json",
      "/package.json",
    ]
  );
  assert_eq!(state.phase, DetectPhase::PackageJson);
}

#[test]
fn walk_finds_an_apvmrc_in_a_parent() {
  let (state, _) = ApvmRc::detect("/a/b");
  let (state, step) = ApvmRc::detect_next(state, None);
  assert_eq!(expect_read(&step), "/a/.apvmrc");
  let (state, step) = ApvmRc::detect_next(state, Some("git:main\n".to_string()));
  assert_eq!(state.dir, "/a");
  match step {
    DetectStep::Found(rc) => {
      assert_eq!(rc.path, "/a/.apvmrc");
      assert_eq!(rc.version_target, VersionTarget::Git("main".to_string()));
    }
    other => panic!("unexpected step {:?}", other),
  }
}

#[test]
fn walk_moves_past_package_json_without_version() {
  let state = Detection { pwd: "/a/b".to_string(), phase: DetectPhase::PackageJson, dir: "/a/b".to_string() };
  let (state, step) = ApvmRc::detect_next(state, Some(r#"{"name":"b"}"#.to_string()));
  assert_eq!(expect_read(&step), "/a/package.json");
  let (_, step) = ApvmRc::detect_next(state, Some(r#"{"atlaspack":{"version":"1.0.0"}}"#.to_string()));
  match step {
    DetectStep::Found(rc) => {
      assert_eq!(rc.path, "/a/package.json");
      assert_eq!(rc.version_target, VersionTarget::Npm("1.0.0".to_string()));
    }
    other => panic!("unexpected step {:?}", other),
  }
}

#[test]
fn walk_stops_on_a_bad_file() {
  let (state, _) = ApvmRc::detect("/a");
  let (_, step) = ApvmRc::detect_next(state, Some("svn:trunk".to_string()));
  assert!(matches!(step, DetectStep::Failed(ApvmError::UnknownOrigin)));
  let state = Detection { pwd: "/a".to_string(), phase: DetectPhase::PackageJson, dir: "/a".to_string() };
  let (_, step) = ApvmRc::detect_next(state, Some("{".to_string()));
  match step {
    DetectStep::Failed(e) => assert_eq!(e.message(), "Unexpected end of JSON"),
    other => panic!("unexpected step {:?}", other),
  }
}

#[test]
fn an_apvmrc_up_the_tree_wins_over_package_json() {
  // /.apvmrc exists; /a/b/package.json names a version too
  let files = |path: &str| match path {
    "/.apvmrc" => Some("git:main\n".to_string()),
    "/a/b/package.json" => Some(r#"{"atlaspack":{"version":"1.0.0"}}"#.to_string()),
    _ => None,
  };
  let (mut state, mut step) = ApvmRc::detect("/a/b");
  let mut reads = Vec::new();
  let found = loop {
    match step {
      DetectStep::Read(p) => {
        reads.push(p.clone());
        let (next, s) = ApvmRc::detect_next(state, files(&p));
        state = next;
        step = s;
      }
      DetectStep::Found(rc) => break rc,
      other => panic!("unexpected step {:?}", other),
    }
  };
  assert_eq!(reads, vec!["/a/b/.apvmrc", "/a/.apvmrc", "/.apvmrc"]);
  assert_eq!(found.path, "/.apvmrc");
  assert_eq!(found.version_target, VersionTarget::Git("main".to_string()));
  assert_eq!(state.phase, DetectPhase::RcFile);
}

#[test]
fn specifier_in_a_parsed_document() {
  let version = |v: JsonTree| {
    JsonTree::Object(vec![(
      "atlaspack".to_string(),
      JsonTree::Object(vec![("other".to_string(), JsonTree::Null), ("version".to_string(), v)]),
    )])
  };
  assert_eq!(specifier_in(&version(JsonTree::Text("git:main".to_string()))), Some("git:main".to_string()));
  assert_eq!(specifier_in(&version(JsonTree::Number)), None);
  assert_eq!(specifier_in(&JsonTree::Array(vec![])), None);
  assert_eq!(specifier_in(&JsonTree::Object(vec![("atlaspack".to_string(), JsonTree::Text("1".to_string()))])), None);
  // the first entry under a key is the one read
  let twice = JsonTree::Object(vec![
    ("atlaspack".to_string(), JsonTree::Object(vec![("version".to_string(), JsonTree::Text("1.0.0".to_string()))])),
    ("atlaspack".to_string(), JsonTree::Object(vec![("version".to_string(), JsonTree::Text("2.0.0".to_string()))])),
  ]);
  assert_eq!(specifier_in(&twice), Some("1.0.0".to_string()));
}

#[test]
fn fraction_zero_bound() {
  let long = format!("{{\"n\": 0.{}}}", "0".repeat(MAX_FRACTION_ZEROS + 1));
  assert!(!fraction_zeros_within_bound(&long));
  let edge = format!("{{\"n\": 0.{}}}", "0".repeat(MAX_FRACTION_ZEROS));
  assert!(fraction_zeros_within_bound(&edge));
  assert_eq!(package_json_specifier_of(&edge), Ok(None));
  // long integer parts and long digit runs not after a point are fine
  assert!(fraction_zeros_within_bound(&"9".repeat(MAX_FRACTION_ZEROS + 5)));
  assert!(fraction_zeros_within_bound("1.5"));
  assert!(fraction_zeros_within_bound(""));
  // zeros after a non-zero fraction digit, and long digit runs in strings, are read
  let grown = format!("{{\"n\": 0.{}1{}}}", "0".repeat(MAX_FRACTION_ZEROS), "0".repeat(2 * MAX_FRACTION_ZEROS));
  assert!(fraction_zeros_within_bound(&grown));
  assert_eq!(package_json_specifier_of(&grown), Ok(None));
  let text = format!("{{\"atlaspack\": {{\"version\": \"{}\"}}}}", "7".repeat(3 * MAX_FRACTION_ZEROS));
  assert!(fraction_zeros_within_bound(&text));
  assert_eq!(package_json_specifier_of(&text), Ok(Some("7".repeat(3 * MAX_FRACTION_ZEROS))));
}

#[test]
fn package_json_search_runs_only_after_every_apvmrc() {
  // no .apvmrc anywhere; /a/package.json names a version, /a/b/package.json does not
  let files = |path: &str| match path {
    "/a/b/package.json" => Some(r#"{"name":"b"}"#.to_string()),
    "/a/package.json" => Some(r#"{"atlaspack":{"version":"git:main"}}"#.to_string()),
    _ => None,
  };
  let (mut state, mut step) = ApvmRc::detect("/a/b");
  let mut reads = Vec::new();
  let found = loop {
    match step {
      DetectStep::Read(p) => {
        reads.push(p.clone());
        let (next, s) = ApvmRc::detect_next(state, files(&p));
        state = next;
        step = s;
      }
      DetectStep::Found(rc) => break rc,
      other => panic!("unexpected step {:?}", other),
    }
  };
  assert_eq!(
    reads,
    vec!["/a/b/.apvmrc", "/a/.apvmrc", "/.apvmrc", "/a/b/package.json", "/a/package.json"]
  );
  assert_eq!(found.path, "/a/package.json");
  assert_eq!(found.version_target, VersionTarget::Git("main".to_string()));
}
