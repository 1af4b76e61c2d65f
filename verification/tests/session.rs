use apvm::error::ApvmError;
use apvm::session::bash;
use apvm::session::session_id;
use apvm::session::EnvCommand;
use apvm::session::Shell;

const SCRIPT: &str = "\nexport APVM_SESSION=abc;\nexport APVM_DIR=/apvm;\nexport PATH=/apvm/sessions/abc/bin:$PATH;\ntrap '/bin/apvm unload' EXIT;\n";

#[test]
fn bash_script_text() {
  assert_eq!(bash("/apvm", "/bin/apvm", "abc"), SCRIPT);
}

#[test]
fn session_id_keeps_the_given_one() {
  assert_eq!(session_id(Some("abc".to_string())), Some("abc".to_string()));
}

#[test]
fn session_id_is_fifteen_alphanumerics() {
  let a = session_id(None).expect("the test machine has a random source");
  assert_eq!(a.chars().count(), 15);
  assert!(a.chars().all(|c| c.is_ascii_alphanumeric()));
}

#[test]
fn script_for_the_given_or_detected_shell() {
  let bash_cmd = EnvCommand { shell: Some(Shell::Bash) };
  let zsh_cmd = EnvCommand { shell: Some(Shell::Zsh) };
  let auto = EnvCommand { shell: None };
  assert_eq!(bash_cmd.script(&None, "/apvm", "/bin/apvm", "abc"), Ok(SCRIPT.to_string()));
  assert_eq!(zsh_cmd.script(&Some("/bin/fish".to_string()), "/apvm", "/bin/apvm", "abc"), Ok(SCRIPT.to_string()));
  assert_eq!(auto.script(&Some("/usr/bin/zsh".to_string()), "/apvm", "/bin/apvm", "abc"), Ok(SCRIPT.to_string()));
  assert_eq!(auto.script(&Some("/bin/bash".to_string()), "/apvm", "/bin/apvm", "abc"), Ok(SCRIPT.to_string()));
}

#[test]
fn script_without_a_known_shell_fails() {
  let auto = EnvCommand { shell: None };
  assert_eq!(auto.script(&Some("/usr/bin/fish".to_string()), "/apvm", "/bin/apvm", "abc"), Err(ApvmError::UnknownShell));
  assert_eq!(auto.script(&None, "/apvm", "/bin/apvm", "abc"), Err(ApvmError::UnknownShell));
  assert_eq!(
    ApvmError::UnknownShell.message(),
    "Unable to determine shell. Please specify using -s \"bash\""
  );
}
