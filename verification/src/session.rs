//! Shell sessions: `eval "$(apvm env)"`.
use vstd::prelude::*;
use rand::Rng;
use rand::SeedableRng;
use crate::error::ApvmError;
use crate::text::{contains_seq, opt_view, push_str, str_contains};

verus! {

/// The shells a session script can be written for.
#[derive(Debug, Clone, Copy, PartialEq, Eq)]
pub enum Shell {
    Bash,
    Zsh,
}

/// `apvm env`: the shell to write the session script for, if given.
#[derive(Debug, Clone, Copy)]
pub struct EnvCommand {
    pub shell: Option<Shell>,
}

/// Whether a character is an ASCII letter or digit.
pub open spec fn is_alphanumeric(c: char) -> bool {
    ('a' <= c && c <= 'z') || ('A' <= c && c <= 'Z') || ('0' <= c && c <= '9')
}

/// A fresh session identifier: `len` characters drawn at random from ASCII
/// letters and digits (calls `StdRng::try_from_os_rng`, then samples the
/// `Alphanumeric` distribution). `None` when the operating system's random
/// source fails. The contract states what holds of every outcome, as `rand`
/// documents the `Alphanumeric` distribution; which characters come out, and
/// whether the random source answers, is not stated.
#[verifier::external_body]
fn random_alphanumeric(len: usize) -> (res: Option<String>)
    ensures
        res matches Some(s) ==> s@.len() == len && forall|i: int| 0 <= i < s@.len() ==> is_alphanumeric(#[trigger] s@[i]),
{
    match rand::rngs::StdRng::try_from_os_rng() {
        Ok(rng) => Some(rng.sample_iter(&rand::distr::Alphanumeric).take(len).map(char::from).collect()),
        Err(_) => None,
    }
}

/// The session identifier: `$APVM_SESSION` when it is set, otherwise fifteen
/// random ASCII letters and digits; `None` when no random identifier can be
/// had from the operating system.
pub fn session_id(apvm_session: Option<String>) -> (res: Option<String>)
    ensures
        match apvm_session {
            Some(id) => res == Some(id),
            None => res matches Some(s) ==> s@.len() == 15 && forall|i: int| 0 <= i < 15 ==> is_alphanumeric(#[trigger] s@[i]),
        },
{
    match apvm_session {
        Some(id) => Some(id),
        None => random_alphanumeric(15),
    }
}

/// The script that sets up a session in bash or zsh.
pub open spec fn spec_bash(apvm_dir: Seq<char>, exe_path: Seq<char>, id: Seq<char>) -> Seq<char> {
    "\nexport APVM_SESSION="@ + id + ";\nexport APVM_DIR="@ + apvm_dir + ";\nexport PATH="@ + apvm_dir
        + "/sessions/"@ + id + "/bin:$PATH;\ntrap '"@ + exe_path + " unload' EXIT;\n"@
}

/// The script that sets up a session in bash or zsh: it exports the session
/// and the directory, puts the session's `bin` first on `PATH`, and unloads
/// the session when the shell exits.
pub fn bash(apvm_dir: &str, exe_path: &str, id: &str) -> (res: String)
    ensures
        res@ == spec_bash(apvm_dir@, exe_path@, id@),
{
    let mut s = "\nexport APVM_SESSION=".to_owned();
    push_str(&mut s, id);
    push_str(&mut s, ";\nexport APVM_DIR=");
    push_str(&mut s, apvm_dir);
    push_str(&mut s, ";\nexport PATH=");
    push_str(&mut s, apvm_dir);
    push_str(&mut s, "/sessions/");
    push_str(&mut s, id);
    push_str(&mut s, "/bin:$PATH;\ntrap '");
    push_str(&mut s, exe_path);
    push_str(&mut s, " unload' EXIT;\n");
    s
}

/// Whether a session script can be written: a shell was given, or `$SHELL`
/// names bash or zsh.
pub open spec fn shell_known(shell: Option<Shell>, current_shell: Option<Seq<char>>) -> bool {
    match shell {
        Some(_) => true,
        None => match current_shell {
            Some(sh) => contains_seq(sh, "/bash"@) || contains_seq(sh, "/zsh"@),
            None => false,
        },
    }
}

impl EnvCommand {
    /// The session script for `apvm env`: the bash script when a shell is
    /// given or `$SHELL` (`current_shell`) names bash or zsh; otherwise an
    /// error asking for the shell.
    pub fn script(&self, current_shell: &Option<String>, apvm_dir: &str, exe_path: &str, id: &str) -> (res: Result<String, ApvmError>)
        ensures
            shell_known(self.shell, opt_view(*current_shell)) ==> (res matches Ok(r) && r@ == spec_bash(
                apvm_dir@,
                exe_path@,
                id@,
            )),
            !shell_known(self.shell, opt_view(*current_shell)) ==> res == Err::<String, ApvmError>(ApvmError::UnknownShell),
    {
        match self.shell {
            Some(Shell::Bash) => Ok(bash(apvm_dir, exe_path, id)),
            Some(Shell::Zsh) => Ok(bash(apvm_dir, exe_path, id)),
            None => match current_shell {
                Some(shell) => {
                    if str_contains(shell.as_str(), "/bash") || str_contains(shell.as_str(), "/zsh") {
                        Ok(bash(apvm_dir, exe_path, id))
                    } else {
                        Err(ApvmError::UnknownShell)
                    }
                },
                None => Err(ApvmError::UnknownShell),
            },
        }
    }
}

} // verus!
