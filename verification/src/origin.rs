//! Version targets: where a version of Atlaspack comes from, and which one.
//!
//! A specifier is written `origin:version` with origin `npm`, `git` or
//! `local`; a specifier without `:` names an npm version.
use vstd::prelude::*;
use crate::apvmrc::ApvmRc;
use crate::error::ApvmError;
use crate::text::{
    chars_of, concat, concat3, find_char, first_index, has_char, is_first_index, str_eq, string_from_chars, lemma_first_index,
};

verus! {

/// The mathematical value of a [`VersionTarget`].
pub enum TargetSpec {
    Npm(Seq<char>),
    Git(Seq<char>),
    Local(Seq<char>),
}

/// A version of Atlaspack and the place it comes from.
#[derive(Debug, PartialEq, Eq)]
pub enum VersionTarget {
    /// A release published under a version number.
    Npm(String),
    /// A branch or commit of the Atlaspack repository.
    Git(String),
    /// Sources on this machine, named by their path.
    Local(String),
}

impl View for VersionTarget {
    type V = TargetSpec;

    open spec fn view(&self) -> TargetSpec {
        match self {
            VersionTarget::Npm(v) => TargetSpec::Npm(v@),
            VersionTarget::Git(v) => TargetSpec::Git(v@),
            VersionTarget::Local(v) => TargetSpec::Local(v@),
        }
    }
}

impl Clone for VersionTarget {
    fn clone(&self) -> (res: Self)
        ensures
            res@ == self@,
    {
        match self {
            VersionTarget::Npm(v) => VersionTarget::Npm(v.clone()),
            VersionTarget::Git(v) => VersionTarget::Git(v.clone()),
            VersionTarget::Local(v) => VersionTarget::Local(v.clone()),
        }
    }
}

impl TargetSpec {
    /// The version part of a target.
    pub open spec fn version(self) -> Seq<char> {
        match self {
            TargetSpec::Npm(v) => v,
            TargetSpec::Git(v) => v,
            TargetSpec::Local(v) => v,
        }
    }

    /// The origin part of a target: `npm`, `git` or `local`.
    pub open spec fn origin(self) -> Seq<char> {
        match self {
            TargetSpec::Npm(_) => "npm"@,
            TargetSpec::Git(_) => "git"@,
            TargetSpec::Local(_) => "local"@,
        }
    }

    /// How a target is shown: npm and local targets as their version alone,
    /// git targets as `git:` and the version.
    pub open spec fn text(self) -> Seq<char> {
        match self {
            TargetSpec::Npm(v) => v,
            TargetSpec::Git(v) => "git:"@ + v,
            TargetSpec::Local(v) => v,
        }
    }
}

/// The target a specifier names: text before the first `:` selects the
/// origin and the rest is the version; without `:`, the whole text is an npm
/// version. `None` for an origin other than `git`, `npm` and `local`.
pub open spec fn spec_parse(s: Seq<char>) -> Option<TargetSpec> {
    match first_index(s, ':') {
        None => Some(TargetSpec::Npm(s)),
        Some(i) => {
            let origin = s.take(i);
            let version = s.skip(i + 1);
            if origin == "git"@ {
                Some(TargetSpec::Git(version))
            } else if origin == "npm"@ {
                Some(TargetSpec::Npm(version))
            } else if origin == "local"@ {
                Some(TargetSpec::Local(version))
            } else {
                None
            }
        }
    }
}

impl VersionTarget {
    /// Reads a specifier such as `2.15.0`, `npm:2.15.0`, `git:main` or
    /// `local:/path/to/atlaspack`.
    pub fn parse(value: &str) -> (res: Result<VersionTarget, ApvmError>)
        ensures
            match spec_parse(value@) {
                Some(t) => res matches Ok(r) && r@ == t,
                None => res == Err::<VersionTarget, ApvmError>(ApvmError::UnknownOrigin),
            },
    {
        let chars = chars_of(value);
        match find_char(&chars, ':') {
            None => Ok(VersionTarget::Npm(value.to_owned())),
            Some(i) => {
                assert(i < chars.len());
                let origin = string_from_chars(&chars, 0, i);
                let version = string_from_chars(&chars, i + 1, chars.len());
                proof {
                    assert(origin@ =~= value@.take(i as int));
                    assert(version@ =~= value@.skip(i + 1));
                }
                if str_eq(origin.as_str(), "git") {
                    Ok(VersionTarget::Git(version))
                } else if str_eq(origin.as_str(), "npm") {
                    Ok(VersionTarget::Npm(version))
                } else if str_eq(origin.as_str(), "local") {
                    Ok(VersionTarget::Local(version))
                } else {
                    Err(ApvmError::UnknownOrigin)
                }
            }
        }
    }

    /// The version part of the target.
    pub fn version(&self) -> (res: &str)
        ensures
            res@ == self@.version(),
    {
        match self {
            VersionTarget::Npm(version) => version.as_str(),
            VersionTarget::Git(version) => version.as_str(),
            VersionTarget::Local(version) => version.as_str(),
        }
    }

    /// The origin of the target: `npm`, `git` or `local`.
    pub fn origin(&self) -> (res: &str)
        ensures
            res@ == self@.origin(),
    {
        match self {
            VersionTarget::Npm(_version) => "npm",
            VersionTarget::Git(_version) => "git",
            VersionTarget::Local(_version) => "local",
        }
    }

    /// How the target is shown to the user.
    pub fn to_text(&self) -> (res: String)
        ensures
            res@ == self@.text(),
    {
        match self {
            VersionTarget::Npm(version) => version.clone(),
            VersionTarget::Git(version) => concat("git:", version.as_str()),
            VersionTarget::Local(version) => version.clone(),
        }
    }

    /// The target to act on: the version given on the command line or, when
    /// none or an empty one is given, the one the project configuration names.
    pub fn resolve(apvmrc: &Option<ApvmRc>, version: &Option<String>) -> (res: Result<VersionTarget, ApvmError>)
        ensures
            match version {
                Some(v) if v@.len() > 0 => match spec_parse(v@) {
                    Some(t) => res matches Ok(r) && r@ == t,
                    None => res == Err::<VersionTarget, ApvmError>(ApvmError::UnknownOrigin),
                },
                _ => match apvmrc {
                    Some(rc) => res matches Ok(r) && r@ == rc.version_target@,
                    None => res == Err::<VersionTarget, ApvmError>(ApvmError::NoVersionSelected),
                },
            },
    {
        let given = match version {
            Some(v) => !v.as_str().is_empty(),
            None => false,
        };
        if given {
            let v = version.as_ref().unwrap();
            return Self::parse(v.as_str());
        }
        match apvmrc {
            Some(rc) => Ok(rc.version_target.clone()),
            None => Err(ApvmError::NoVersionSelected),
        }
    }
}

proof fn lemma_parse_prefixed(origin: Seq<char>, version: Seq<char>)
    requires
        !has_char(origin, ':'),
    ensures
        spec_parse(origin + ":"@ + version) == (if origin == "git"@ {
            Some(TargetSpec::Git(version))
        } else if origin == "npm"@ {
            Some(TargetSpec::Npm(version))
        } else if origin == "local"@ {
            Some(TargetSpec::Local(version))
        } else {
            None
        }),
{
    reveal_strlit(":");
    let s = origin + ":"@ + version;
    let i = origin.len() as int;
    assert(s[i] == ':');
    assert forall|j: int| 0 <= j < i implies s[j] != ':' by {
        assert(s[j] == origin[j]);
    }
    lemma_first_index(s, ':', i);
    assert(s.take(i) =~= origin);
    assert(s.skip(i + 1) =~= version);
}

/// Writing a target as `origin:version` and reading it back gives the same
/// target, for every target and every version text.
pub proof fn lemma_parse_origin_version(t: TargetSpec)
    ensures
        spec_parse(t.origin() + ":"@ + t.version()) == Some(t),
{
    reveal_strlit("npm");
    reveal_strlit("git");
    reveal_strlit("local");
    assert("npm"@[0] != "git"@[0]);
    assert("local"@[0] != "git"@[0] && "local"@[0] != "npm"@[0]);
    assert(!has_char(t.origin(), ':'));
    lemma_parse_prefixed(t.origin(), t.version());
}

/// Reading back how a target is shown gives the same target, for git targets
/// and for npm versions without `:`. (A local target is shown as its bare
/// path, which reads back as an npm version.)
pub proof fn lemma_parse_text(t: TargetSpec)
    requires
        t is Git || (t is Npm && !has_char(t.version(), ':')),
    ensures
        spec_parse(t.text()) == Some(t),
{
    reveal_strlit("git");
    reveal_strlit("git:");
    reveal_strlit(":");
    match t {
        TargetSpec::Git(v) => {
            assert("git:"@ =~= "git"@ + ":"@);
            assert("git:"@ + v =~= "git"@ + ":"@ + v);
            lemma_parse_prefixed("git"@, v);
        },
        _ => {},
    }
}

/// A specifier without `:` is an npm version; one whose text before its
/// first `:` is not `npm`, `git` or `local` is refused.
pub proof fn lemma_parse_bare_and_unknown(s: Seq<char>, i: int)
    ensures
        !has_char(s, ':') ==> spec_parse(s) == Some(TargetSpec::Npm(s)),
        is_first_index(s, ':', i) && s.take(i) != "npm"@ && s.take(i) != "git"@ && s.take(i) != "local"@
            ==> spec_parse(s) is None,
{
    if is_first_index(s, ':', i) {
        lemma_first_index(s, ':', i);
    }
}

} // verus!
