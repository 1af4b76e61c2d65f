//! Installed versions and where they live on disk.
use vstd::prelude::*;
use crate::config::Paths;
use crate::error::ApvmError;
use crate::name::{
    decode, encode, spec_decode, spec_encode, lemma_decode_encode, lemma_encode_alphabet, lemma_encode_injective, is_name_char,
};
use crate::origin::{spec_parse, TargetSpec, VersionTarget, lemma_parse_origin_version};
use crate::path::{join, spec_join, spec_parent, spec_file_name, is_normal_component, PathExt};
use crate::text::{concat3, has_char};

verus! {

/// A version of Atlaspack together with the directory it is (or would be)
/// installed in: `$APVM_DIR/versions/<origin>/<encoded version>`.
#[derive(Debug, PartialEq)]
pub struct PackageDescriptor {
    pub version_target: VersionTarget,
    pub origin: String,
    pub version: String,
    pub version_encoded: String,
    pub path: String,
}

/// What the file system says of a package's path.
#[derive(Debug, Clone, Copy)]
pub struct PathProbe {
    /// The path is a symbolic link.
    pub is_symlink: bool,
    /// The path is a directory.
    pub is_dir: bool,
    /// Something exists at the path.
    pub is_present: bool,
}

/// The installation directory of a target.
pub open spec fn spec_package_path(versions: Seq<char>, t: TargetSpec) -> Seq<char> {
    spec_join(spec_join(versions, t.origin()), spec_encode(t.version()))
}

/// The target a directory under `versions/<origin>/` stands for.
pub open spec fn spec_target_of_dir(path: Seq<char>) -> Result<TargetSpec, ApvmError> {
    match spec_file_name(path) {
        None => Err(ApvmError::NoFileName),
        Some(encoded) => match spec_decode(encoded) {
            None => Err(ApvmError::InvalidName),
            Some(name) => match spec_parent(path) {
                None => Err(ApvmError::NoParent),
                Some(parent) => match spec_file_name(parent) {
                    None => Err(ApvmError::NoFileName),
                    Some(kind) => match spec_parse(kind + ":"@ + name) {
                        None => Err(ApvmError::UnknownOrigin),
                        Some(t) => Ok(t),
                    },
                },
            },
        },
    }
}

impl PackageDescriptor {
    /// This descriptor is the one of target `t` under the `versions` directory.
    pub open spec fn describes(&self, versions: Seq<char>, t: TargetSpec) -> bool {
        &&& self.version_target@ == t
        &&& self.origin@ == t.origin()
        &&& self.version@ == t.version()
        &&& self.version_encoded@ == spec_encode(t.version())
        &&& self.path@ == spec_package_path(versions, t)
    }

    /// What `Path` says of this descriptor's directory: its final component
    /// is the encoded version, and its parent's final component the origin;
    /// for an empty version the directory is the origin's own.
    pub open spec fn path_parts_hold(&self) -> bool {
        &&& self.version_encoded@.len() == 0 ==> spec_file_name(self.path@) == Some(self.origin@)
        &&& is_normal_component(self.version_encoded@) ==> spec_file_name(self.path@) == Some(self.version_encoded@)
        &&& is_normal_component(self.version_encoded@) ==> spec_parent(self.path@) is Some
        &&& is_normal_component(self.version_encoded@) ==> spec_file_name(spec_parent(self.path@).unwrap()) == Some(self.origin@)
    }

    /// Describes a target. The directory need not exist.
    pub fn parse(paths: &Paths, version_target: &VersionTarget) -> (res: Result<Self, ApvmError>)
        ensures
            res matches Ok(p) && p.describes(paths.versions@, version_target@) && p.path_parts_hold(),
    {
        let version = version_target.version();
        let version_encoded = encode(version);
        let origin_dir = join(paths.versions.as_str(), version_target.origin());
        let path = join(origin_dir.as_str(), version_encoded.as_str());
        proof {
            reveal_strlit("npm");
            reveal_strlit("git");
            reveal_strlit("local");
            let o = version_target@.origin();
            assert(!has_char(o, '/') && !has_char(o, '\\') && !has_char(o, ':'));
            assert(o != "."@ && o != ".."@) by {
                reveal_strlit(".");
                reveal_strlit("..");
                assert(o.len() != 1 && o.len() != 2);
            }
            assert(is_normal_component(o));
        }
        Ok(PackageDescriptor {
            version_target: version_target.clone(),
            origin: version_target.origin().to_owned(),
            version: version.to_owned(),
            version_encoded,
            path,
        })
    }

    /// Recognises the version installed in a directory under
    /// `versions/<origin>/`. The path must already be resolved: the caller
    /// follows the `global` link first.
    pub fn parse_from_dir(paths: &Paths, path: &String) -> (res: Result<Self, ApvmError>)
        ensures
            match spec_target_of_dir(path@) {
                Ok(t) => res matches Ok(p) && p.describes(paths.versions@, t) && p.path_parts_hold(),
                Err(e) => res == Err::<Self, ApvmError>(e),
            },
    {
        let name_encoded = path.try_file_name()?;
        let name = match decode(name_encoded.as_str()) {
            Some(n) => n,
            None => return Err(ApvmError::InvalidName),
        };
        let parent = path.try_parent()?;
        let parent_type = parent.try_file_name()?;
        let specifier = concat3(parent_type.as_str(), ":", name.as_str());
        let target = VersionTarget::parse(specifier.as_str())?;
        PackageDescriptor::parse(paths, &target)
    }

    /// Whether the version is installed: its path is a link, a directory or
    /// anything else that exists.
    pub fn path_exists(&self, probe: &PathProbe) -> (res: Result<bool, ApvmError>)
        ensures
            res == Ok::<bool, ApvmError>(probe.is_symlink || probe.is_dir || probe.is_present),
    {
        if probe.is_symlink {
            return Ok(true);
        }
        if probe.is_dir {
            return Ok(true);
        }
        if probe.is_present {
            return Ok(true);
        }
        Ok(false)
    }
}

/// The directory name of a non-empty version is one ordinary path component.
proof fn lemma_encoded_is_component(version: Seq<char>)
    requires
        version.len() > 0,
    ensures
        is_normal_component(spec_encode(version)),
{
    let e = spec_encode(version);
    crate::name::lemma_encode_nonempty(version);
    lemma_encode_alphabet(version);
    assert(!has_char(e, '/')) by {
        if has_char(e, '/') {
            let i = choose|i: int| 0 <= i < e.len() && e[i] == '/';
            assert(is_name_char(e[i]));
        }
    }
    assert(!has_char(e, '\\')) by {
        if has_char(e, '\\') {
            let i = choose|i: int| 0 <= i < e.len() && e[i] == '\\';
            assert(is_name_char(e[i]));
        }
    }
    assert(!has_char(e, ':')) by {
        if has_char(e, ':') {
            let i = choose|i: int| 0 <= i < e.len() && e[i] == ':';
            assert(is_name_char(e[i]));
        }
    }
    reveal_strlit(".");
    reveal_strlit("..");
    assert(is_name_char(e[0]));
    assert(e != "."@);
    assert(e != ".."@);
}

/// A version recorded by `PackageDescriptor::parse` is recognised again by
/// `PackageDescriptor::parse_from_dir` from its directory alone, for every
/// target whose version is not empty.
pub proof fn lemma_parse_from_dir_roundtrip(p: PackageDescriptor, versions: Seq<char>, t: TargetSpec)
    requires
        p.describes(versions, t),
        p.path_parts_hold(),
        t.version().len() > 0,
    ensures
        spec_target_of_dir(p.path@) == Ok::<TargetSpec, ApvmError>(t),
{
    lemma_encoded_is_component(t.version());
    lemma_decode_encode(t.version());
    lemma_parse_origin_version(t);
}

/// No origin name (`npm`, `git`, `local`) is the directory name of a version.
proof fn lemma_origin_is_no_encoding(t: TargetSpec, version: Seq<char>)
    ensures
        spec_encode(version) != t.origin(),
{
    reveal_strlit("npm");
    reveal_strlit("git");
    reveal_strlit("local");
    lemma_decode_encode(version);
    assert(spec_decode("npm"@) is None);
    assert(spec_decode("git"@) is None);
    assert("local"@.skip(4).len() == 1);
    assert(spec_decode("local"@) is None);
}

/// Two version targets never share an install directory: descriptors of
/// distinct targets have distinct paths (their origins or the encodings of
/// their versions differ; an empty version is installed in the origin's
/// directory itself, which no encoded name can be).
pub proof fn lemma_distinct_targets_distinct_paths(
    p1: PackageDescriptor,
    t1: TargetSpec,
    p2: PackageDescriptor,
    t2: TargetSpec,
    versions: Seq<char>,
)
    requires
        p1.describes(versions, t1),
        p1.path_parts_hold(),
        p2.describes(versions, t2),
        p2.path_parts_hold(),
        t1 != t2,
    ensures
        p1.path@ != p2.path@,
{
    if p1.path@ == p2.path@ {
        let v1 = t1.version();
        let v2 = t2.version();
        if v1.len() > 0 {
            lemma_encoded_is_component(v1);
        } else {
            assert(v1 =~= Seq::<char>::empty());
        }
        if v2.len() > 0 {
            lemma_encoded_is_component(v2);
        } else {
            assert(v2 =~= Seq::<char>::empty());
        }
        if v1.len() > 0 && v2.len() == 0 {
            lemma_origin_is_no_encoding(t2, v1);
        } else if v1.len() == 0 && v2.len() > 0 {
            lemma_origin_is_no_encoding(t1, v2);
        } else if v1.len() > 0 && v2.len() > 0 {
            assert(spec_encode(v1) == spec_encode(v2));
            lemma_encode_injective(v1, v2);
        }
        assert(v1 == v2);
        assert(t1.origin() == t2.origin());
        reveal_strlit("npm");
        reveal_strlit("git");
        reveal_strlit("local");
        assert("npm"@ != "git"@ && "npm"@ != "local"@ && "git"@ != "local"@) by {
            assert("npm"@[0] != "git"@[0]);
            assert("local"@.len() != 3);
        }
        match t1 {
            TargetSpec::Npm(_) => assert(t2 is Npm),
            TargetSpec::Git(_) => assert(t2 is Git),
            TargetSpec::Local(_) => assert(t2 is Local),
        }
    }
}

} // verus!
