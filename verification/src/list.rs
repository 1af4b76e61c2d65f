//! `apvm list`: the installed versions, the active one highlighted.
use vstd::prelude::*;
use crate::active::ActiveVersion;
use crate::origin::{TargetSpec, VersionTarget};
use crate::package::PackageDescriptor;
use crate::text::{concat3, push_str, str_eq};

verus! {

/// The line listing one installed version: `* <prefix><name>`, in bold blue
/// when it is the active version.
pub open spec fn spec_list_line(name: Seq<char>, active: bool, prefix: Seq<char>) -> Seq<char> {
    if active {
        "\x1b[34m"@ + "\x1b[1m"@ + "* "@ + prefix + name + "\x1b[39m"@ + "\x1b[22m"@
    } else {
        "* "@ + prefix + name
    }
}

/// The line listing one installed version.
pub fn list_line(name: &str, active: bool, prefix: &str) -> (res: String)
    ensures
        res@ == spec_list_line(name@, active, prefix@),
{
    if active {
        let mut s = concat3("\x1b[34m", "\x1b[1m", "* ");
        push_str(&mut s, prefix);
        push_str(&mut s, name);
        push_str(&mut s, "\x1b[39m");
        push_str(&mut s, "\x1b[22m");
        s
    } else {
        concat3("* ", prefix, name)
    }
}

/// Two descriptors name the same package: all their fields agree.
pub open spec fn same_package(a: PackageDescriptor, b: PackageDescriptor) -> bool {
    &&& a.version_target@ == b.version_target@
    &&& a.origin@ == b.origin@
    &&& a.version@ == b.version@
    &&& a.version_encoded@ == b.version_encoded@
    &&& a.path@ == b.path@
}

fn same_target(a: &VersionTarget, b: &VersionTarget) -> (r: bool)
    ensures
        r == (a@ == b@),
{
    match (a, b) {
        (VersionTarget::Npm(x), VersionTarget::Npm(y)) => str_eq(x.as_str(), y.as_str()),
        (VersionTarget::Git(x), VersionTarget::Git(y)) => str_eq(x.as_str(), y.as_str()),
        (VersionTarget::Local(x), VersionTarget::Local(y)) => str_eq(x.as_str(), y.as_str()),
        _ => false,
    }
}

/// Whether a listed package is the active version, and so highlighted.
pub fn is_active(active: &Option<ActiveVersion>, package: &PackageDescriptor) -> (r: bool)
    ensures
        r == (active matches Some(a) && same_package(a.package, *package)),
{
    match active {
        Some(a) => {
            let p = &a.package;
            same_target(&p.version_target, &package.version_target) && str_eq(p.origin.as_str(), package.origin.as_str())
                && str_eq(p.version.as_str(), package.version.as_str()) && str_eq(
                p.version_encoded.as_str(),
                package.version_encoded.as_str(),
            ) && str_eq(p.path.as_str(), package.path.as_str())
        },
        None => false,
    }
}

/// Two descriptors under one `versions` directory name the same package
/// exactly when they describe the same target: a listed version is shown as
/// active only when it is the active target itself.
pub proof fn lemma_same_package_iff_same_target(
    a: PackageDescriptor,
    t1: TargetSpec,
    b: PackageDescriptor,
    t2: TargetSpec,
    versions: Seq<char>,
)
    requires
        a.describes(versions, t1),
        b.describes(versions, t2),
    ensures
        same_package(a, b) <==> t1 == t2,
{
}

} // verus!
