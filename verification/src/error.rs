//! The errors of the version manager.
use vstd::prelude::*;
use crate::text::concat3;

verus! {

/// Why an operation of the version manager failed.
#[derive(Debug, PartialEq, Eq)]
pub enum ApvmError {
    /// A specifier `origin:version` whose origin is not `npm`, `git` or `local`.
    UnknownOrigin,
    /// No version was given and the project configuration names none.
    NoVersionSelected,
    /// No version was given to install and none is active.
    NoVersionForInstall,
    /// A directory name that is not the encoding of a specifier.
    InvalidName,
    /// A path without a parent directory.
    NoParent,
    /// A path without a final component.
    NoFileName,
    /// A path without a file stem.
    NoFileStem,
    /// A configuration file that is not valid JSON, with the parser's message.
    InvalidJson(String),
    /// The version asked for is not installed.
    NotInstalled,
    /// The version to remove is not installed.
    NothingToRemove,
    /// The version asked for is already installed.
    AlreadyInstalled,
    /// The branch or commit does not exist upstream.
    VersionNotFound(String),
    /// The release archive could not be fetched.
    FetchFailed,
    /// The archive held no top-level directory.
    NoInnerPackage,
    /// The shell could not be determined.
    UnknownShell,
    /// The home directory could not be determined.
    NoHome,
}

impl ApvmError {
    /// The text shown to the user for this error.
    pub open spec fn spec_message(&self) -> Seq<char> {
        match self {
            ApvmError::UnknownOrigin => "Cannot convert string to VersionTarget"@,
            ApvmError::NoVersionSelected => "No version selected"@,
            ApvmError::NoVersionForInstall => "No version selected for install"@,
            ApvmError::InvalidName => "Invalid encoded name"@,
            ApvmError::NoParent => "Unable to find parent"@,
            ApvmError::NoFileName => "Cannot get file name"@,
            ApvmError::NoFileStem => "Cannot get file stem"@,
            ApvmError::InvalidJson(m) => m@,
            ApvmError::NotInstalled => "Version not installed"@,
            ApvmError::NothingToRemove => "Not installed"@,
            ApvmError::AlreadyInstalled => "Already installed"@,
            ApvmError::VersionNotFound(v) => "Version '"@ + v@ + "' not found"@,
            ApvmError::FetchFailed => "Unable to fetch version"@,
            ApvmError::NoInnerPackage => "Unable to find inner package"@,
            ApvmError::UnknownShell => "Unable to determine shell. Please specify using -s \"bash\""@,
            ApvmError::NoHome => "Cannot find apvm_home. Please set $APVM_HOME variable manually"@,
        }
    }

    /// The text shown to the user for this error.
    pub fn message(&self) -> (res: String)
        ensures
            res@ == self.spec_message(),
    {
        match self {
            ApvmError::UnknownOrigin => "Cannot convert string to VersionTarget".to_owned(),
            ApvmError::NoVersionSelected => "No version selected".to_owned(),
            ApvmError::NoVersionForInstall => "No version selected for install".to_owned(),
            ApvmError::InvalidName => "Invalid encoded name".to_owned(),
            ApvmError::NoParent => "Unable to find parent".to_owned(),
            ApvmError::NoFileName => "Cannot get file name".to_owned(),
            ApvmError::NoFileStem => "Cannot get file stem".to_owned(),
            ApvmError::InvalidJson(m) => m.clone(),
            ApvmError::NotInstalled => "Version not installed".to_owned(),
            ApvmError::NothingToRemove => "Not installed".to_owned(),
            ApvmError::AlreadyInstalled => "Already installed".to_owned(),
            ApvmError::VersionNotFound(v) => concat3("Version '", v.as_str(), "' not found"),
            ApvmError::FetchFailed => "Unable to fetch version".to_owned(),
            ApvmError::NoInnerPackage => "Unable to find inner package".to_owned(),
            ApvmError::UnknownShell => "Unable to determine shell. Please specify using -s \"bash\"".to_owned(),
            ApvmError::NoHome => "Cannot find apvm_home. Please set $APVM_HOME variable manually".to_owned(),
        }
    }
}

} // verus!
