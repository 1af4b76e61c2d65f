//! The version of Atlaspack that is active for the current project.
use vstd::prelude::*;
use crate::config::Paths;
use crate::error::ApvmError;
use crate::origin::{spec_parse, VersionTarget};
use crate::package::PackageDescriptor;

verus! {

/// Where the active version was selected.
#[derive(Debug, Clone, Copy, PartialEq, Eq)]
pub enum ActiveType {
    Global,
    NodeModules,
}

/// The active version and its package.
#[derive(Debug, PartialEq)]
pub struct ActiveVersion {
    pub active_type: ActiveType,
    pub package: PackageDescriptor,
}

impl ActiveVersion {
    /// The version linked into the project's `node_modules`, from the text
    /// of the version file written there (`None` when there is none).
    pub fn detect(paths: &Paths, node_modules_version: Option<String>) -> (res: Result<Option<Self>, ApvmError>)
        ensures
            match node_modules_version {
                None => res == Ok::<Option<Self>, ApvmError>(None),
                Some(v) => match spec_parse(v@) {
                    Some(t) => res matches Ok(Some(a)) && a.active_type == ActiveType::NodeModules
                        && a.package.describes(paths.versions@, t),
                    None => res == Err::<Option<Self>, ApvmError>(ApvmError::UnknownOrigin),
                },
            },
    {
        if let Some(version) = node_modules_version {
            return Ok(Some(ActiveVersion {
                active_type: ActiveType::NodeModules,
                package: PackageDescriptor::parse(paths, &VersionTarget::parse(version.as_str())?)?,
            }));
        }
        Ok(None)
    }
}

} // verus!
