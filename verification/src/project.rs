use crate::dependency::DependencyConfig;
use crate::file_group::FileGroup;
use crate::id::Id;
use crate::language_platform::{LanguageType, PlatformType, ProjectType};
use crate::project_config::{InheritedTasksResult, ProjectConfig};
use rustc_hash::FxHashMap;
use vstd::prelude::*;

verus! {

/// One project of the workspace, resolved. `T` is the collection of tasks
/// that the task resolver made for it.
#[derive(Debug)]
pub struct Project<T> {
    /// The project's identifier.
    pub id: Id,
    /// The project's directory, from the workspace root.
    pub source: String,
    /// The project's directory, in full.
    pub root: String,
    pub language: LanguageType,
    pub platform: PlatformType,
    pub type_of: ProjectType,
    /// The projects that this one depends on.
    pub dependencies: FxHashMap<Id, DependencyConfig>,
    /// The file groups, each with workspace relative patterns.
    pub file_groups: FxHashMap<Id, FileGroup>,
    pub tasks: T,
    /// The inherited configuration that applied, if one was asked for.
    pub inherited: Option<InheritedTasksResult>,
    /// The project's own configuration as it stood at the end.
    pub config: ProjectConfig,
}

} // verus!
