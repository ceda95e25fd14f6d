use crate::dependency::ProjectDependsOn;
use crate::id::Id;
use crate::id_map::IdMap;
use crate::language_platform::{LanguageType, PlatformType, ProjectType};
use crate::maps::{file_inputs_of, new_file_inputs, FileGroupsMap, FileInputsView};
use crate::task_config::TaskConfig;
use vstd::prelude::*;

verus! {

/// The tasks that configuration declares, by identifier.
pub type TasksConfigsMap = IdMap<TaskConfig>;

/// Which inherited tasks a project takes, and under which names.
#[derive(Clone, Debug, PartialEq)]
pub struct InheritedTasksOverride {
    pub except: Vec<Id>,
    pub only: Option<Vec<Id>>,
    pub rename: Vec<(Id, Id)>,
}

/// What a project's own configuration file says, as far as resolving the
/// project reads it.
#[derive(Clone, Debug, PartialEq)]
pub struct ProjectConfig {
    pub depends_on: Vec<ProjectDependsOn>,
    pub file_groups: FileGroupsMap,
    pub language: LanguageType,
    pub platform: Option<PlatformType>,
    pub tags: Vec<Id>,
    pub tasks: TasksConfigsMap,
    pub type_of: ProjectType,
    pub inherited_tasks: InheritedTasksOverride,
}

/// The part of the workspace's configuration that projects inherit.
#[derive(Clone, Debug, PartialEq)]
pub struct InheritedTasksConfig {
    pub file_groups: FileGroupsMap,
    pub tasks: TasksConfigsMap,
}

/// The inherited configuration that applies to one project, with the names
/// of the layers it was merged from, the most general first.
#[derive(Clone, Debug, PartialEq)]
pub struct InheritedTasksResult {
    pub config: InheritedTasksConfig,
    pub order: Vec<String>,
}

/// Whether `config` is what a project without a configuration file has:
/// nothing declared, nothing known.
pub open spec fn is_empty_config(config: ProjectConfig) -> bool {
    &&& config.depends_on@.len() == 0
    &&& file_inputs_of(config.file_groups) == FileInputsView::empty()
    &&& config.language == LanguageType::Unknown
    &&& config.platform is None
    &&& config.tags@.len() == 0
    &&& config.tasks@ == Map::<Seq<char>, TaskConfig>::empty()
    &&& config.type_of == ProjectType::Unknown
    &&& config.inherited_tasks.except@.len() == 0
    &&& config.inherited_tasks.only is None
    &&& config.inherited_tasks.rename@.len() == 0
}

impl Default for InheritedTasksOverride {
    fn default() -> (choice: Self)
        ensures
            choice.except@.len() == 0,
            choice.only is None,
            choice.rename@.len() == 0,
    {
        InheritedTasksOverride { except: Vec::new(), only: None, rename: Vec::new() }
    }
}

impl Default for ProjectConfig {
    fn default() -> (config: Self)
        ensures
            is_empty_config(config),
    {
        ProjectConfig {
            depends_on: Vec::new(),
            file_groups: new_file_inputs(),
            language: LanguageType::Unknown,
            platform: None,
            tags: Vec::new(),
            tasks: IdMap::new(),
            type_of: ProjectType::Unknown,
            inherited_tasks: InheritedTasksOverride::default(),
        }
    }
}

impl Default for InheritedTasksConfig {
    fn default() -> (config: Self)
        ensures
            file_inputs_of(config.file_groups) == FileInputsView::empty(),
            config.tasks@ == Map::<Seq<char>, TaskConfig>::empty(),
    {
        InheritedTasksConfig { file_groups: new_file_inputs(), tasks: IdMap::new() }
    }
}

} // verus!
