//! Resolves what one project of a workspace finally is: its dependencies,
//! file groups and tasks, from the project's own configuration laid over
//! the configuration that the workspace hands down.

pub mod common_state;
pub mod dependency;
pub mod file_group;
pub mod hasher_config;
pub mod id;
pub mod id_map;
pub mod language_platform;
pub mod maps;
pub mod npm;
pub mod portable_path;
pub mod project;
pub mod project_builder;
pub mod project_builder_error;
pub mod project_config;
pub mod resolution;
pub mod target;
pub mod task_config;
pub mod task_options_config;
pub mod validate;

pub use crate::common_state::CommonState;
pub use crate::dependency::{DependencyConfig, DependencyScope, DependencySource, ProjectDependsOn};
pub use crate::file_group::FileGroup;
pub use crate::hasher_config::{HasherConfig, HasherOptimization, HasherWalkStrategy};
pub use crate::id::Id;
pub use crate::id_map::IdMap;
pub use crate::language_platform::{LanguageType, PlatformType, ProjectType};
pub use crate::maps::FileGroupsMap;
pub use crate::portable_path::{PathKind, PortablePath};
pub use crate::project::Project;
pub use crate::project_builder::{BuilderPhase, ProjectBuilder, TasksRequest};
pub use crate::project_builder_error::ProjectBuilderError;
pub use crate::project_config::{
    InheritedTasksConfig, InheritedTasksOverride, InheritedTasksResult, ProjectConfig,
    TasksConfigsMap,
};
pub use crate::target::{Target, TargetScope};
pub use crate::task_config::{TaskCommandArgs, TaskConfig, TaskType};
pub use crate::task_options_config::{
    ConfigValue, TaskMergeStrategy, TaskOptionAffectedFiles, TaskOptionEnvFile, TaskOptionsConfig,
    TaskOutputStyle,
};
