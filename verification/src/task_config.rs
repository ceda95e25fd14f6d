use crate::language_platform::PlatformType;
use crate::maps::{env_of, new_env, EnvView};
use crate::portable_path::PortablePath;
use crate::target::{scope_allowed_in_deps, Target};
use crate::task_options_config::{
    are_default_options, env_file_problem, reports_env_file, validate_env_file, TaskOptionsConfig,
};
use crate::validate::{error_at_root, index_path, new_error, new_error_at_index};
use rustc_hash::FxHashMap;
use schematic::ValidateError;
use vstd::prelude::*;
use vstd::string::StrSliceExecFns;

verus! {

/// What a task is for.
#[derive(Clone, Copy, Debug, PartialEq, Eq, Structural)]
pub enum TaskType {
    Build,
    Run,
    Test,
}

impl Default for TaskType {
    fn default() -> (kind: Self)
        ensures
            kind == TaskType::Test,
    {
        TaskType::Test
    }
}

/// The name of a task type as configuration files write it.
pub open spec fn task_type_name(kind: TaskType) -> Seq<char> {
    match kind {
        TaskType::Build => "build"@,
        TaskType::Run => "run"@,
        TaskType::Test => "test"@,
    }
}

impl TaskType {
    pub fn as_str(&self) -> (name: &'static str)
        ensures
            name@ == task_type_name(*self),
    {
        match self {
            TaskType::Build => "build",
            TaskType::Run => "run",
            TaskType::Test => "test",
        }
    }
}

/// A command or its arguments: left out, one string that a shell would
/// split, or the words one by one.
#[derive(Debug, PartialEq, Eq)]
pub enum TaskCommandArgs {
    Absent,
    String(String),
    Sequence(Vec<String>),
}

impl Clone for TaskCommandArgs {
    fn clone(&self) -> (copy: Self)
        ensures
            copy is Absent <==> *self is Absent,
            copy is String <==> *self is String,
            copy is Sequence <==> *self is Sequence,
            copy is String ==> copy->String_0 == self->String_0,
            copy is Sequence ==> copy->Sequence_0.deep_view() == self->Sequence_0.deep_view(),
    {
        match self {
            TaskCommandArgs::Absent => TaskCommandArgs::Absent,
            TaskCommandArgs::String(line) => TaskCommandArgs::String(line.clone()),
            TaskCommandArgs::Sequence(words) => {
                let copy = words.clone();
                assert(copy.deep_view() =~= words.deep_view());
                TaskCommandArgs::Sequence(copy)
            },
        }
    }
}

impl Default for TaskCommandArgs {
    fn default() -> (args: Self)
        ensures
            args is Absent,
    {
        TaskCommandArgs::Absent
    }
}

/// Whether `command` is written down but names nothing to run: a string
/// whose first word is empty, which is an empty string or one that starts
/// with a space, or a sequence without a first word or with an empty one.
/// A command that is left out is not empty in this sense.
pub open spec fn command_is_empty(command: TaskCommandArgs) -> bool {
    match command {
        TaskCommandArgs::Absent => false,
        TaskCommandArgs::String(line) => line@.len() == 0 || line@[0] == ' ',
        TaskCommandArgs::Sequence(words) => words@.len() == 0 || words@[0]@.len() == 0,
    }
}

/// The message for a command that names nothing to run.
pub open spec fn command_required_message() -> Seq<char> {
    "a command is required; use \"noop\" otherwise"@
}

/// The message for a dependency on a target of a scope that reaches an open
/// set of projects.
pub open spec fn unsupported_scope_message() -> Seq<char> {
    "target scope not supported as a task dependency"@
}

/// Whether `index` is the place of the first target of `deps` that a task
/// may not depend on.
pub open spec fn is_first_unsupported_dep(deps: Seq<Target>, index: int) -> bool {
    &&& 0 <= index < deps.len()
    &&& !scope_allowed_in_deps(deps[index].scope)
    &&& forall|k: int| 0 <= k < index ==> scope_allowed_in_deps(#[trigger] deps[k].scope)
}

/// Whether a task may depend on every target of `deps`.
pub open spec fn all_deps_supported(deps: Seq<Target>) -> bool {
    forall|k: int| 0 <= k < deps.len() ==> scope_allowed_in_deps(#[trigger] deps[k].scope)
}

/// Whether `error` reports a command that names nothing to run: by its
/// message, and at the command itself.
pub open spec fn reports_empty_command(error: ValidateError) -> bool {
    error == error_at_root(command_required_message()) && error.message@
        == command_required_message()
}

/// Whether `error` reports the first target of `deps` that a task may not
/// depend on: by its message, and at the target's index.
pub open spec fn reports_unsupported_dep(deps: Seq<Target>, error: ValidateError) -> bool {
    error.message@ == unsupported_scope_message() && exists|index: usize|
        is_first_unsupported_dep(deps, index as int) && error.path == #[trigger] index_path(index)
}

/// Tells whether a command is written down but names nothing to run.
pub fn is_empty_command(command: &TaskCommandArgs) -> (empty: bool)
    ensures
        empty == command_is_empty(*command),
{
    match command {
        TaskCommandArgs::Absent => false,
        TaskCommandArgs::String(line) => {
            let line = line.as_str();
            line.unicode_len() == 0 || line.get_char(0) == ' '
        },
        TaskCommandArgs::Sequence(words) => {
            words.len() == 0 || words[0].as_str().unicode_len() == 0
        },
    }
}

/// Accepts a command unless it is written down and names nothing to run.
/// The error tells the author to write `noop`, and points at the command
/// itself.
pub fn validate_command(command: &TaskCommandArgs) -> (result: Result<(), ValidateError>)
    ensures
        result is Ok <==> !command_is_empty(*command),
        result matches Err(error) ==> reports_empty_command(error),
{
    if is_empty_command(command) {
        Err(new_error("a command is required; use \"noop\" otherwise"))
    } else {
        Ok(())
    }
}

/// Finds the first target of `deps` that a task may not depend on.
pub fn first_unsupported_dep(deps: &Vec<Target>) -> (found: Option<usize>)
    ensures
        match found {
            Some(index) => is_first_unsupported_dep(deps@, index as int),
            None => all_deps_supported(deps@),
        },
{
    let mut i: usize = 0;
    while i < deps.len()
        invariant
            i <= deps.len(),
            forall|k: int| 0 <= k < i ==> scope_allowed_in_deps(#[trigger] deps[k].scope),
        decreases deps.len() - i,
    {
        if !deps[i].scope.allowed_in_deps() {
            return Some(i);
        }
        i += 1;
    }
    None
}

/// Accepts the dependencies of a task unless one of them has a scope that a
/// dependency may not have. The error points at the first such target by
/// its index in the list.
pub fn validate_deps(deps: &Vec<Target>) -> (result: Result<(), ValidateError>)
    ensures
        result is Ok <==> all_deps_supported(deps@),
        result matches Err(error) ==> reports_unsupported_dep(deps@, error),
{
    match first_unsupported_dep(deps) {
        Some(index) => {
            let error = new_error_at_index("target scope not supported as a task dependency", index);
            assert(!scope_allowed_in_deps(deps@[index as int].scope));
            Err(error)
        },
        None => Ok(()),
    }
}

/// One task as a project or the workspace configures it.
#[derive(Clone, Debug, PartialEq)]
pub struct TaskConfig {
    pub command: TaskCommandArgs,
    pub args: TaskCommandArgs,
    pub deps: Vec<Target>,
    pub env: FxHashMap<String, String>,
    pub global_inputs: Vec<PortablePath>,
    pub inputs: Vec<PortablePath>,
    pub local: bool,
    pub outputs: Vec<PortablePath>,
    pub options: TaskOptionsConfig,
    pub platform: PlatformType,
    pub type_of: Option<TaskType>,
}

impl Default for TaskConfig {
    /// A task that configures nothing.
    fn default() -> (task: Self)
        ensures
            task.command is Absent,
            task.args is Absent,
            task.deps@.len() == 0,
            env_of(task.env) == EnvView::empty(),
            task.global_inputs@.len() == 0,
            task.inputs@.len() == 0,
            !task.local,
            task.outputs@.len() == 0,
            are_default_options(task.options),
            task.platform == PlatformType::Unknown,
            task.type_of is None,
    {
        TaskConfig {
            command: TaskCommandArgs::Absent,
            args: TaskCommandArgs::Absent,
            deps: Vec::new(),
            env: new_env(),
            global_inputs: Vec::new(),
            inputs: Vec::new(),
            local: false,
            outputs: Vec::new(),
            options: TaskOptionsConfig::default(),
            platform: PlatformType::Unknown,
            type_of: None,
        }
    }
}

/// Whether `task` keeps the rules on its command, on its dependencies and
/// on the environment file of its options.
pub open spec fn task_is_valid(task: TaskConfig) -> bool {
    &&& !command_is_empty(task.command)
    &&& all_deps_supported(task.deps@)
    &&& (task.options.env_file matches Some(env_file) ==> env_file_problem(env_file) is None)
}

/// Whether `error` reports the first rule that `task` breaks: its command
/// comes first, then its dependencies, then its environment file.
pub open spec fn reports_first_broken_rule(task: TaskConfig, error: ValidateError) -> bool {
    if command_is_empty(task.command) {
        reports_empty_command(error)
    } else if !all_deps_supported(task.deps@) {
        reports_unsupported_dep(task.deps@, error)
    } else {
        task.options.env_file is Some && env_file_problem(task.options.env_file->0) is Some
            && reports_env_file(env_file_problem(task.options.env_file->0)->0, error)
    }
}

impl TaskConfig {
    /// Holds a task to the rules on its command, its dependencies and its
    /// environment file, in that order, and reports the first one broken.
    pub fn validate(&self) -> (result: Result<(), ValidateError>)
        ensures
            result is Ok <==> task_is_valid(*self),
            result matches Err(error) ==> reports_first_broken_rule(*self, error),
    {
        match validate_command(&self.command) {
            Err(error) => { return Err(error); },
            Ok(()) => {},
        }
        match validate_deps(&self.deps) {
            Err(error) => { return Err(error); },
            Ok(()) => {},
        }
        match &self.options.env_file {
            Some(env_file) => validate_env_file(env_file),
            None => Ok(()),
        }
    }
}

} // verus!
