use crate::portable_path::{PathKind, PortablePath};
use crate::validate::{error_at_root, new_error};
use schematic::ValidateError;
use vstd::prelude::*;

verus! {

/// A scalar as a configuration file holds it, as far as task options read
/// one: a boolean, a string, or anything else.
#[derive(Debug, PartialEq, Eq)]
pub enum ConfigValue {
    Bool(bool),
    String(String),
    Other,
}

/// How the files that a run touched reach a task.
#[derive(Clone, Copy, Debug, PartialEq, Eq, Structural)]
pub enum TaskOptionAffectedFiles {
    /// As arguments of the command.
    Args,
    /// In an environment variable.
    Env,
    /// Both ways, or neither.
    Enabled(bool),
}

/// The option that `value` writes down, if it writes one: a boolean stands
/// for itself, and of the strings only `args` and `env` name an option.
pub open spec fn affected_files_of(value: ConfigValue) -> Option<TaskOptionAffectedFiles> {
    match value {
        ConfigValue::Bool(enabled) => Some(TaskOptionAffectedFiles::Enabled(enabled)),
        ConfigValue::String(text) => if text@ == "args"@ {
            Some(TaskOptionAffectedFiles::Args)
        } else if text@ == "env"@ {
            Some(TaskOptionAffectedFiles::Env)
        } else {
            None
        },
        ConfigValue::Other => None,
    }
}

/// The value that writes `option` down.
pub open spec fn affected_files_value(option: TaskOptionAffectedFiles, value: ConfigValue) -> bool {
    match option {
        TaskOptionAffectedFiles::Args => value matches ConfigValue::String(text) && text@ == "args"@,
        TaskOptionAffectedFiles::Env => value matches ConfigValue::String(text) && text@ == "env"@,
        TaskOptionAffectedFiles::Enabled(enabled) => value == ConfigValue::Bool(enabled),
    }
}

impl TaskOptionAffectedFiles {
    /// Reads the option from a configuration value, and says what was
    /// expected where the value is none of the three forms.
    pub fn from_value(value: &ConfigValue) -> (result: Result<TaskOptionAffectedFiles, String>)
        ensures
            match affected_files_of(*value) {
                Some(option) => result == Ok::<TaskOptionAffectedFiles, String>(option),
                None => result matches Err(message) && message@
                    == "expected `args`, `env`, or a boolean"@,
            },
    {
        match value {
            ConfigValue::Bool(enabled) => Ok(TaskOptionAffectedFiles::Enabled(*enabled)),
            ConfigValue::String(text) => {
                if *text == "args".to_owned() {
                    Ok(TaskOptionAffectedFiles::Args)
                } else if *text == "env".to_owned() {
                    Ok(TaskOptionAffectedFiles::Env)
                } else {
                    Err("expected `args`, `env`, or a boolean".to_owned())
                }
            },
            ConfigValue::Other => Err("expected `args`, `env`, or a boolean".to_owned()),
        }
    }

    /// Writes the option down as a configuration value.
    pub fn to_value(&self) -> (value: ConfigValue)
        ensures
            affected_files_value(*self, value),
    {
        match self {
            TaskOptionAffectedFiles::Args => ConfigValue::String("args".to_owned()),
            TaskOptionAffectedFiles::Env => ConfigValue::String("env".to_owned()),
            TaskOptionAffectedFiles::Enabled(enabled) => ConfigValue::Bool(*enabled),
        }
    }
}

/// Reading an option back from the value that writes it down gives the
/// option again.
pub proof fn affected_files_round_trip(option: TaskOptionAffectedFiles, value: ConfigValue)
    requires
        affected_files_value(option, value),
    ensures
        affected_files_of(value) == Some(option),
{
    reveal_strlit("args");
    reveal_strlit("env");
    if option is Env {
        assert("env"@[0] != "args"@[0]);
    }
}

/// Whether a task loads an environment file, and which.
#[derive(Debug, PartialEq, Eq)]
pub enum TaskOptionEnvFile {
    Enabled(bool),
    File(PortablePath),
}

impl Clone for TaskOptionEnvFile {
    fn clone(&self) -> (copy: Self)
        ensures
            copy == *self,
    {
        match self {
            TaskOptionEnvFile::Enabled(enabled) => TaskOptionEnvFile::Enabled(*enabled),
            TaskOptionEnvFile::File(path) => TaskOptionEnvFile::File(path.clone()),
        }
    }
}

/// Why an environment file cannot be given in this form.
#[derive(Clone, Copy, Debug, PartialEq, Eq, Structural)]
pub enum EnvFileProblem {
    /// The path is the name of an environment variable.
    EnvVar,
    /// The path is a glob.
    Glob,
}

/// What is wrong with `env_file`, if anything: a file has to be given as a
/// literal path.
pub open spec fn env_file_problem(env_file: TaskOptionEnvFile) -> Option<EnvFileProblem> {
    match env_file {
        TaskOptionEnvFile::Enabled(_) => None,
        TaskOptionEnvFile::File(path) => match path@.kind {
            PathKind::EnvVar => Some(EnvFileProblem::EnvVar),
            PathKind::ProjectGlob | PathKind::WorkspaceGlob => Some(EnvFileProblem::Glob),
            PathKind::ProjectFile | PathKind::WorkspaceFile => None,
        },
    }
}

/// The message that reports `problem`.
pub open spec fn env_file_message(problem: EnvFileProblem) -> Seq<char> {
    match problem {
        EnvFileProblem::EnvVar => "environment variables are not supported"@,
        EnvFileProblem::Glob => "globs are not supported"@,
    }
}

/// Whether `error` reports `problem`: by its message, and at the option
/// itself.
pub open spec fn reports_env_file(problem: EnvFileProblem, error: ValidateError) -> bool {
    error == error_at_root(env_file_message(problem)) && error.message@ == env_file_message(
        problem,
    )
}

/// Finds what is wrong with an environment file option.
pub fn check_env_file(env_file: &TaskOptionEnvFile) -> (problem: Option<EnvFileProblem>)
    ensures
        problem == env_file_problem(*env_file),
{
    match env_file {
        TaskOptionEnvFile::Enabled(_) => None,
        TaskOptionEnvFile::File(path) => match path.kind() {
            PathKind::EnvVar => Some(EnvFileProblem::EnvVar),
            PathKind::ProjectGlob | PathKind::WorkspaceGlob => Some(EnvFileProblem::Glob),
            PathKind::ProjectFile | PathKind::WorkspaceFile => None,
        },
    }
}

/// Accepts an environment file option unless it names a file by an
/// environment variable or by a glob; the error carries the message of the
/// problem and points at the option itself.
pub fn validate_env_file(env_file: &TaskOptionEnvFile) -> (result: Result<(), ValidateError>)
    ensures
        match env_file_problem(*env_file) {
            None => result is Ok,
            Some(problem) => result matches Err(error) && reports_env_file(problem, error),
        },
{
    match check_env_file(env_file) {
        None => Ok(()),
        Some(EnvFileProblem::EnvVar) => Err(new_error("environment variables are not supported")),
        Some(EnvFileProblem::Glob) => Err(new_error("globs are not supported")),
    }
}

/// How a task's output reaches the terminal.
#[derive(Clone, Copy, Debug, PartialEq, Eq, Structural)]
pub enum TaskOutputStyle {
    Buffer,
    BufferOnlyFailure,
    Hash,
    /// Nothing is shown.
    Silent,
    Stream,
}

impl Default for TaskOutputStyle {
    fn default() -> (style: Self)
        ensures
            style == TaskOutputStyle::Buffer,
    {
        TaskOutputStyle::Buffer
    }
}

/// How a local list combines with the inherited list of the same field.
#[derive(Clone, Copy, Debug, PartialEq, Eq, Structural)]
pub enum TaskMergeStrategy {
    /// The inherited items, then the local ones.
    Append,
    /// The local items, then the inherited ones.
    Prepend,
    /// The local items alone, where there are any.
    Replace,
}

impl Default for TaskMergeStrategy {
    fn default() -> (strategy: Self)
        ensures
            strategy == TaskMergeStrategy::Append,
    {
        TaskMergeStrategy::Append
    }
}

/// The list that `strategy` makes of an inherited list and a local one.
/// Each side keeps its order and nothing is dropped as a duplicate.
pub open spec fn merged<T>(strategy: TaskMergeStrategy, global: Seq<T>, local: Seq<T>) -> Seq<T> {
    match strategy {
        TaskMergeStrategy::Append => global + local,
        TaskMergeStrategy::Prepend => local + global,
        TaskMergeStrategy::Replace => if local.len() > 0 {
            local
        } else {
            global
        },
    }
}

/// The value of a scalar option: the local one where it is set, else the
/// inherited one, else the default.
pub open spec fn merged_scalar<T>(global: Option<T>, local: Option<T>, default: T) -> T {
    match local {
        Some(value) => value,
        None => match global {
            Some(value) => value,
            None => default,
        },
    }
}

impl TaskMergeStrategy {
    /// Combines an inherited list with a local one.
    pub fn merge<T>(self, global: Vec<T>, local: Vec<T>) -> (out: Vec<T>)
        ensures
            out@ == merged(self, global@, local@),
    {
        let mut global = global;
        let mut local = local;
        match self {
            TaskMergeStrategy::Append => {
                global.append(&mut local);
                global
            },
            TaskMergeStrategy::Prepend => {
                local.append(&mut global);
                local
            },
            TaskMergeStrategy::Replace => {
                if local.len() > 0 {
                    local
                } else {
                    global
                }
            },
        }
    }
}

/// Combines an inherited scalar option with a local one.
pub fn merge_scalar<T>(global: Option<T>, local: Option<T>, default: T) -> (out: T)
    ensures
        out == merged_scalar(global, local, default),
{
    match local {
        Some(value) => value,
        None => match global {
            Some(value) => value,
            None => default,
        },
    }
}

/// Appending one way is prepending the other way round.
pub proof fn append_mirrors_prepend<T>(global: Seq<T>, local: Seq<T>)
    ensures
        merged(TaskMergeStrategy::Append, global, local) == merged(
            TaskMergeStrategy::Prepend,
            local,
            global,
        ),
{
}

/// Appending and prepending keep every item of both sides, and replacing
/// keeps exactly one side.
pub proof fn merge_keeps_items<T>(strategy: TaskMergeStrategy, global: Seq<T>, local: Seq<T>)
    ensures
        strategy != TaskMergeStrategy::Replace ==> merged(strategy, global, local).len()
            == global.len() + local.len(),
        strategy == TaskMergeStrategy::Replace ==> merged(strategy, global, local) == local
            || merged(strategy, global, local) == global,
        local.len() == 0 ==> merged(strategy, global, local) == global,
        global.len() == 0 ==> merged(strategy, global, local) == local,
{
    assert(local.len() == 0 ==> local =~= Seq::empty());
    assert(global.len() == 0 ==> global =~= Seq::empty());
    assert(global + Seq::<T>::empty() =~= global);
    assert(Seq::<T>::empty() + global =~= global);
    assert(local + Seq::<T>::empty() =~= local);
    assert(Seq::<T>::empty() + local =~= local);
}

/// The options of one task.
#[derive(Debug, PartialEq, Eq)]
pub struct TaskOptionsConfig {
    pub affected_files: Option<TaskOptionAffectedFiles>,
    pub cache: bool,
    pub env_file: Option<TaskOptionEnvFile>,
    pub merge_args: TaskMergeStrategy,
    pub merge_deps: TaskMergeStrategy,
    pub merge_env: TaskMergeStrategy,
    pub merge_inputs: TaskMergeStrategy,
    pub merge_outputs: TaskMergeStrategy,
    pub output_style: TaskOutputStyle,
    pub persistent: bool,
    pub retry_count: u8,
    pub run_deps_in_parallel: bool,
    pub run_in_ci: bool,
    pub run_from_workspace_root: bool,
    pub shell: bool,
}

/// Whether `options` are those of a task that sets none: cached, run in
/// CI, in a shell, its dependencies in parallel, every list appended, its
/// output buffered, never retried.
pub open spec fn are_default_options(options: TaskOptionsConfig) -> bool {
    &&& options.affected_files is None
    &&& options.cache
    &&& options.env_file is None
    &&& options.merge_args == TaskMergeStrategy::Append
    &&& options.merge_deps == TaskMergeStrategy::Append
    &&& options.merge_env == TaskMergeStrategy::Append
    &&& options.merge_inputs == TaskMergeStrategy::Append
    &&& options.merge_outputs == TaskMergeStrategy::Append
    &&& options.output_style == TaskOutputStyle::Buffer
    &&& !options.persistent
    &&& options.retry_count == 0
    &&& options.run_deps_in_parallel
    &&& options.run_in_ci
    &&& !options.run_from_workspace_root
    &&& options.shell
}

impl Default for TaskOptionsConfig {
    fn default() -> (options: Self)
        ensures
            are_default_options(options),
    {
        TaskOptionsConfig {
            affected_files: None,
            cache: true,
            env_file: None,
            merge_args: TaskMergeStrategy::Append,
            merge_deps: TaskMergeStrategy::Append,
            merge_env: TaskMergeStrategy::Append,
            merge_inputs: TaskMergeStrategy::Append,
            merge_outputs: TaskMergeStrategy::Append,
            output_style: TaskOutputStyle::Buffer,
            persistent: false,
            retry_count: 0,
            run_deps_in_parallel: true,
            run_in_ci: true,
            run_from_workspace_root: false,
            shell: true,
        }
    }
}

impl Clone for TaskOptionsConfig {
    fn clone(&self) -> (copy: Self)
        ensures
            copy == *self,
    {
        TaskOptionsConfig {
            affected_files: self.affected_files,
            cache: self.cache,
            env_file: match &self.env_file {
                Some(env_file) => Some(env_file.clone()),
                None => None,
            },
            merge_args: self.merge_args,
            merge_deps: self.merge_deps,
            merge_env: self.merge_env,
            merge_inputs: self.merge_inputs,
            merge_outputs: self.merge_outputs,
            output_style: self.output_style,
            persistent: self.persistent,
            retry_count: self.retry_count,
            run_deps_in_parallel: self.run_deps_in_parallel,
            run_in_ci: self.run_in_ci,
            run_from_workspace_root: self.run_from_workspace_root,
            shell: self.shell,
        }
    }
}

} // verus!
