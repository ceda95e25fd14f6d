use project_builder::task_config::{
    first_unsupported_dep, is_empty_command, validate_command, validate_deps,
};
use project_builder::task_options_config::{check_env_file, validate_env_file, EnvFileProblem};
use project_builder::{
    ConfigValue, Id, PortablePath, Target, TargetScope, TaskCommandArgs, TaskConfig,
    TaskOptionAffectedFiles, TaskOptionEnvFile, TaskOptionsConfig, TaskType,
};

fn target(scope: TargetScope, task: &str) -> Target {
    Target { scope, task_id: Id::raw(task) }
}

fn words(items: &[&str]) -> TaskCommandArgs {
    TaskCommandArgs::Sequence(items.iter().map(|item| item.to_string()).collect())
}

#[test]
fn an_empty_command_string_is_refused() {
    let error = validate_command(&TaskCommandArgs::String(String::new())).unwrap_err();
    assert_eq!(error.message, "a command is required; use \"noop\" otherwise");
    assert_eq!(error.path.to_string(), ".");
}

#[test]
fn an_empty_command_sequence_is_refused() {
    let error = validate_command(&words(&[])).unwrap_err();
    assert_eq!(error.message, "a command is required; use \"noop\" otherwise");
}

#[test]
fn a_command_sequence_with_an_empty_first_word_is_refused() {
    assert!(validate_command(&words(&[""])).is_err());
    assert!(validate_command(&words(&["", "build"])).is_err());
}

#[test]
fn a_command_that_starts_with_a_space_is_refused() {
    assert!(validate_command(&TaskCommandArgs::String(" build".to_string())).is_err());
}

#[test]
fn a_command_that_is_left_out_is_accepted() {
    assert!(validate_command(&TaskCommandArgs::Absent).is_ok());
    assert!(!is_empty_command(&TaskCommandArgs::Absent));
}

#[test]
fn a_command_with_empty_args_is_accepted() {
    let task = TaskConfig {
        command: TaskCommandArgs::String("build".to_string()),
        args: TaskCommandArgs::String(String::new()),
        ..TaskConfig::default()
    };
    assert!(validate_command(&task.command).is_ok());
    assert!(task.validate().is_ok());
}

#[test]
fn a_command_of_several_words_is_accepted() {
    assert!(validate_command(&TaskCommandArgs::String("cargo build --release".to_string())).is_ok());
    assert!(validate_command(&words(&["cargo", "", "build"])).is_ok());
    assert!(validate_command(&TaskCommandArgs::String("é".to_string())).is_ok());
}

#[test]
fn a_dependency_on_every_project_is_refused_with_its_index() {
    let deps = vec![
        target(TargetScope::OwnSelf, "lint"),
        target(TargetScope::Project(Id::raw("web")), "build"),
        target(TargetScope::All, "build"),
    ];
    assert_eq!(first_unsupported_dep(&deps), Some(2));
    let error = validate_deps(&deps).unwrap_err();
    assert_eq!(error.message, "target scope not supported as a task dependency");
    assert_eq!(error.path.to_string(), "[2]");
}

#[test]
fn a_dependency_on_a_tag_is_refused_with_its_index() {
    let deps = vec![target(TargetScope::Tag(Id::raw("frontend")), "build")];
    assert_eq!(first_unsupported_dep(&deps), Some(0));
    let error = validate_deps(&deps).unwrap_err();
    assert_eq!(error.path.to_string(), "[0]");
}

#[test]
fn the_first_refused_dependency_is_reported() {
    let deps = vec![
        target(TargetScope::OwnSelf, "a"),
        target(TargetScope::Tag(Id::raw("t")), "b"),
        target(TargetScope::All, "c"),
    ];
    let error = validate_deps(&deps).unwrap_err();
    assert_eq!(error.path.to_string(), "[1]");
}

#[test]
fn dependencies_on_named_projects_are_accepted() {
    let deps = vec![
        target(TargetScope::OwnSelf, "lint"),
        target(TargetScope::Project(Id::raw("web")), "build"),
    ];
    assert_eq!(first_unsupported_dep(&deps), None);
    assert!(validate_deps(&deps).is_ok());
    assert!(validate_deps(&Vec::new()).is_ok());
}

#[test]
fn scopes_say_whether_a_dependency_may_have_them() {
    assert!(TargetScope::OwnSelf.allowed_in_deps());
    assert!(TargetScope::Project(Id::raw("web")).allowed_in_deps());
    assert!(!TargetScope::All.allowed_in_deps());
    assert!(!TargetScope::Tag(Id::raw("web")).allowed_in_deps());
}

#[test]
fn an_env_file_named_by_a_variable_is_refused() {
    let option = TaskOptionEnvFile::File(PortablePath::EnvVar("ENV_FILE".to_string()));
    assert_eq!(check_env_file(&option), Some(EnvFileProblem::EnvVar));
    let error = validate_env_file(&option).unwrap_err();
    assert_eq!(error.message, "environment variables are not supported");
    assert_eq!(error.path.to_string(), ".");
}

#[test]
fn an_env_file_named_by_a_glob_is_refused() {
    for path in [
        PortablePath::ProjectGlob("*.env".to_string()),
        PortablePath::WorkspaceGlob("env/*.env".to_string()),
    ] {
        let option = TaskOptionEnvFile::File(path);
        assert_eq!(check_env_file(&option), Some(EnvFileProblem::Glob));
        let error = validate_env_file(&option).unwrap_err();
        assert_eq!(error.message, "globs are not supported");
    }
}

#[test]
fn an_env_file_named_by_a_literal_path_is_accepted() {
    for option in [
        TaskOptionEnvFile::File(PortablePath::ProjectFile(".env".to_string())),
        TaskOptionEnvFile::File(PortablePath::WorkspaceFile("shared/.env".to_string())),
        TaskOptionEnvFile::Enabled(true),
        TaskOptionEnvFile::Enabled(false),
    ] {
        assert_eq!(check_env_file(&option), None);
        assert!(validate_env_file(&option).is_ok());
    }
}

#[test]
fn a_task_is_held_to_its_rules_in_order() {
    let mut task = TaskConfig {
        command: TaskCommandArgs::String(String::new()),
        deps: vec![target(TargetScope::All, "build")],
        ..TaskConfig::default()
    };
    task.options.env_file =
        Some(TaskOptionEnvFile::File(PortablePath::EnvVar("FILE".to_string())));
    let error = task.validate().unwrap_err();
    assert_eq!(error.message, "a command is required; use \"noop\" otherwise");

    task.command = TaskCommandArgs::String("build".to_string());
    let error = task.validate().unwrap_err();
    assert_eq!(error.message, "target scope not supported as a task dependency");
    assert_eq!(error.path.to_string(), "[0]");

    task.deps.clear();
    let error = task.validate().unwrap_err();
    assert_eq!(error.message, "environment variables are not supported");

    task.options.env_file = None;
    assert!(task.validate().is_ok());
}

#[test]
fn a_task_that_configures_nothing_is_valid() {
    let task = TaskConfig::default();
    assert_eq!(task.command, TaskCommandArgs::Absent);
    assert_eq!(task.args, TaskCommandArgs::Absent);
    assert!(task.deps.is_empty());
    assert!(task.env.is_empty());
    assert!(task.inputs.is_empty());
    assert!(task.outputs.is_empty());
    assert!(!task.local);
    assert_eq!(task.type_of, None);
    assert!(task.validate().is_ok());
}

#[test]
fn affected_files_are_read_from_a_boolean_or_a_name() {
    assert_eq!(
        TaskOptionAffectedFiles::from_value(&ConfigValue::Bool(true)),
        Ok(TaskOptionAffectedFiles::Enabled(true))
    );
    assert_eq!(
        TaskOptionAffectedFiles::from_value(&ConfigValue::Bool(false)),
        Ok(TaskOptionAffectedFiles::Enabled(false))
    );
    assert_eq!(
        TaskOptionAffectedFiles::from_value(&ConfigValue::String("args".to_string())),
        Ok(TaskOptionAffectedFiles::Args)
    );
    assert_eq!(
        TaskOptionAffectedFiles::from_value(&ConfigValue::String("env".to_string())),
        Ok(TaskOptionAffectedFiles::Env)
    );
}

#[test]
fn affected_files_refuse_any_other_value() {
    let expected = Err("expected `args`, `env`, or a boolean".to_string());
    assert_eq!(
        TaskOptionAffectedFiles::from_value(&ConfigValue::String("both".to_string())),
        expected
    );
    assert_eq!(
        TaskOptionAffectedFiles::from_value(&ConfigValue::String("Args".to_string())),
        expected
    );
    assert_eq!(TaskOptionAffectedFiles::from_value(&ConfigValue::Other), expected);
}

#[test]
fn affected_files_read_back_what_they_write() {
    for option in [
        TaskOptionAffectedFiles::Args,
        TaskOptionAffectedFiles::Env,
        TaskOptionAffectedFiles::Enabled(true),
        TaskOptionAffectedFiles::Enabled(false),
    ] {
        assert_eq!(TaskOptionAffectedFiles::from_value(&option.to_value()), Ok(option));
    }
    assert_eq!(
        TaskOptionAffectedFiles::Args.to_value(),
        ConfigValue::String("args".to_string())
    );
}

#[test]
fn task_options_have_their_defaults() {
    let options = TaskOptionsConfig::default();
    assert_eq!(options.affected_files, None);
    assert!(options.cache);
    assert_eq!(options.env_file, None);
    assert_eq!(options.merge_args, project_builder::TaskMergeStrategy::Append);
    assert_eq!(options.merge_deps, project_builder::TaskMergeStrategy::Append);
    assert_eq!(options.merge_env, project_builder::TaskMergeStrategy::Append);
    assert_eq!(options.merge_inputs, project_builder::TaskMergeStrategy::Append);
    assert_eq!(options.merge_outputs, project_builder::TaskMergeStrategy::Append);
    assert_eq!(options.output_style, project_builder::TaskOutputStyle::Buffer);
    assert!(!options.persistent);
    assert_eq!(options.retry_count, 0);
    assert!(options.run_deps_in_parallel);
    assert!(options.run_in_ci);
    assert!(!options.run_from_workspace_root);
    assert!(options.shell);
    assert_eq!(options.clone(), options);
}

#[test]
fn task_types_have_their_names() {
    assert_eq!(TaskType::Build.as_str(), "build");
    assert_eq!(TaskType::Run.as_str(), "run");
    assert_eq!(TaskType::Test.as_str(), "test");
    assert_eq!(TaskType::default(), TaskType::Test);
}
