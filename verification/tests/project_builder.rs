use project_builder::{
    BuilderPhase, DependencyConfig, DependencyScope, DependencySource, FileGroupsMap, Id, IdMap,
    InheritedTasksConfig, InheritedTasksResult, LanguageType, PlatformType, PortablePath,
    Project, ProjectBuilder, ProjectBuilderError, ProjectConfig, ProjectDependsOn, ProjectType,
    TaskCommandArgs, TaskConfig, TasksRequest,
};

struct Toolchain {
    node: bool,
}

type Detect = fn(&str) -> LanguageType;

type DetectPlatform = fn(&str, &Toolchain) -> PlatformType;

type Builder<'app> = ProjectBuilder<'app, Detect, DetectPlatform, Toolchain>;

fn builder<'app>(id: &'app str, source: &'app str) -> Builder<'app> {
    match Builder::new(id, source, "/workspace", "/workspace/project", true) {
        Ok(builder) => builder,
        Err(error) => panic!("{}", error.message()),
    }
}

fn no_tasks(
    _request: TasksRequest<'_, DetectPlatform, Toolchain>,
) -> Result<Vec<String>, String> {
    Ok(Vec::new())
}

fn build(builder: Builder<'_>) -> Project<Vec<String>> {
    match builder.build(no_tasks) {
        Ok(project) => project,
        Err(error) => panic!("{}", error),
    }
}

fn task(command: &str) -> TaskConfig {
    TaskConfig { command: TaskCommandArgs::String(command.to_string()), ..TaskConfig::default() }
}

fn groups(entries: &[(&str, &[&str])]) -> FileGroupsMap {
    let mut map = FileGroupsMap::default();
    for (id, globs) in entries {
        let patterns = globs.iter().map(|glob| PortablePath::ProjectGlob(glob.to_string()));
        map.insert(Id::raw(id), patterns.collect());
    }
    map
}

fn inherited(file_groups: FileGroupsMap) -> InheritedTasksResult {
    InheritedTasksResult {
        config: InheritedTasksConfig { file_groups, tasks: IdMap::new() },
        order: vec!["*".to_string(), "node".to_string()],
    }
}

fn workspace_globs(globs: &[&str]) -> Vec<PortablePath> {
    globs.iter().map(|glob| PortablePath::WorkspaceGlob(glob.to_string())).collect()
}

#[test]
fn a_builder_needs_the_project_directory() {
    let result = Builder::new("web", "apps/web", "/workspace", "/workspace/apps/web", false);
    match result {
        Err(error) => {
            assert_eq!(error, ProjectBuilderError::MissingAtSource("apps/web".to_string()));
            assert_eq!(error.message(), "No project exists at path apps/web.");
            assert_eq!(error.code(), "project::missing_source");
        },
        Ok(_) => panic!("a builder was made for a directory that is not there"),
    }
}

#[test]
fn a_new_builder_knows_nothing_yet() {
    let builder = builder("web", "apps/web");
    assert_eq!(builder.language, LanguageType::Unknown);
    assert_eq!(builder.platform, PlatformType::Unknown);
    assert_eq!(builder.current_phase(), BuilderPhase::Created);
    assert!(builder.loaded_config().is_none());
    assert!(builder.inherited_config().is_none());
}

#[test]
fn the_configured_language_and_platform_win() {
    let mut builder = builder("web", "apps/web");
    builder.detect_language(|_root| LanguageType::Rust);
    builder.load_local_config(ProjectConfig {
        language: LanguageType::Python,
        platform: Some(PlatformType::Deno),
        ..ProjectConfig::default()
    });
    assert_eq!(builder.language, LanguageType::Python);
    assert_eq!(builder.platform, PlatformType::Deno);
    assert_eq!(builder.current_phase(), BuilderPhase::LocalLoaded);
}

#[test]
fn an_unknown_language_is_detected_from_the_project_root() {
    let mut builder = builder("web", "apps/web");
    builder.detect_language(|root| {
        if root == "/workspace/project" {
            LanguageType::TypeScript
        } else {
            LanguageType::Go
        }
    });
    builder.load_local_config(ProjectConfig::default());
    assert_eq!(builder.language, LanguageType::TypeScript);
    assert_eq!(builder.platform, PlatformType::Node);
}

#[test]
fn an_unknown_language_without_a_detector_stays_unknown() {
    let mut builder = builder("web", "apps/web");
    builder.load_local_config(ProjectConfig::default());
    assert_eq!(builder.language, LanguageType::Unknown);
    assert_eq!(builder.platform, PlatformType::Unknown);
}

#[test]
fn the_platform_follows_the_language() {
    for (language, platform) in [
        (LanguageType::Bash, PlatformType::System),
        (LanguageType::Batch, PlatformType::System),
        (LanguageType::Go, PlatformType::System),
        (LanguageType::JavaScript, PlatformType::Node),
        (LanguageType::Php, PlatformType::System),
        (LanguageType::Python, PlatformType::System),
        (LanguageType::Ruby, PlatformType::System),
        (LanguageType::Rust, PlatformType::Rust),
        (LanguageType::TypeScript, PlatformType::Node),
        (LanguageType::Unknown, PlatformType::Unknown),
    ] {
        assert_eq!(language.to_platform(), platform);
        let mut builder = builder("web", "apps/web");
        builder.load_local_config(ProjectConfig { language, ..ProjectConfig::default() });
        assert_eq!(builder.language, language);
        assert_eq!(builder.platform, platform);
    }
}

#[test]
fn the_inheritance_source_is_asked_about_the_project() {
    let mut builder = builder("web", "apps/web");
    builder.load_local_config(ProjectConfig {
        language: LanguageType::JavaScript,
        type_of: ProjectType::Application,
        tags: vec![Id::raw("frontend")],
        ..ProjectConfig::default()
    });
    let source = |platform: &PlatformType,
                  language: &LanguageType,
                  type_of: &ProjectType,
                  tags: &Vec<Id>|
     -> Result<InheritedTasksResult, String> {
        assert_eq!(*platform, PlatformType::Node);
        assert_eq!(*language, LanguageType::JavaScript);
        assert_eq!(*type_of, ProjectType::Application);
        assert_eq!(*tags, vec![Id::raw("frontend")]);
        Ok(inherited(groups(&[("sources", &["src/**/*"])])))
    };
    assert_eq!(builder.inherit_global_config(&source), Ok(()));
    assert_eq!(builder.current_phase(), BuilderPhase::GlobalInherited);
    let kept = builder.inherited_config().unwrap();
    assert_eq!(kept.order, vec!["*".to_string(), "node".to_string()]);
    assert!(kept.config.file_groups.contains_key(&Id::raw("sources")));
}

#[test]
fn a_failing_inheritance_source_changes_nothing() {
    let mut builder = builder("web", "apps/web");
    builder.load_local_config(ProjectConfig::default());
    let source = |_: &PlatformType,
                  _: &LanguageType,
                  _: &ProjectType,
                  _: &Vec<Id>|
     -> Result<InheritedTasksResult, String> { Err("no such layer".to_string()) };
    assert_eq!(builder.inherit_global_config(&source), Err("no such layer".to_string()));
    assert_eq!(builder.current_phase(), BuilderPhase::LocalLoaded);
    assert!(builder.inherited_config().is_none());
}

#[test]
fn a_second_dependency_on_the_same_project_is_dropped() {
    let mut builder = builder("web", "apps/web");
    builder.load_local_config(ProjectConfig::default());
    builder.extend_with_dependency(DependencyConfig {
        id: Id::raw("ui"),
        scope: DependencyScope::Development,
        source: None,
    });
    builder.extend_with_dependency(DependencyConfig {
        id: Id::raw("ui"),
        scope: DependencyScope::Peer,
        source: Some(DependencySource::Explicit),
    });
    let local = builder.loaded_config().unwrap();
    assert_eq!(
        local.depends_on,
        vec![ProjectDependsOn::Object(DependencyConfig {
            id: Id::raw("ui"),
            scope: DependencyScope::Development,
            source: Some(DependencySource::Implicit),
        })]
    );
}

#[test]
fn an_implied_dependency_never_replaces_a_declared_one() {
    let mut builder = builder("web", "apps/web");
    let declared = vec![
        ProjectDependsOn::String(Id::raw("ui")),
        ProjectDependsOn::Object(DependencyConfig {
            id: Id::raw("api"),
            scope: DependencyScope::Peer,
            source: None,
        }),
    ];
    builder.load_local_config(ProjectConfig {
        depends_on: declared.clone(),
        ..ProjectConfig::default()
    });
    builder.extend_with_dependency(DependencyConfig::new(Id::raw("ui")));
    builder.extend_with_dependency(DependencyConfig::new(Id::raw("api")));
    assert_eq!(builder.loaded_config().unwrap().depends_on, declared);

    let project = build(builder);
    assert_eq!(project.dependencies.len(), 2);
    assert_eq!(
        project.dependencies[&Id::raw("ui")],
        DependencyConfig {
            id: Id::raw("ui"),
            scope: DependencyScope::Production,
            source: Some(DependencySource::Explicit),
        }
    );
    assert_eq!(
        project.dependencies[&Id::raw("api")],
        DependencyConfig {
            id: Id::raw("api"),
            scope: DependencyScope::Peer,
            source: Some(DependencySource::Explicit),
        }
    );
}

#[test]
fn an_implied_dependency_keeps_its_provenance() {
    let mut builder = builder("web", "apps/web");
    builder.load_local_config(ProjectConfig::default());
    builder.extend_with_dependency(DependencyConfig::new(Id::raw("ui")));
    builder.extend_with_dependency(DependencyConfig {
        id: Id::raw("api"),
        scope: DependencyScope::Production,
        source: Some(DependencySource::Explicit),
    });
    let project = build(builder);
    assert_eq!(project.dependencies[&Id::raw("ui")].source, Some(DependencySource::Implicit));
    assert_eq!(project.dependencies[&Id::raw("api")].source, Some(DependencySource::Explicit));
    for dependency in project.dependencies.values() {
        assert!(dependency.source.is_some());
    }
}

#[test]
fn the_last_declaration_of_a_dependency_counts() {
    let mut builder = builder("web", "apps/web");
    builder.load_local_config(ProjectConfig {
        depends_on: vec![
            ProjectDependsOn::Object(DependencyConfig {
                id: Id::raw("ui"),
                scope: DependencyScope::Peer,
                source: Some(DependencySource::Implicit),
            }),
            ProjectDependsOn::String(Id::raw("ui")),
        ],
        ..ProjectConfig::default()
    });
    let project = build(builder);
    assert_eq!(project.dependencies.len(), 1);
    assert_eq!(project.dependencies[&Id::raw("ui")].scope, DependencyScope::Production);
    assert_eq!(project.dependencies[&Id::raw("ui")].source, Some(DependencySource::Explicit));
}

#[test]
fn a_declared_task_is_never_replaced() {
    let mut builder = builder("web", "apps/web");
    let mut tasks = IdMap::new();
    assert!(tasks.insert_if_absent(Id::raw("build"), task("vite build")));
    builder.load_local_config(ProjectConfig { tasks, ..ProjectConfig::default() });
    builder.extend_with_task(Id::raw("build"), task("webpack"));
    builder.extend_with_task(Id::raw("lint"), task("eslint"));
    builder.extend_with_task(Id::raw("lint"), task("biome"));
    let local = builder.loaded_config().unwrap();
    assert_eq!(local.tasks.len(), 2);
    assert_eq!(local.tasks.get(&Id::raw("build")), Some(&task("vite build")));
    assert_eq!(local.tasks.get(&Id::raw("lint")), Some(&task("eslint")));
}

#[test]
fn a_local_file_group_replaces_the_inherited_one_whole() {
    let mut builder = builder("web", "apps/web");
    builder.load_local_config(ProjectConfig {
        file_groups: groups(&[("sources", &["lib/**/*"])]),
        ..ProjectConfig::default()
    });
    let source = |_: &PlatformType,
                  _: &LanguageType,
                  _: &ProjectType,
                  _: &Vec<Id>|
     -> Result<InheritedTasksResult, String> {
        Ok(inherited(groups(&[
            ("sources", &["src/**/*", "types/**/*"]),
            ("tests", &["tests/**/*", "**/*.test.ts"]),
        ])))
    };
    assert_eq!(builder.inherit_global_config(&source), Ok(()));
    let project = build(builder);
    assert_eq!(project.file_groups.len(), 2);
    assert_eq!(
        project.file_groups[&Id::raw("sources")].patterns,
        workspace_globs(&["apps/web/lib/**/*"])
    );
    assert_eq!(
        project.file_groups[&Id::raw("tests")].patterns,
        workspace_globs(&["apps/web/tests/**/*", "apps/web/**/*.test.ts"])
    );
    assert_eq!(project.file_groups[&Id::raw("tests")].id, Id::raw("tests"));
}

#[test]
fn file_groups_come_from_either_side_alone() {
    let mut local_only = builder("web", "apps/web");
    local_only.load_local_config(ProjectConfig {
        file_groups: groups(&[("sources", &["src/**/*"])]),
        ..ProjectConfig::default()
    });
    let project = build(local_only);
    assert_eq!(project.file_groups.len(), 1);
    assert_eq!(
        project.file_groups[&Id::raw("sources")].patterns,
        workspace_globs(&["apps/web/src/**/*"])
    );

    let mut inherited_only = builder("api", "apps/api");
    inherited_only.load_local_config(ProjectConfig::default());
    let source = |_: &PlatformType,
                  _: &LanguageType,
                  _: &ProjectType,
                  _: &Vec<Id>|
     -> Result<InheritedTasksResult, String> {
        Ok(inherited(groups(&[("sources", &["src/**/*"])])))
    };
    assert_eq!(inherited_only.inherit_global_config(&source), Ok(()));
    let project = build(inherited_only);
    assert_eq!(
        project.file_groups[&Id::raw("sources")].patterns,
        workspace_globs(&["apps/api/src/**/*"])
    );
}

#[test]
fn a_project_without_configuration_is_empty() {
    let project = build(builder("web", "apps/web"));
    assert_eq!(project.id, Id::raw("web"));
    assert_eq!(project.source, "apps/web");
    assert_eq!(project.root, "/workspace/project");
    assert_eq!(project.language, LanguageType::Unknown);
    assert_eq!(project.platform, PlatformType::Unknown);
    assert_eq!(project.type_of, ProjectType::Unknown);
    assert!(project.dependencies.is_empty());
    assert!(project.file_groups.is_empty());
    assert!(project.tasks.is_empty());
    assert!(project.inherited.is_none());
    assert_eq!(project.config, ProjectConfig::default());
}

#[test]
fn the_built_project_carries_both_configurations() {
    let mut builder = builder("web", "apps/web");
    let local = ProjectConfig {
        language: LanguageType::Rust,
        type_of: ProjectType::Library,
        tags: vec![Id::raw("core")],
        depends_on: vec![ProjectDependsOn::String(Id::raw("ui"))],
        ..ProjectConfig::default()
    };
    builder.load_local_config(local.clone());
    let answer = inherited(groups(&[("sources", &["src/**/*"])]));
    let expected = answer.clone();
    let source = move |_: &PlatformType,
                       _: &LanguageType,
                       _: &ProjectType,
                       _: &Vec<Id>|
          -> Result<InheritedTasksResult, String> { Ok(answer.clone()) };
    assert_eq!(builder.inherit_global_config(&source), Ok(()));
    let project = build(builder);
    assert_eq!(project.language, LanguageType::Rust);
    assert_eq!(project.platform, PlatformType::Rust);
    assert_eq!(project.type_of, ProjectType::Library);
    assert_eq!(project.config, local);
    assert_eq!(project.inherited, Some(expected));
}

#[test]
fn the_task_resolver_is_handed_what_the_builder_holds() {
    let toolchain = Toolchain { node: true };
    let mut builder = builder("web", "apps/web");
    let detect: DetectPlatform = |command, toolchain| {
        if toolchain.node && command == "node" {
            PlatformType::Node
        } else {
            PlatformType::System
        }
    };
    builder.detect_platform(detect, &toolchain);
    let mut tasks = IdMap::new();
    tasks.insert_if_absent(Id::raw("start"), task("node server.js"));
    builder.load_local_config(ProjectConfig {
        language: LanguageType::JavaScript,
        tasks,
        ..ProjectConfig::default()
    });
    let source = |_: &PlatformType,
                  _: &LanguageType,
                  _: &ProjectType,
                  _: &Vec<Id>|
     -> Result<InheritedTasksResult, String> { Ok(inherited(FileGroupsMap::default())) };
    assert_eq!(builder.inherit_global_config(&source), Ok(()));
    builder.extend_with_task(Id::raw("lint"), task("eslint"));

    let result = builder.build(
        |request: TasksRequest<'_, DetectPlatform, Toolchain>| -> Result<Vec<String>, String> {
            assert_eq!(request.id, "web");
            assert_eq!(request.source, "apps/web");
            assert_eq!(request.workspace_root, "/workspace");
            assert_eq!(request.platform, PlatformType::Node);
            assert!(request.inherited.is_some());
            assert!(request.inherited_choice.is_some());
            let detector = request.platform_detector.unwrap();
            let toolchain = request.toolchain_config.unwrap();
            assert_eq!(detector("node", toolchain), PlatformType::Node);
            assert_eq!(detector("bash", toolchain), PlatformType::System);
            let local = request.local.unwrap();
            let mut names = Vec::new();
            for at in 0..local.tasks.len() {
                names.push(local.tasks.key_at(at).as_str().to_string());
            }
            Ok(names)
        },
    );
    let project = result.unwrap();
    assert_eq!(project.tasks, vec!["lint".to_string(), "start".to_string()]);
}

#[test]
fn the_task_resolver_gets_no_choice_without_inherited_configuration() {
    let mut builder = builder("web", "apps/web");
    builder.load_local_config(ProjectConfig::default());
    let result = builder.build(
        |request: TasksRequest<'_, DetectPlatform, Toolchain>| -> Result<u8, String> {
            assert!(request.inherited.is_none());
            assert!(request.inherited_choice.is_none());
            assert!(request.local.is_some());
            assert!(request.platform_detector.is_none());
            assert!(request.toolchain_config.is_none());
            Ok(7)
        },
    );
    assert_eq!(result.unwrap().tasks, 7);
}

#[test]
fn an_error_of_the_task_resolver_comes_back() {
    let mut builder = builder("web", "apps/web");
    builder.load_local_config(ProjectConfig::default());
    let result = builder.build(
        |_request: TasksRequest<'_, DetectPlatform, Toolchain>| -> Result<Vec<String>, String> {
            Err("unknown task".to_string())
        },
    );
    match result {
        Err(error) => assert_eq!(error, "unknown task"),
        Ok(_) => panic!("the task resolver failed and a project was built"),
    }
}

#[test]
fn a_project_can_be_assembled_around_given_tasks() {
    let mut builder = builder("web", "apps/web");
    builder.load_local_config(ProjectConfig {
        depends_on: vec![ProjectDependsOn::String(Id::raw("ui"))],
        ..ProjectConfig::default()
    });
    let project = builder.assemble(vec!["build".to_string()]);
    assert_eq!(project.tasks, vec!["build".to_string()]);
    assert!(project.dependencies.contains_key(&Id::raw("ui")));
}

#[test]
fn two_builders_on_one_source_do_not_depend_on_their_order() {
    let shared = inherited(groups(&[("sources", &["src/**/*"]), ("assets", &["public/**/*"])]));
    let source = |_: &PlatformType,
                  _: &LanguageType,
                  _: &ProjectType,
                  _: &Vec<Id>|
     -> Result<InheritedTasksResult, String> { Ok(shared.clone()) };
    let resolve = |id: &'static str, source_path: &'static str, own: &[(&str, &[&str])]| {
        let mut builder = builder(id, source_path);
        builder.load_local_config(ProjectConfig {
            file_groups: groups(own),
            depends_on: vec![ProjectDependsOn::String(Id::raw("shared"))],
            ..ProjectConfig::default()
        });
        assert_eq!(builder.inherit_global_config(&source), Ok(()));
        let project = build(builder);
        (project.file_groups, project.dependencies, project.inherited)
    };
    let web_first = resolve("web", "apps/web", &[("sources", &["lib/**/*"])]);
    let api_second = resolve("api", "apps/api", &[]);
    let api_first = resolve("api", "apps/api", &[]);
    let web_second = resolve("web", "apps/web", &[("sources", &["lib/**/*"])]);
    assert_eq!(web_first, web_second);
    assert_eq!(api_first, api_second);
    assert_ne!(web_first.0, api_first.0);
}

#[test]
fn builder_errors_tell_what_is_missing() {
    let error = ProjectBuilderError::MissingFromPath("/tmp/nowhere".to_string());
    assert_eq!(error.message(), "No project could be located starting from path /tmp/nowhere.");
    assert_eq!(error.code(), "project::missing_path");
    let error = ProjectBuilderError::UnconfiguredID(Id::raw("ghost"));
    assert_eq!(error.message(), "No project has been configured with the ID ghost.");
    assert_eq!(error.code(), "project::unknown");
}
