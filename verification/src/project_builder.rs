use crate::dependency::{
    extended_with_dependency, has_dependency, resolve_dependencies, resolved_dependencies,
    DependencyConfig, DependencySource, ProjectDependsOn,
};
use crate::file_group::{resolve_file_groups, resolved_file_groups};
use crate::id::Id;
use crate::language_platform::{
    resolve_language, resolve_platform, resolved_platform, LanguageType,
    PlatformType, ProjectType,
};
use crate::maps::{dependencies_of, file_groups_of, file_inputs_of, FileInputsView};
use crate::project::Project;
use crate::project_builder_error::ProjectBuilderError;
use crate::project_config::{
    is_empty_config, InheritedTasksConfig, InheritedTasksOverride, InheritedTasksResult,
    ProjectConfig,
};
use crate::resolution::{resolved, Declared, Resolved};
use crate::task_config::TaskConfig;
use vstd::prelude::*;

verus! {

/// How far a builder has come.
#[derive(Clone, Copy, Debug, PartialEq, Eq, Structural)]
pub enum BuilderPhase {
    /// Made, with no configuration yet.
    Created,
    /// The project's own configuration is in.
    LocalLoaded,
    /// The inherited configuration is in as well.
    GlobalInherited,
}

/// What the task resolver is handed to make the tasks of a project.
pub struct TasksRequest<'a, P, C> {
    pub id: &'a str,
    pub source: &'a str,
    pub workspace_root: &'a str,
    /// The project's platform, which a task without one takes.
    pub platform: PlatformType,
    /// What tells the platform of a task from its command, if registered.
    pub platform_detector: Option<P>,
    /// The toolchain configuration that came with the detector.
    pub toolchain_config: Option<&'a C>,
    /// The inherited configuration, if it was asked for.
    pub inherited: Option<&'a InheritedTasksConfig>,
    /// Which inherited tasks the project takes, where both configurations
    /// are there.
    pub inherited_choice: Option<&'a InheritedTasksOverride>,
    /// The project's own configuration, if it was loaded.
    pub local: Option<&'a ProjectConfig>,
}

/// Resolves one project, step by step: made for a project's directory, it
/// takes the project's own configuration, then the inherited one if asked,
/// then what the project graph implies, and at last builds the project.
///
/// `L` detects a project's language from its directory, `P` detects a task's
/// platform from its command and the toolchain configuration `C`.
pub struct ProjectBuilder<'app, L, P, C> {
    id: &'app str,
    source: &'app str,
    project_root: &'app str,
    workspace_root: &'app str,
    toolchain_config: Option<&'app C>,
    global_config: Option<InheritedTasksResult>,
    local_config: Option<ProjectConfig>,
    pub language: LanguageType,
    language_detector: Option<L>,
    pub platform: PlatformType,
    platform_detector: Option<P>,
}

/// Whether two configurations differ at most in their declared
/// dependencies.
pub open spec fn same_but_depends_on(before: ProjectConfig, after: ProjectConfig) -> bool {
    &&& after.file_groups == before.file_groups
    &&& after.language == before.language
    &&& after.platform == before.platform
    &&& after.tags == before.tags
    &&& after.tasks == before.tasks
    &&& after.type_of == before.type_of
    &&& after.inherited_tasks == before.inherited_tasks
}

/// Whether two configurations differ at most in their declared tasks.
pub open spec fn same_but_tasks(before: ProjectConfig, after: ProjectConfig) -> bool {
    &&& after.depends_on == before.depends_on
    &&& after.file_groups == before.file_groups
    &&& after.language == before.language
    &&& after.platform == before.platform
    &&& after.tags == before.tags
    &&& after.type_of == before.type_of
    &&& after.inherited_tasks == before.inherited_tasks
}

/// The declared tasks after a task that the project graph implies came in:
/// it takes the identifier unless a task has it already.
pub open spec fn extended_with_task(
    tasks: Map<Seq<char>, TaskConfig>,
    id: Seq<char>,
    config: TaskConfig,
) -> Map<Seq<char>, TaskConfig> {
    if tasks.contains_key(id) {
        tasks
    } else {
        tasks.insert(id, config)
    }
}

/// A task that the project graph implies never replaces a declared one:
/// where a task has the identifier already, nothing changes; a second task
/// for the identifier of a first changes nothing; and no other identifier is
/// touched.
pub proof fn declared_task_is_never_replaced(
    tasks: Map<Seq<char>, TaskConfig>,
    id: Seq<char>,
    first: TaskConfig,
    second: TaskConfig,
)
    ensures
        tasks.contains_key(id) ==> extended_with_task(tasks, id, first) == tasks,
        extended_with_task(extended_with_task(tasks, id, first), id, second)
            == extended_with_task(tasks, id, first),
        extended_with_task(tasks, id, first).contains_key(id),
        extended_with_task(tasks, id, first)[id] == if tasks.contains_key(id) {
            tasks[id]
        } else {
            first
        },
        forall|other: Seq<char>|
            other != id ==> (#[trigger] extended_with_task(tasks, id, first).contains_key(other)
                <==> tasks.contains_key(other)),
        forall|other: Seq<char>|
            other != id && tasks.contains_key(other) ==> #[trigger] extended_with_task(
                tasks,
                id,
                first,
            )[other] == tasks[other],
{
}

/// The dependencies and file groups that a project holds.
pub open spec fn resolution_of<T>(project: Project<T>) -> Resolved {
    Resolved {
        dependencies: dependencies_of(project.dependencies),
        file_groups: file_groups_of(project.file_groups),
    }
}

/// The declared file groups of a configuration, if there is one.
pub open spec fn local_file_inputs(config: Option<ProjectConfig>) -> Option<FileInputsView> {
    match config {
        Some(local) => Some(file_inputs_of(local.file_groups)),
        None => None,
    }
}

/// The declared file groups of an inherited configuration, if there is one.
pub open spec fn inherited_file_inputs(config: Option<InheritedTasksResult>) -> Option<
    FileInputsView,
> {
    match config {
        Some(global) => Some(file_inputs_of(global.config.file_groups)),
        None => None,
    }
}

impl<'app, L, P, C> ProjectBuilder<'app, L, P, C> where L: Fn(&str) -> LanguageType {
    pub closed spec fn id(&self) -> &'app str {
        self.id
    }

    pub closed spec fn source(&self) -> &'app str {
        self.source
    }

    pub closed spec fn project_root(&self) -> &'app str {
        self.project_root
    }

    pub closed spec fn workspace_root(&self) -> &'app str {
        self.workspace_root
    }

    pub closed spec fn toolchain_config(&self) -> Option<&'app C> {
        self.toolchain_config
    }

    pub closed spec fn global_config(&self) -> Option<InheritedTasksResult> {
        self.global_config
    }

    pub closed spec fn local_config(&self) -> Option<ProjectConfig> {
        self.local_config
    }

    /// The language that the builder has settled on.
    pub closed spec fn language(&self) -> LanguageType {
        self.language
    }

    /// The platform that the builder has settled on.
    pub closed spec fn platform(&self) -> PlatformType {
        self.platform
    }

    pub closed spec fn language_detector(&self) -> Option<L> {
        self.language_detector
    }

    pub closed spec fn platform_detector(&self) -> Option<P> {
        self.platform_detector
    }

    /// How far the builder has come.
    pub open spec fn phase(&self) -> BuilderPhase {
        if self.local_config() is None {
            BuilderPhase::Created
        } else if self.global_config() is None {
            BuilderPhase::LocalLoaded
        } else {
            BuilderPhase::GlobalInherited
        }
    }

    /// Whether the language detector, if one is registered, takes every
    /// directory.
    pub open spec fn detector_takes_all(&self) -> bool {
        self.language_detector() matches Some(detector) ==> forall|root: &str|
            detector.requires((root,))
    }

    /// Whether both builders are for the same project in the same place.
    pub open spec fn same_project(&self, other: &Self) -> bool {
        &&& self.id() == other.id()
        &&& self.source() == other.source()
        &&& self.project_root() == other.project_root()
        &&& self.workspace_root() == other.workspace_root()
    }

    /// Whether both builders have the same detectors registered.
    pub open spec fn same_detectors(&self, other: &Self) -> bool {
        &&& self.language_detector() == other.language_detector()
        &&& self.platform_detector() == other.platform_detector()
        &&& self.toolchain_config() == other.toolchain_config()
    }

    /// Whether both builders have settled on the same language and platform.
    pub open spec fn same_resolution(&self, other: &Self) -> bool {
        &&& self.language() == other.language()
        &&& self.platform() == other.platform()
    }

    /// Whether the builder is as `new` makes it: for this project in this
    /// place, with nothing loaded, registered or settled.
    pub open spec fn is_fresh(
        &self,
        id: &str,
        source: &str,
        workspace_root: &str,
        project_root: &str,
    ) -> bool {
        &&& self.id() == id
        &&& self.source() == source
        &&& self.project_root() == project_root
        &&& self.workspace_root() == workspace_root
        &&& self.language() == LanguageType::Unknown
        &&& self.platform() == PlatformType::Unknown
        &&& self.local_config() is None
        &&& self.global_config() is None
        &&& self.language_detector() is None
        &&& self.platform_detector() is None
        &&& self.toolchain_config() is None
    }

    /// A builder for the project `id` whose directory is `source` below
    /// `workspace_root`. `project_root` is that directory in full, and
    /// `root_exists` tells whether it is there: without it there is no
    /// project to build.
    pub fn new(
        id: &'app str,
        source: &'app str,
        workspace_root: &'app str,
        project_root: &'app str,
        root_exists: bool,
    ) -> (result: Result<Self, ProjectBuilderError>)
        ensures
            root_exists ==> (result matches Ok(builder) && builder.is_fresh(
                id,
                source,
                workspace_root,
                project_root,
            )),
            !root_exists ==> (result matches Err(ProjectBuilderError::MissingAtSource(path))
                && path@ == source@),
    {
        if !root_exists {
            return Err(ProjectBuilderError::MissingAtSource(source.to_owned()));
        }
        Ok(
            ProjectBuilder {
                id,
                source,
                project_root,
                workspace_root,
                toolchain_config: None,
                global_config: None,
                local_config: None,
                language: LanguageType::Unknown,
                language_detector: None,
                platform: PlatformType::Unknown,
                platform_detector: None,
            },
        )
    }

    /// The project's own configuration, once it is loaded.
    pub fn loaded_config(&self) -> (config: Option<&ProjectConfig>)
        ensures
            match config {
                Some(local) => self.local_config() == Some(*local),
                None => self.local_config() is None,
            },
    {
        self.local_config.as_ref()
    }

    /// The inherited configuration, once it is asked for.
    pub fn inherited_config(&self) -> (config: Option<&InheritedTasksResult>)
        ensures
            match config {
                Some(global) => self.global_config() == Some(*global),
                None => self.global_config() is None,
            },
    {
        self.global_config.as_ref()
    }

    /// How far the builder has come.
    pub fn current_phase(&self) -> (phase: BuilderPhase)
        ensures
            phase == self.phase(),
    {
        if self.local_config.is_none() {
            BuilderPhase::Created
        } else if self.global_config.is_none() {
            BuilderPhase::LocalLoaded
        } else {
            BuilderPhase::GlobalInherited
        }
    }

    /// Registers what detects the project's language where the project's
    /// configuration does not say it. Nothing is detected yet.
    pub fn detect_language(&mut self, detector: L)
        requires
            forall|root: &str| detector.requires((root,)),
        ensures
            final(self).language_detector() == Some(detector),
            final(self).detector_takes_all(),
            final(self).same_project(old(self)),
            final(self).same_resolution(old(self)),
            final(self).platform_detector() == old(self).platform_detector(),
            final(self).toolchain_config() == old(self).toolchain_config(),
            final(self).local_config() == old(self).local_config(),
            final(self).global_config() == old(self).global_config(),
    {
        self.language_detector = Some(detector);
    }

    /// Registers what detects a task's platform, with the toolchain
    /// configuration it reads. Both are kept for the task resolver.
    pub fn detect_platform(&mut self, detector: P, config: &'app C)
        ensures
            final(self).platform_detector() == Some(detector),
            final(self).toolchain_config() == Some(config),
            final(self).language_detector() == old(self).language_detector(),
            final(self).same_project(old(self)),
            final(self).same_resolution(old(self)),
            final(self).local_config() == old(self).local_config(),
            final(self).global_config() == old(self).global_config(),
    {
        self.platform_detector = Some(detector);
        self.toolchain_config = Some(config);
    }

    /// Takes the project's own configuration and settles language and
    /// platform. The configured language counts where it is known; else the
    /// detector is asked about the project's directory, if one is
    /// registered. The configured platform counts where there is one; else
    /// the language implies it.
    pub fn load_local_config(&mut self, config: ProjectConfig)
        requires
            old(self).detector_takes_all(),
        ensures
            final(self).local_config() == Some(config),
            final(self).global_config() == old(self).global_config(),
            final(self).same_project(old(self)),
            final(self).same_detectors(old(self)),
            config.language != LanguageType::Unknown ==> final(self).language() == config.language,
            config.language == LanguageType::Unknown ==> match old(self).language_detector() {
                Some(detector) => detector.ensures((old(self).project_root(),), final(self).language()),
                None => final(self).language() == LanguageType::Unknown,
            },
            final(self).platform() == resolved_platform(config.platform, final(self).language()),
    {
        let detected = if config.language == LanguageType::Unknown {
            match &self.language_detector {
                Some(detector) => Some(detector(self.project_root)),
                None => None,
            }
        } else {
            None
        };
        let language = resolve_language(config.language, detected);
        self.language = language;
        self.platform = resolve_platform(config.platform, language);
        self.local_config = Some(config);
    }

    /// Asks `tasks_manager` for the inherited configuration that applies to
    /// a project of this platform, language, type and tags, and keeps what
    /// it answers. Where it fails, its error comes back and nothing
    /// changes.
    pub fn inherit_global_config<M, E>(&mut self, tasks_manager: &M) -> (result: Result<(), E>)
        where
            M: Fn(&PlatformType, &LanguageType, &ProjectType, &Vec<Id>) -> Result<
                InheritedTasksResult,
                E,
            >,
        requires
            old(self).local_config() is Some,
            forall|
                platform: &PlatformType,
                language: &LanguageType,
                type_of: &ProjectType,
                tags: &Vec<Id>,
            |
                tasks_manager.requires((platform, language, type_of, tags)),
        ensures
            final(self).local_config() == old(self).local_config(),
            final(self).same_project(old(self)),
            final(self).same_detectors(old(self)),
            final(self).same_resolution(old(self)),
            match result {
                Ok(()) => final(self).global_config() is Some && tasks_manager.ensures(
                    (
                        &old(self).platform(),
                        &old(self).language(),
                        &old(self).local_config()->0.type_of,
                        &old(self).local_config()->0.tags,
                    ),
                    Ok(final(self).global_config()->0),
                ),
                Err(error) => final(self).global_config() == old(self).global_config()
                    && tasks_manager.ensures(
                    (
                        &old(self).platform(),
                        &old(self).language(),
                        &old(self).local_config()->0.type_of,
                        &old(self).local_config()->0.tags,
                    ),
                    Err(error),
                ),
            },
    {
        let answer = match &self.local_config {
            Some(local) => tasks_manager(&self.platform, &self.language, &local.type_of, &local.tags),
            None => { return Ok(()); },
        };
        match answer {
            Ok(inherited) => {
                self.global_config = Some(inherited);
                Ok(())
            },
            Err(error) => Err(error),
        }
    }

    /// Adds a dependency that the project graph implies, unless the project
    /// declares one on the same project already: a declared dependency is
    /// never replaced. The new one counts as implicit unless it says
    /// otherwise.
    pub fn extend_with_dependency(&mut self, config: DependencyConfig)
        requires
            old(self).local_config() is Some,
        ensures
            final(self).local_config() is Some,
            final(self).local_config()->0.depends_on.deep_view() == extended_with_dependency(
                old(self).local_config()->0.depends_on.deep_view(),
                config@,
            ),
            same_but_depends_on(old(self).local_config()->0, final(self).local_config()->0),
            final(self).global_config() == old(self).global_config(),
            final(self).same_project(old(self)),
            final(self).same_detectors(old(self)),
            final(self).same_resolution(old(self)),
    {
        let mut local = match self.local_config.take() {
            Some(local) => local,
            None => { return ; },
        };
        let ghost before = local.depends_on.deep_view();
        if !has_dependency(&local.depends_on, &config.id) {
            let source = match config.source {
                Some(source) => source,
                None => DependencySource::Implicit,
            };
            let full = DependencyConfig { id: config.id, scope: config.scope, source: Some(source) };
            local.depends_on.push(ProjectDependsOn::Object(full));
            assert(local.depends_on.deep_view() =~= extended_with_dependency(before, config@));
        }
        assert(local.depends_on.deep_view() =~= extended_with_dependency(before, config@));
        self.local_config = Some(local);
    }

    /// Adds a task that the project graph implies, unless the project
    /// declares a task of that identifier already: a declared task is never
    /// replaced.
    pub fn extend_with_task(&mut self, id: Id, config: TaskConfig)
        requires
            old(self).local_config() is Some,
        ensures
            final(self).local_config() is Some,
            final(self).local_config()->0.tasks@ == extended_with_task(
                old(self).local_config()->0.tasks@,
                id@,
                config,
            ),
            same_but_tasks(old(self).local_config()->0, final(self).local_config()->0),
            final(self).global_config() == old(self).global_config(),
            final(self).same_project(old(self)),
            final(self).same_detectors(old(self)),
            final(self).same_resolution(old(self)),
    {
        let mut local = match self.local_config.take() {
            Some(local) => local,
            None => { return ; },
        };
        local.tasks.insert_if_absent(id, config);
        self.local_config = Some(local);
    }

    /// The declarations that the project's dependencies are resolved from.
    pub open spec fn declared_dependencies(&self) -> Seq<crate::dependency::ProjectDependsOnView> {
        match self.local_config() {
            Some(local) => local.depends_on.deep_view(),
            None => Seq::empty(),
        }
    }

    /// What the task resolver is handed: where the project lies, the
    /// platform it settled on, the platform detector with its toolchain
    /// configuration, and both configurations as far as they are there.
    pub open spec fn tasks_request(&self) -> TasksRequest<'_, P, C> {
        TasksRequest {
            id: self.id(),
            source: self.source(),
            workspace_root: self.workspace_root(),
            platform: self.platform(),
            platform_detector: self.platform_detector(),
            toolchain_config: self.toolchain_config(),
            inherited: match self.global_config() {
                Some(global) => Some(&global.config),
                None => None,
            },
            inherited_choice: match (self.global_config(), self.local_config()) {
                (Some(_), Some(local)) => Some(&local.inherited_tasks),
                _ => None,
            },
            local: match self.local_config() {
                Some(local) => Some(&local),
                None => None,
            },
        }
    }

    /// Whether `project` is what this builder builds, its tasks apart: the
    /// project's place, language and platform as the builder has them; its
    /// dependencies and file groups resolved from the configurations; the
    /// inherited configuration as it was kept; and the project's own
    /// configuration as it stands, or an empty one where none was loaded.
    pub open spec fn builds<T>(&self, project: Project<T>) -> bool {
        &&& project.id@ == self.id()@
        &&& project.source@ == self.source()@
        &&& project.root@ == self.project_root()@
        &&& project.language == self.language()
        &&& project.platform == self.platform()
        &&& project.type_of == project.config.type_of
        &&& dependencies_of(project.dependencies) == resolved_dependencies(
            self.declared_dependencies(),
        )
        &&& file_groups_of(project.file_groups) == resolved_file_groups(
            inherited_file_inputs(self.global_config()),
            local_file_inputs(self.local_config()),
            self.source()@,
        )
        &&& project.inherited == self.global_config()
        &&& match self.local_config() {
            Some(local) => project.config == local,
            None => is_empty_config(project.config),
        }
    }

    /// What the project declares, as far as resolving reads it.
    pub open spec fn declared(&self) -> Declared {
        Declared {
            source: self.source()@,
            depends_on: self.declared_dependencies(),
            file_groups: local_file_inputs(self.local_config()),
        }
    }

    /// A project that this builder builds holds the resolution of what the
    /// builder's project declares, read against the inherited file groups
    /// that the builder was handed, and of nothing else.
    pub proof fn built_project_is_resolved<T>(&self, project: Project<T>)
        requires
            self.builds(project),
        ensures
            resolution_of(project) == resolved(
                self.declared(),
                inherited_file_inputs(self.global_config()),
            ),
    {
    }

    /// The dependencies of the project, resolved from its declarations.
    fn build_dependencies(&self) -> (dependencies: rustc_hash::FxHashMap<Id, DependencyConfig>)
        ensures
            dependencies_of(dependencies) == resolved_dependencies(self.declared_dependencies()),
    {
        match &self.local_config {
            Some(local) => resolve_dependencies(&local.depends_on),
            None => {
                let declared: Vec<ProjectDependsOn> = Vec::new();
                assert(declared.deep_view() =~= Seq::empty());
                resolve_dependencies(&declared)
            },
        }
    }

    /// The file groups of the project: the inherited ones, the project's
    /// own over them, all workspace relative.
    fn build_file_groups(&self) -> (groups: rustc_hash::FxHashMap<Id, crate::file_group::FileGroup>)
        ensures
            file_groups_of(groups) == resolved_file_groups(
                inherited_file_inputs(self.global_config()),
                local_file_inputs(self.local_config()),
                self.source()@,
            ),
    {
        let inherited = match &self.global_config {
            Some(global) => Some(&global.config.file_groups),
            None => None,
        };
        let local = match &self.local_config {
            Some(local) => Some(&local.file_groups),
            None => None,
        };
        resolve_file_groups(inherited, local, self.source)
    }

    /// Builds the project around the tasks that the task resolver made.
    pub fn assemble<T>(self, tasks: T) -> (project: Project<T>)
        ensures
            self.builds(project),
            project.tasks == tasks,
    {
        let dependencies = self.build_dependencies();
        let file_groups = self.build_file_groups();
        let config = match self.local_config {
            Some(local) => local,
            None => ProjectConfig::default(),
        };
        Project {
            id: Id::raw(self.id),
            source: self.source.to_owned(),
            root: self.project_root.to_owned(),
            language: self.language,
            platform: self.platform,
            type_of: config.type_of,
            dependencies,
            file_groups,
            tasks,
            inherited: self.global_config,
            config,
        }
    }

    /// Builds the project. The tasks are made by `resolve_tasks`, which is
    /// handed `tasks_request`; where it fails, its error comes back.
    pub fn build<T, E, R>(self, resolve_tasks: R) -> (result: Result<Project<T>, E>)
        where
            R: FnOnce(TasksRequest<'_, P, C>) -> Result<T, E>,
        requires
            forall|request: TasksRequest<'_, P, C>| resolve_tasks.requires((request,)),
        ensures
            match result {
                Ok(project) => self.builds(project) && resolve_tasks.ensures(
                    (self.tasks_request(),),
                    Ok(project.tasks),
                ),
                Err(error) => resolve_tasks.ensures((self.tasks_request(),), Err(error)),
            },
    {
        let mut builder = self;
        let platform_detector = builder.platform_detector.take();
        let request = TasksRequest {
            id: builder.id,
            source: builder.source,
            workspace_root: builder.workspace_root,
            platform: builder.platform,
            platform_detector,
            toolchain_config: builder.toolchain_config,
            inherited: match &builder.global_config {
                Some(global) => Some(&global.config),
                None => None,
            },
            inherited_choice: match (&builder.global_config, &builder.local_config) {
                (Some(_), Some(local)) => Some(&local.inherited_tasks),
                _ => None,
            },
            local: match &builder.local_config {
                Some(local) => Some(local),
                None => None,
            },
        };
        assert(request == self.tasks_request());
        match resolve_tasks(request) {
            Ok(tasks) => Ok(builder.assemble(tasks)),
            Err(error) => Err(error),
        }
    }
}

} // verus!
