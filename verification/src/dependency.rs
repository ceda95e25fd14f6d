use crate::id::Id;
use crate::maps::{dependencies_of, insert_dependency, new_dependencies};
use rustc_hash::FxHashMap;
use vstd::prelude::*;

verus! {

/// When a dependency is needed.
#[derive(Clone, Copy, Debug, PartialEq, Eq, Hash, Structural)]
pub enum DependencyScope {
    Development,
    Peer,
    Production,
}

impl Default for DependencyScope {
    fn default() -> (scope: Self)
        ensures
            scope == DependencyScope::Production,
    {
        DependencyScope::Production
    }
}

/// Who declared a dependency: the project's author, or the analysis of the
/// project graph.
#[derive(Clone, Copy, Debug, PartialEq, Eq, Hash, Structural)]
pub enum DependencySource {
    Explicit,
    Implicit,
}

/// A dependency on another project, in full.
#[derive(Debug, PartialEq, Eq)]
pub struct DependencyConfig {
    pub id: Id,
    pub scope: DependencyScope,
    pub source: Option<DependencySource>,
}

/// A dependency as contracts see it.
pub struct DependencyConfigView {
    pub id: Seq<char>,
    pub scope: DependencyScope,
    pub source: Option<DependencySource>,
}

impl View for DependencyConfig {
    type V = DependencyConfigView;

    open spec fn view(&self) -> DependencyConfigView {
        DependencyConfigView { id: self.id@, scope: self.scope, source: self.source }
    }
}

impl Clone for DependencyConfig {
    fn clone(&self) -> (copy: Self)
        ensures
            copy == *self,
    {
        DependencyConfig { id: self.id.clone(), scope: self.scope, source: self.source }
    }
}

/// A dependency as a project's configuration declares it: the other
/// project's identifier alone, or the full form.
#[derive(Debug, PartialEq, Eq)]
pub enum ProjectDependsOn {
    String(Id),
    Object(DependencyConfig),
}

/// A declared dependency as contracts see it.
pub enum ProjectDependsOnView {
    String(Seq<char>),
    Object(DependencyConfigView),
}

impl View for ProjectDependsOn {
    type V = ProjectDependsOnView;

    open spec fn view(&self) -> ProjectDependsOnView {
        match self {
            ProjectDependsOn::String(id) => ProjectDependsOnView::String(id@),
            ProjectDependsOn::Object(config) => ProjectDependsOnView::Object(config@),
        }
    }
}

impl DeepView for ProjectDependsOn {
    type V = ProjectDependsOnView;

    open spec fn deep_view(&self) -> ProjectDependsOnView {
        self@
    }
}

impl Clone for ProjectDependsOn {
    fn clone(&self) -> (copy: Self)
        ensures
            copy == *self,
    {
        match self {
            ProjectDependsOn::String(id) => ProjectDependsOn::String(id.clone()),
            ProjectDependsOn::Object(config) => ProjectDependsOn::Object(config.clone()),
        }
    }
}

/// The project that a declaration depends on.
pub open spec fn declared_id(declaration: ProjectDependsOnView) -> Seq<char> {
    match declaration {
        ProjectDependsOnView::String(id) => id,
        ProjectDependsOnView::Object(config) => config.id,
    }
}

/// Whether some declaration of `declared` depends on the project `id`.
pub open spec fn declares(declared: Seq<ProjectDependsOnView>, id: Seq<char>) -> bool {
    exists|at: int| 0 <= at < declared.len() && declared_id(#[trigger] declared[at]) == id
}

/// `config` with `fallback` as its provenance where it has none. A
/// provenance that is set stays.
pub open spec fn with_provenance(
    config: DependencyConfigView,
    fallback: DependencySource,
) -> DependencyConfigView {
    DependencyConfigView {
        id: config.id,
        scope: config.scope,
        source: Some(
            match config.source {
                Some(source) => source,
                None => fallback,
            },
        ),
    }
}

/// The declarations after a dependency that the project graph implies came
/// in. Where a declaration depends on the same project already, nothing
/// changes; else the dependency is added at the end, in full, and counted as
/// implicit unless it says otherwise.
pub open spec fn extended_with_dependency(
    declared: Seq<ProjectDependsOnView>,
    config: DependencyConfigView,
) -> Seq<ProjectDependsOnView> {
    if declares(declared, config.id) {
        declared
    } else {
        declared.push(
            ProjectDependsOnView::Object(with_provenance(config, DependencySource::Implicit)),
        )
    }
}

/// The dependency that a declaration stands for: a bare identifier is a
/// production dependency, and a declaration without provenance is the
/// author's own.
pub open spec fn normalized(declaration: ProjectDependsOnView) -> DependencyConfigView {
    match declaration {
        ProjectDependsOnView::String(id) => DependencyConfigView {
            id,
            scope: DependencyScope::Production,
            source: Some(DependencySource::Explicit),
        },
        ProjectDependsOnView::Object(config) => with_provenance(config, DependencySource::Explicit),
    }
}

/// The dependencies of a project by the project they depend on. Of two
/// declarations for one project the later one counts.
pub open spec fn resolved_dependencies(declared: Seq<ProjectDependsOnView>) -> Map<
    Seq<char>,
    DependencyConfigView,
>
    decreases declared.len(),
{
    if declared.len() == 0 {
        Map::empty()
    } else {
        resolved_dependencies(declared.drop_last()).insert(
            declared_id(declared.last()),
            normalized(declared.last()),
        )
    }
}

/// Whether `at` is the place of the last declaration of `declared` that
/// depends on the project `id`.
pub open spec fn is_last_declaration(
    declared: Seq<ProjectDependsOnView>,
    id: Seq<char>,
    at: int,
) -> bool {
    &&& 0 <= at < declared.len()
    &&& declared_id(declared[at]) == id
    &&& forall|later: int| at < later < declared.len() ==> declared_id(#[trigger] declared[later]) != id
}

impl DependencyConfig {
    /// A production dependency on `id` whose provenance is not set.
    pub fn new(id: Id) -> (config: DependencyConfig)
        ensures
            config.id == id,
            config.scope == DependencyScope::Production,
            config.source is None,
    {
        DependencyConfig { id, scope: DependencyScope::Production, source: None }
    }
}

impl ProjectDependsOn {
    /// The project that this declaration depends on.
    pub fn id(&self) -> (id: &Id)
        ensures
            id@ == declared_id(self@),
    {
        match self {
            ProjectDependsOn::String(id) => id,
            ProjectDependsOn::Object(config) => &config.id,
        }
    }

    /// The dependency that this declaration stands for.
    pub fn normalize(&self) -> (config: DependencyConfig)
        ensures
            config@ == normalized(self@),
            config.source is Some,
    {
        match self {
            ProjectDependsOn::String(id) => DependencyConfig {
                id: id.clone(),
                scope: DependencyScope::Production,
                source: Some(DependencySource::Explicit),
            },
            ProjectDependsOn::Object(config) => DependencyConfig {
                id: config.id.clone(),
                scope: config.scope,
                source: match config.source {
                    Some(source) => Some(source),
                    None => Some(DependencySource::Explicit),
                },
            },
        }
    }
}

/// Tells whether some declaration of `declared` depends on the project `id`.
pub fn has_dependency(declared: &Vec<ProjectDependsOn>, id: &Id) -> (found: bool)
    ensures
        found == declares(declared.deep_view(), id@),
{
    let mut i: usize = 0;
    while i < declared.len()
        invariant
            i <= declared.len(),
            forall|k: int| 0 <= k < i ==> declared_id(#[trigger] declared.deep_view()[k]) != id@,
        decreases declared.len() - i,
    {
        assert(declared.deep_view()[i as int] == declared[i as int]@);
        if declared[i].id().same_as(id) {
            return true;
        }
        i += 1;
    }
    false
}

/// Resolves the declared dependencies of a project: each declaration in
/// full, with the author's provenance where it has none, under the project
/// it depends on. A later declaration for the same project replaces an
/// earlier one.
pub fn resolve_dependencies(declared: &Vec<ProjectDependsOn>) -> (dependencies: FxHashMap<
    Id,
    DependencyConfig,
>)
    ensures
        dependencies_of(dependencies) == resolved_dependencies(declared.deep_view()),
{
    let mut dependencies = new_dependencies();
    let mut i: usize = 0;
    while i < declared.len()
        invariant
            i <= declared.len(),
            dependencies_of(dependencies) == resolved_dependencies(
                declared.deep_view().take(i as int),
            ),
        decreases declared.len() - i,
    {
        let config = declared[i].normalize();
        let id = config.id.clone();
        proof {
            let all = declared.deep_view();
            assert(all[i as int] == declared[i as int]@);
            assert(all.take(i + 1).drop_last() =~= all.take(i as int));
            assert(all.take(i + 1).last() == all[i as int]);
        }
        insert_dependency(&mut dependencies, id, config);
        i += 1;
    }
    assert(declared.deep_view().take(declared.len() as int) =~= declared.deep_view());
    dependencies
}

/// What `resolved_dependencies` holds: a project has a dependency exactly
/// where a declaration depends on it; that dependency is the one that the
/// project's last declaration stands for; it carries the project's
/// identifier, and its provenance is set.
pub proof fn resolved_dependencies_are_last_declarations(
    declared: Seq<ProjectDependsOnView>,
    id: Seq<char>,
)
    ensures
        resolved_dependencies(declared).contains_key(id) <==> declares(declared, id),
        resolved_dependencies(declared).contains_key(id) ==> {
            let config = resolved_dependencies(declared)[id];
            &&& config.id == id
            &&& config.source is Some
            &&& exists|at: int| #[trigger]
                is_last_declaration(declared, id, at) && config == normalized(declared[at])
        },
    decreases declared.len(),
{
    if declared.len() > 0 {
        let front = declared.drop_last();
        let last = declared.last();
        resolved_dependencies_are_last_declarations(front, id);
        if declared_id(last) == id {
            assert(declared_id(declared[declared.len() - 1]) == id);
            assert(is_last_declaration(declared, id, declared.len() - 1));
        } else {
            if declares(front, id) {
                let at = choose|at: int|
                    0 <= at < front.len() && declared_id(#[trigger] front[at]) == id;
                assert(declared[at] == front[at]);
                let config = resolved_dependencies(front)[id];
                let place = choose|place: int| #[trigger]
                    is_last_declaration(front, id, place) && config == normalized(front[place]);
                assert(declared[place] == front[place]);
                assert forall|later: int| place < later < declared.len() implies declared_id(
                    #[trigger] declared[later],
                ) != id by {
                    if later < front.len() {
                        assert(declared[later] == front[later]);
                    }
                }
                assert(is_last_declaration(declared, id, place));
            }
            if declares(declared, id) {
                let at = choose|at: int|
                    0 <= at < declared.len() && declared_id(#[trigger] declared[at]) == id;
                assert(at < front.len());
                assert(front[at] == declared[at]);
            }
        }
    }
}

/// A dependency that the project graph implies never replaces one that is
/// declared: after the dependency `first` came in, a second one on the same
/// project changes nothing. Where no declaration depended on that project
/// before, exactly one does afterwards, the last, and it is `first` in full,
/// implicit unless `first` said otherwise.
pub proof fn extending_twice_keeps_the_first(
    declared: Seq<ProjectDependsOnView>,
    first: DependencyConfigView,
    second: DependencyConfigView,
)
    requires
        first.id == second.id,
    ensures
        extended_with_dependency(extended_with_dependency(declared, first), second)
            == extended_with_dependency(declared, first),
        declares(extended_with_dependency(declared, first), first.id),
        !declares(declared, first.id) ==> {
            let after = extended_with_dependency(
                extended_with_dependency(declared, first),
                second,
            );
            &&& after.len() == declared.len() + 1
            &&& after.last() == ProjectDependsOnView::Object(
                with_provenance(first, DependencySource::Implicit),
            )
            &&& forall|at: int|
                0 <= at < after.len() && declared_id(#[trigger] after[at]) == first.id ==> at
                    == declared.len()
        },
{
    let once = extended_with_dependency(declared, first);
    if declares(declared, first.id) {
    } else {
        assert(declared_id(once[declared.len() as int]) == first.id);
        assert forall|at: int|
            0 <= at < once.len() && declared_id(#[trigger] once[at]) == first.id implies at
            == declared.len() by {
            if at < declared.len() {
                assert(declared[at] == once[at]);
            }
        }
    }
    assert(declares(once, first.id));
}

/// A dependency that is declared keeps what it says: extending leaves every
/// declaration that was there in its place.
pub proof fn extending_keeps_declarations(
    declared: Seq<ProjectDependsOnView>,
    config: DependencyConfigView,
    at: int,
)
    requires
        0 <= at < declared.len(),
    ensures
        extended_with_dependency(declared, config)[at] == declared[at],
{
}

} // verus!
