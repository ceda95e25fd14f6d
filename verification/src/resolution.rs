use crate::dependency::{resolved_dependencies, ProjectDependsOnView};
use crate::file_group::resolved_file_groups;
use crate::maps::{DependenciesView, FileGroupsView, FileInputsView};
use vstd::prelude::*;

verus! {

/// What one project declares, as far as resolving reads it: where its
/// sources lie, what it depends on, and its own file groups where it has a
/// configuration.
pub struct Declared {
    pub source: Seq<char>,
    pub depends_on: Seq<ProjectDependsOnView>,
    pub file_groups: Option<FileInputsView>,
}

/// What resolving makes of one project.
#[verifier::ext_equal]
pub struct Resolved {
    pub dependencies: DependenciesView,
    pub file_groups: FileGroupsView,
}

/// The projects of a workspace that are resolved so far, with the
/// inherited file groups that all of them read.
#[verifier::ext_equal]
pub struct Resolutions {
    pub inherited: Option<FileInputsView>,
    pub projects: Map<Seq<char>, Resolved>,
}

/// What resolving makes of a project that reads `inherited`.
pub open spec fn resolved(declared: Declared, inherited: Option<FileInputsView>) -> Resolved {
    Resolved {
        dependencies: resolved_dependencies(declared.depends_on),
        file_groups: resolved_file_groups(inherited, declared.file_groups, declared.source),
    }
}

/// The workspace after the project `id` is resolved: the project has its
/// resolution, and nothing else changes.
pub open spec fn after_resolving(
    before: Resolutions,
    id: Seq<char>,
    declared: Declared,
) -> Resolutions {
    Resolutions {
        inherited: before.inherited,
        projects: before.projects.insert(id, resolved(declared, before.inherited)),
    }
}

/// Two different projects of one workspace can be resolved in either
/// order: the workspace ends up the same, each project with the resolution
/// it would have had alone, and what they inherit is as before.
pub proof fn resolving_in_either_order(
    before: Resolutions,
    first_id: Seq<char>,
    first: Declared,
    second_id: Seq<char>,
    second: Declared,
)
    requires
        first_id != second_id,
    ensures
        after_resolving(after_resolving(before, first_id, first), second_id, second)
            == after_resolving(after_resolving(before, second_id, second), first_id, first),
        after_resolving(after_resolving(before, first_id, first), second_id, second).inherited
            == before.inherited,
        after_resolving(
            after_resolving(before, first_id, first),
            second_id,
            second,
        ).projects[first_id] == resolved(first, before.inherited),
        after_resolving(
            after_resolving(before, first_id, first),
            second_id,
            second,
        ).projects[second_id] == resolved(second, before.inherited),
{
    let one_way = after_resolving(after_resolving(before, first_id, first), second_id, second);
    let other_way = after_resolving(after_resolving(before, second_id, second), first_id, first);
    assert(one_way.projects =~= other_way.projects);
    assert(one_way =~= other_way);
}

} // verus!
