use crate::id::Id;
use crate::maps::{
    file_groups_of, file_inputs_entries, file_inputs_of, insert_file_group, new_file_groups,
    FileGroupsMap, FileGroupsView, FileInputsView,
};
use crate::portable_path::{
    all_workspace_relative, is_workspace_relative, to_workspace_relative_all, PortablePath,
    PortablePathView,
};
use rustc_hash::FxHashMap;
use vstd::prelude::*;

verus! {

/// A named list of path patterns, each read from the workspace root. The
/// order of the patterns is kept.
#[derive(Debug, PartialEq, Eq)]
pub struct FileGroup {
    pub id: Id,
    pub patterns: Vec<PortablePath>,
}

/// A file group as contracts see it.
pub struct FileGroupView {
    pub id: Seq<char>,
    pub patterns: Seq<PortablePathView>,
}

impl View for FileGroup {
    type V = FileGroupView;

    open spec fn view(&self) -> FileGroupView {
        FileGroupView { id: self.id@, patterns: self.patterns.deep_view() }
    }
}

/// The group named `id` that a project at `source` makes of the patterns
/// `inputs`: the same patterns in the same order, each workspace relative.
pub open spec fn file_group_from(
    id: Seq<char>,
    inputs: Seq<PortablePathView>,
    source: Seq<char>,
) -> FileGroupView {
    FileGroupView { id, patterns: all_workspace_relative(inputs, source) }
}

/// Whether every pattern of `group` is read from the workspace root.
pub open spec fn group_is_workspace_relative(group: FileGroupView) -> bool {
    forall|k: int|
        0 <= k < group.patterns.len() ==> is_workspace_relative(#[trigger] group.patterns[k].kind)
}

impl FileGroup {
    /// A group without patterns.
    pub fn new(id: Id) -> (group: FileGroup)
        ensures
            group@.id == id@,
            group@.patterns.len() == 0,
    {
        FileGroup { id, patterns: Vec::new() }
    }

    /// The group that the project at `project_source` makes of `inputs`.
    pub fn new_with_source(id: Id, inputs: &Vec<PortablePath>, project_source: &str) -> (group:
        FileGroup)
        ensures
            group@ == file_group_from(id@, inputs.deep_view(), project_source@),
            group_is_workspace_relative(group@),
    {
        let patterns = to_workspace_relative_all(inputs, project_source);
        FileGroup { id, patterns }
    }
}

/// The groups that a project at `source` makes of declared file groups, one
/// for each.
pub open spec fn groups_from(inputs: FileInputsView, source: Seq<char>) -> FileGroupsView {
    Map::new(
        |id: Seq<char>| inputs.contains_key(id),
        |id: Seq<char>| file_group_from(id, inputs[id], source),
    )
}

/// The declared file groups of a project: the inherited ones, and over them
/// the project's own. A group that both declare is the project's, whole:
/// the two lists of patterns are never combined.
pub open spec fn merged_file_inputs(
    inherited: Option<FileInputsView>,
    local: Option<FileInputsView>,
) -> FileInputsView {
    let base = match inherited {
        Some(groups) => groups,
        None => Map::empty(),
    };
    match local {
        Some(groups) => base.union_prefer_right(groups),
        None => base,
    }
}

/// The file groups of a project at `source`.
pub open spec fn resolved_file_groups(
    inherited: Option<FileInputsView>,
    local: Option<FileInputsView>,
    source: Seq<char>,
) -> FileGroupsView {
    groups_from(merged_file_inputs(inherited, local), source)
}

/// Whether one of the first `count` entries has the identifier `id`.
pub open spec fn listed(entries: Seq<(Id, Vec<PortablePath>)>, count: int, id: Seq<char>) -> bool {
    exists|k: int| 0 <= k < count && #[trigger] entries[k].0@ == id
}

/// `before` with the groups of the first `count` entries laid over it.
pub open spec fn overlaid(
    before: FileGroupsView,
    inputs: FileInputsView,
    entries: Seq<(Id, Vec<PortablePath>)>,
    count: int,
    source: Seq<char>,
) -> FileGroupsView {
    Map::new(
        |id: Seq<char>| before.contains_key(id) || listed(entries, count, id),
        |id: Seq<char>|
            if listed(entries, count, id) {
                file_group_from(id, inputs[id], source)
            } else {
                before[id]
            },
    )
}

/// Lays the groups that a project at `project_source` makes of `inputs`
/// over `groups`: a group of `inputs` replaces one of the same identifier,
/// and every other group stays.
pub fn add_file_groups(
    groups: &mut FxHashMap<Id, FileGroup>,
    inputs: &FileGroupsMap,
    project_source: &str,
)
    ensures
        file_groups_of(*final(groups)) == file_groups_of(*old(groups)).union_prefer_right(
            groups_from(file_inputs_of(*inputs), project_source@),
        ),
{
    let entries = file_inputs_entries(inputs);
    let ghost before = file_groups_of(*groups);
    let ghost declared = file_inputs_of(*inputs);
    let mut i: usize = 0;
    assert(file_groups_of(*groups) =~= overlaid(before, declared, entries@, 0, project_source@));
    while i < entries.len()
        invariant
            i <= entries.len(),
            declared == file_inputs_of(*inputs),
            forall|k: int|
                0 <= k < entries.len() ==> declared.contains_key(#[trigger] entries[k].0@)
                    && declared[entries[k].0@] == entries[k].1.deep_view(),
            file_groups_of(*groups) == overlaid(
                before,
                declared,
                entries@,
                i as int,
                project_source@,
            ),
        decreases entries.len() - i,
    {
        let id = entries[i].0.clone();
        let group = FileGroup::new_with_source(id.clone(), &entries[i].1, project_source);
        let ghost current = file_groups_of(*groups);
        insert_file_group(groups, id, group);
        proof {
            let next = overlaid(before, declared, entries@, i + 1, project_source@);
            assert(entries@[i as int].0@ == id@);
            assert forall|key: Seq<char>|
                listed(entries@, i + 1, key) <==> (listed(entries@, i as int, key) || key == id@) by {
                if listed(entries@, i + 1, key) {
                    let k = choose|k: int| 0 <= k < i + 1 && #[trigger] entries@[k].0@ == key;
                    if k < i {
                        assert(listed(entries@, i as int, key));
                    }
                }
                if listed(entries@, i as int, key) {
                    let k = choose|k: int| 0 <= k < i && #[trigger] entries@[k].0@ == key;
                    assert(0 <= k < i + 1 && entries@[k].0@ == key);
                }
                if key == id@ {
                    assert(0 <= i < i + 1 && entries@[i as int].0@ == key);
                }
            }
            assert(current.insert(id@, group@) =~= next);
        }
        i += 1;
    }
    proof {
        let done = overlaid(before, declared, entries@, entries.len() as int, project_source@);
        let wanted = before.union_prefer_right(groups_from(declared, project_source@));
        assert forall|key: Seq<char>|
            listed(entries@, entries.len() as int, key) <==> declared.contains_key(key) by {
            if listed(entries@, entries.len() as int, key) {
                let k = choose|k: int| 0 <= k < entries.len() && #[trigger] entries@[k].0@ == key;
                assert(declared.contains_key(entries@[k].0@));
            }
            if declared.contains_key(key) {
                let k = choose|k: int| 0 <= k < entries.len() && #[trigger] entries[k].0@ == key;
                assert(0 <= k < entries.len() && entries@[k].0@ == key);
            }
        }
        assert(done =~= wanted);
    }
}

/// Resolves the file groups of a project at `project_source`: the
/// inherited groups first, where there are any, and the project's own over
/// them, each with its patterns made workspace relative.
pub fn resolve_file_groups(
    inherited: Option<&FileGroupsMap>,
    local: Option<&FileGroupsMap>,
    project_source: &str,
) -> (groups: FxHashMap<Id, FileGroup>)
    ensures
        file_groups_of(groups) == resolved_file_groups(
            match inherited {
                Some(declared) => Some(file_inputs_of(*declared)),
                None => None,
            },
            match local {
                Some(declared) => Some(file_inputs_of(*declared)),
                None => None,
            },
            project_source@,
        ),
{
    let mut groups = new_file_groups();
    if let Some(declared) = inherited {
        add_file_groups(&mut groups, declared, project_source);
    }
    if let Some(declared) = local {
        add_file_groups(&mut groups, declared, project_source);
    }
    proof {
        let inherited_view = match inherited {
            Some(declared) => Some(file_inputs_of(*declared)),
            None => None,
        };
        let local_view = match local {
            Some(declared) => Some(file_inputs_of(*declared)),
            None => None,
        };
        assert(file_groups_of(groups) =~= resolved_file_groups(
            inherited_view,
            local_view,
            project_source@,
        ));
    }
    groups
}

/// A file group that the project declares is the project's alone, whatever
/// the workspace declares under the same identifier; a group that only the
/// workspace declares stays; each keeps its patterns in their order, made
/// workspace relative; and there is no other group.
pub proof fn local_file_groups_replace_inherited(
    inherited: FileInputsView,
    local: FileInputsView,
    source: Seq<char>,
    id: Seq<char>,
)
    ensures
        resolved_file_groups(Some(inherited), Some(local), source).contains_key(id) <==> (
        inherited.contains_key(id) || local.contains_key(id)),
        local.contains_key(id) ==> resolved_file_groups(Some(inherited), Some(local), source)[id]
            == file_group_from(id, local[id], source),
        inherited.contains_key(id) && !local.contains_key(id) ==> resolved_file_groups(
            Some(inherited),
            Some(local),
            source,
        )[id] == file_group_from(id, inherited[id], source),
        resolved_file_groups(Some(inherited), Some(local), source).contains_key(id)
            ==> group_is_workspace_relative(
            resolved_file_groups(Some(inherited), Some(local), source)[id],
        ),
{
}

/// Without inherited configuration the file groups are the project's own,
/// and without a configuration of its own they are the inherited ones.
pub proof fn file_groups_of_one_source(declared: FileInputsView, source: Seq<char>)
    ensures
        resolved_file_groups(None, Some(declared), source) == groups_from(declared, source),
        resolved_file_groups(Some(declared), None, source) == groups_from(declared, source),
        resolved_file_groups(None, None, source) == FileGroupsView::empty(),
{
    assert(Map::<Seq<char>, Seq<PortablePathView>>::empty().union_prefer_right(declared)
        =~= declared);
    assert(resolved_file_groups(None, None, source) =~= FileGroupsView::empty());
}

} // verus!
