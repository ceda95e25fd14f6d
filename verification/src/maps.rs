use crate::dependency::{DependencyConfig, DependencyConfigView};
use crate::file_group::{FileGroup, FileGroupView};
use crate::id::Id;
use crate::portable_path::{PortablePath, PortablePathView};
use rustc_hash::FxHashMap;
use vstd::prelude::*;

verus! {

/// `rustc_hash::FxBuildHasher`, the hasher of every `FxHashMap`.
#[verifier::external_type_specification]
#[verifier::external_body]
pub struct ExFxBuildHasher(rustc_hash::FxBuildHasher);

/// The path patterns of each file group, as configuration declares them.
pub type FileGroupsMap = FxHashMap<Id, Vec<PortablePath>>;

/// The variables of an environment map, each name with its value.
pub type EnvView = Map<Seq<char>, Seq<char>>;

/// The declared file groups, each identifier with its patterns.
pub type FileInputsView = Map<Seq<char>, Seq<PortablePathView>>;

/// The resolved file groups by identifier.
pub type FileGroupsView = Map<Seq<char>, FileGroupView>;

/// The resolved dependencies by the project they depend on.
pub type DependenciesView = Map<Seq<char>, DependencyConfigView>;

/// What an environment map holds.
pub uninterp spec fn env_of(env: FxHashMap<String, String>) -> EnvView;

/// What a map of declared file groups holds.
pub uninterp spec fn file_inputs_of(groups: FileGroupsMap) -> FileInputsView;

/// What a map of resolved file groups holds.
pub uninterp spec fn file_groups_of(groups: FxHashMap<Id, FileGroup>) -> FileGroupsView;

/// What a map of resolved dependencies holds.
pub uninterp spec fn dependencies_of(dependencies: FxHashMap<Id, DependencyConfig>) -> DependenciesView;

/// `FxHashMap::default`, which makes a map without entries.
#[verifier::external_body]
pub(crate) fn new_env() -> (env: FxHashMap<String, String>)
    ensures
        env_of(env) == EnvView::empty(),
{
    FxHashMap::default()
}

/// `FxHashMap::default`, which makes a map without entries.
#[verifier::external_body]
pub(crate) fn new_file_inputs() -> (groups: FileGroupsMap)
    ensures
        file_inputs_of(groups) == FileInputsView::empty(),
{
    FxHashMap::default()
}

/// `HashMap::iter` on a map of declared file groups, each entry copied out.
/// The map is walked in an order that the hasher decides, so the list is
/// specified as a set: every entry of the list is an entry of the map, and
/// every identifier of the map occurs in the list.
#[verifier::external_body]
pub(crate) fn file_inputs_entries(groups: &FileGroupsMap) -> (entries: Vec<(Id, Vec<PortablePath>)>)
    ensures
        forall|k: int|
            0 <= k < entries.len() ==> file_inputs_of(*groups).contains_key(
                #[trigger] entries[k].0@,
            ) && file_inputs_of(*groups)[entries[k].0@] == entries[k].1.deep_view(),
        forall|id: Seq<char>|
            file_inputs_of(*groups).contains_key(id) ==> exists|k: int|
                0 <= k < entries.len() && #[trigger] entries[k].0@ == id,
{
    groups.iter().map(|(id, inputs)| (id.clone(), inputs.clone())).collect()
}

/// `FxHashMap::default`, which makes a map without entries.
#[verifier::external_body]
pub(crate) fn new_file_groups() -> (groups: FxHashMap<Id, FileGroup>)
    ensures
        file_groups_of(groups) == FileGroupsView::empty(),
{
    FxHashMap::default()
}

/// `HashMap::insert` on a map of resolved file groups: the group becomes
/// the value of the identifier, in place of an earlier one.
#[verifier::external_body]
pub(crate) fn insert_file_group(groups: &mut FxHashMap<Id, FileGroup>, id: Id, group: FileGroup)
    ensures
        file_groups_of(*final(groups)) == file_groups_of(*old(groups)).insert(id@, group@),
{
    groups.insert(id, group);
}

/// `FxHashMap::default`, which makes a map without entries.
#[verifier::external_body]
pub(crate) fn new_dependencies() -> (dependencies: FxHashMap<Id, DependencyConfig>)
    ensures
        dependencies_of(dependencies) == DependenciesView::empty(),
{
    FxHashMap::default()
}

/// `HashMap::insert` on a map of resolved dependencies: the dependency
/// becomes the value of the identifier, in place of an earlier one.
#[verifier::external_body]
pub(crate) fn insert_dependency(
    dependencies: &mut FxHashMap<Id, DependencyConfig>,
    id: Id,
    config: DependencyConfig,
)
    ensures
        dependencies_of(*final(dependencies)) == dependencies_of(*old(dependencies)).insert(
            id@,
            config@,
        ),
{
    dependencies.insert(id, config);
}

} // verus!
