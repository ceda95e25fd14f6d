use crate::id::Id;
use vstd::prelude::*;

verus! {

/// Which projects a target reaches.
#[derive(Debug, PartialEq, Eq, Hash)]
pub enum TargetScope {
    /// Every project of the workspace.
    All,
    /// The project that declares the target.
    OwnSelf,
    /// The project with this identifier.
    Project(Id),
    /// Every project that carries this tag.
    Tag(Id),
}

/// A reference to a task: the projects it reaches and the task's name.
#[derive(Debug, PartialEq, Eq, Hash)]
pub struct Target {
    pub scope: TargetScope,
    pub task_id: Id,
}

impl Clone for TargetScope {
    fn clone(&self) -> (copy: Self)
        ensures
            copy == *self,
    {
        match self {
            TargetScope::All => TargetScope::All,
            TargetScope::OwnSelf => TargetScope::OwnSelf,
            TargetScope::Project(id) => TargetScope::Project(id.clone()),
            TargetScope::Tag(id) => TargetScope::Tag(id.clone()),
        }
    }
}

impl Clone for Target {
    fn clone(&self) -> (copy: Self)
        ensures
            copy == *self,
    {
        Target { scope: self.scope.clone(), task_id: self.task_id.clone() }
    }
}

/// Whether a task may depend on a target of this scope. A dependency has to
/// name the projects it runs in, so the two scopes that reach an open set of
/// projects are refused.
pub open spec fn scope_allowed_in_deps(scope: TargetScope) -> bool {
    !(scope is All) && !(scope is Tag)
}

impl TargetScope {
    pub fn allowed_in_deps(&self) -> (allowed: bool)
        ensures
            allowed == scope_allowed_in_deps(*self),
    {
        match self {
            TargetScope::All | TargetScope::Tag(_) => false,
            TargetScope::OwnSelf | TargetScope::Project(_) => true,
        }
    }
}

} // verus!
