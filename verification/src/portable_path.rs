use relative_path::RelativePath;
use vstd::prelude::*;

verus! {

/// What a path pattern refers to, and from where it is read.
#[derive(Clone, Copy, Debug, PartialEq, Eq, Hash, Structural)]
pub enum PathKind {
    /// The name of an environment variable.
    EnvVar,
    /// A literal path below the project's source directory.
    ProjectFile,
    /// A glob below the project's source directory.
    ProjectGlob,
    /// A literal path below the workspace root.
    WorkspaceFile,
    /// A glob below the workspace root.
    WorkspaceGlob,
}

/// A path pattern as a configuration file writes it.
#[derive(Debug, PartialEq, Eq, Hash)]
pub enum PortablePath {
    EnvVar(String),
    ProjectFile(String),
    ProjectGlob(String),
    WorkspaceFile(String),
    WorkspaceGlob(String),
}

/// A path pattern as contracts see it: its kind and its characters.
pub struct PortablePathView {
    pub kind: PathKind,
    pub text: Seq<char>,
}

impl View for PortablePath {
    type V = PortablePathView;

    open spec fn view(&self) -> PortablePathView {
        match self {
            PortablePath::EnvVar(text) => PortablePathView { kind: PathKind::EnvVar, text: text@ },
            PortablePath::ProjectFile(text) => PortablePathView {
                kind: PathKind::ProjectFile,
                text: text@,
            },
            PortablePath::ProjectGlob(text) => PortablePathView {
                kind: PathKind::ProjectGlob,
                text: text@,
            },
            PortablePath::WorkspaceFile(text) => PortablePathView {
                kind: PathKind::WorkspaceFile,
                text: text@,
            },
            PortablePath::WorkspaceGlob(text) => PortablePathView {
                kind: PathKind::WorkspaceGlob,
                text: text@,
            },
        }
    }
}

impl DeepView for PortablePath {
    type V = PortablePathView;

    open spec fn deep_view(&self) -> PortablePathView {
        self@
    }
}

impl Clone for PortablePath {
    fn clone(&self) -> (copy: Self)
        ensures
            copy == *self,
    {
        match self {
            PortablePath::EnvVar(text) => PortablePath::EnvVar(text.clone()),
            PortablePath::ProjectFile(text) => PortablePath::ProjectFile(text.clone()),
            PortablePath::ProjectGlob(text) => PortablePath::ProjectGlob(text.clone()),
            PortablePath::WorkspaceFile(text) => PortablePath::WorkspaceFile(text.clone()),
            PortablePath::WorkspaceGlob(text) => PortablePath::WorkspaceGlob(text.clone()),
        }
    }
}

/// `path` appended to `base` as a relative path: one leading `/` of `path` is
/// dropped, and a `/` is put between the two unless `base` is empty or ends
/// in one already.
pub open spec fn joined(base: Seq<char>, path: Seq<char>) -> Seq<char> {
    let tail = if path.len() > 0 && path[0] == '/' {
        path.skip(1)
    } else {
        path
    };
    if base.len() > 0 && base.last() != '/' {
        base.push('/') + tail
    } else {
        base + tail
    }
}

/// Whether a pattern of this kind is read from the workspace root, or from
/// no directory at all.
pub open spec fn is_workspace_relative(kind: PathKind) -> bool {
    kind != PathKind::ProjectFile && kind != PathKind::ProjectGlob
}

/// The pattern that names, from the workspace root, what `path` names from
/// the project whose source directory is `source`.
pub open spec fn workspace_relative(path: PortablePathView, source: Seq<char>) -> PortablePathView {
    match path.kind {
        PathKind::ProjectFile => PortablePathView {
            kind: PathKind::WorkspaceFile,
            text: joined(source, path.text),
        },
        PathKind::ProjectGlob => PortablePathView {
            kind: PathKind::WorkspaceGlob,
            text: joined(source, path.text),
        },
        _ => path,
    }
}

/// Every pattern of `paths` made workspace relative, in the same order.
pub open spec fn all_workspace_relative(
    paths: Seq<PortablePathView>,
    source: Seq<char>,
) -> Seq<PortablePathView> {
    Seq::new(paths.len(), |i: int| workspace_relative(paths[i], source))
}

/// `RelativePath::join` of the `relative-path` crate, on strings. Its source
/// copies `base`, appends a `/` unless the copy is empty or ends in one, and
/// then appends `path` without its first character where that is a `/`.
#[verifier::external_body]
pub(crate) fn join_relative(base: &str, path: &str) -> (out: String)
    ensures
        out@ == joined(base@, path@),
{
    RelativePath::new(base).join(path).into_string()
}

impl PortablePath {
    pub fn kind(&self) -> (kind: PathKind)
        ensures
            kind == self@.kind,
    {
        match self {
            PortablePath::EnvVar(_) => PathKind::EnvVar,
            PortablePath::ProjectFile(_) => PathKind::ProjectFile,
            PortablePath::ProjectGlob(_) => PathKind::ProjectGlob,
            PortablePath::WorkspaceFile(_) => PathKind::WorkspaceFile,
            PortablePath::WorkspaceGlob(_) => PathKind::WorkspaceGlob,
        }
    }

    pub fn as_str(&self) -> (text: &str)
        ensures
            text@ == self@.text,
    {
        match self {
            PortablePath::EnvVar(text) => text.as_str(),
            PortablePath::ProjectFile(text) => text.as_str(),
            PortablePath::ProjectGlob(text) => text.as_str(),
            PortablePath::WorkspaceFile(text) => text.as_str(),
            PortablePath::WorkspaceGlob(text) => text.as_str(),
        }
    }

    pub fn is_glob(&self) -> (glob: bool)
        ensures
            glob == (self@.kind == PathKind::ProjectGlob || self@.kind == PathKind::WorkspaceGlob),
    {
        match self {
            PortablePath::ProjectGlob(_) | PortablePath::WorkspaceGlob(_) => true,
            _ => false,
        }
    }

    /// Rewrites a pattern of the project at `project_source` so that it reads
    /// from the workspace root. A pattern that does so already, and the name
    /// of an environment variable, come back unchanged.
    pub fn to_workspace_relative(&self, project_source: &str) -> (out: PortablePath)
        ensures
            out@ == workspace_relative(self@, project_source@),
            is_workspace_relative(out@.kind),
    {
        match self {
            PortablePath::ProjectFile(text) => PortablePath::WorkspaceFile(
                join_relative(project_source, text.as_str()),
            ),
            PortablePath::ProjectGlob(text) => PortablePath::WorkspaceGlob(
                join_relative(project_source, text.as_str()),
            ),
            PortablePath::EnvVar(text) => PortablePath::EnvVar(text.clone()),
            PortablePath::WorkspaceFile(text) => PortablePath::WorkspaceFile(text.clone()),
            PortablePath::WorkspaceGlob(text) => PortablePath::WorkspaceGlob(text.clone()),
        }
    }
}

/// Rewrites each pattern of `paths` as `PortablePath::to_workspace_relative`
/// does, keeping their order.
pub fn to_workspace_relative_all(paths: &Vec<PortablePath>, project_source: &str) -> (out: Vec<
    PortablePath,
>)
    ensures
        out.deep_view() == all_workspace_relative(paths.deep_view(), project_source@),
{
    let mut out: Vec<PortablePath> = Vec::new();
    let mut i: usize = 0;
    while i < paths.len()
        invariant
            i <= paths.len(),
            out.len() == i,
            forall|k: int| 0 <= k < i ==> out[k]@ == workspace_relative(paths[k]@, project_source@),
        decreases paths.len() - i,
    {
        out.push(paths[i].to_workspace_relative(project_source));
        i += 1;
    }
    assert(out.deep_view() =~= all_workspace_relative(paths.deep_view(), project_source@));
    out
}

} // verus!
