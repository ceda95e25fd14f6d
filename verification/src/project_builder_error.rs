use crate::id::Id;
use vstd::prelude::*;
use vstd::string::StringExecFns;

verus! {

/// Why a project could not be found or resolved.
#[derive(Debug, PartialEq, Eq)]
pub enum ProjectBuilderError {
    /// The directory that the project's source path names does not exist.
    MissingAtSource(String),
    /// No project lies at or above a path.
    MissingFromPath(String),
    /// No project of the workspace has this identifier.
    UnconfiguredID(Id),
}

/// The text before what an error names.
pub open spec fn error_prefix(error: ProjectBuilderError) -> Seq<char> {
    match error {
        ProjectBuilderError::MissingAtSource(_) => "No project exists at path "@,
        ProjectBuilderError::MissingFromPath(_) => "No project could be located starting from path "@,
        ProjectBuilderError::UnconfiguredID(_) => "No project has been configured with the ID "@,
    }
}

/// What an error names: a path or an identifier.
pub open spec fn error_subject(error: ProjectBuilderError) -> Seq<char> {
    match error {
        ProjectBuilderError::MissingAtSource(path) => path@,
        ProjectBuilderError::MissingFromPath(path) => path@,
        ProjectBuilderError::UnconfiguredID(id) => id@,
    }
}

/// The code under which an error is reported.
pub open spec fn error_code(error: ProjectBuilderError) -> Seq<char> {
    match error {
        ProjectBuilderError::MissingAtSource(_) => "project::missing_source"@,
        ProjectBuilderError::MissingFromPath(_) => "project::missing_path"@,
        ProjectBuilderError::UnconfiguredID(_) => "project::unknown"@,
    }
}

impl ProjectBuilderError {
    /// The code under which this error is reported.
    pub fn code(&self) -> (code: &'static str)
        ensures
            code@ == error_code(*self),
    {
        match self {
            ProjectBuilderError::MissingAtSource(_) => "project::missing_source",
            ProjectBuilderError::MissingFromPath(_) => "project::missing_path",
            ProjectBuilderError::UnconfiguredID(_) => "project::unknown",
        }
    }

    /// The sentence that reports this error: what went wrong, the path or
    /// identifier concerned, and a full stop.
    pub fn message(&self) -> (message: String)
        ensures
            message@ == error_prefix(*self) + error_subject(*self) + "."@,
    {
        let mut message = match self {
            ProjectBuilderError::MissingAtSource(_) => String::from_str("No project exists at path "),
            ProjectBuilderError::MissingFromPath(_) => String::from_str(
                "No project could be located starting from path ",
            ),
            ProjectBuilderError::UnconfiguredID(_) => String::from_str(
                "No project has been configured with the ID ",
            ),
        };
        match self {
            ProjectBuilderError::MissingAtSource(path) => message.append(path.as_str()),
            ProjectBuilderError::MissingFromPath(path) => message.append(path.as_str()),
            ProjectBuilderError::UnconfiguredID(id) => message.append(id.as_str()),
        }
        message.append(".");
        message
    }
}

} // verus!
