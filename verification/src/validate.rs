use schematic::{PathSegment, ValidateError};
use vstd::prelude::*;

verus! {

/// `schematic::ValidateError`: the failure of one setting, made of a message
/// and the path from the validated value to the part that failed.
#[verifier::external_type_specification]
pub struct ExValidateError(ValidateError);

/// `schematic::Path`: a list of path segments that the crate keeps private.
#[verifier::external_type_specification]
#[verifier::external_body]
pub struct ExSettingPath(schematic::Path);

/// The error that `ValidateError::new` builds from a message: that message
/// with the empty path, which points at the validated value itself.
pub uninterp spec fn error_at_root(message: Seq<char>) -> ValidateError;

/// The path whose only segment is the list index `index`.
pub uninterp spec fn index_path(index: usize) -> schematic::Path;

/// `ValidateError::new`, which copies the message and takes the default,
/// empty path.
#[verifier::external_body]
pub(crate) fn new_error(message: &str) -> (error: ValidateError)
    ensures
        error == error_at_root(message@),
        error.message@ == message@,
{
    ValidateError::new(message)
}

/// `ValidateError::with_segment` with `PathSegment::Index`, which copies the
/// message and makes a path of that one segment.
#[verifier::external_body]
pub(crate) fn new_error_at_index(message: &str, index: usize) -> (error: ValidateError)
    ensures
        error.message@ == message@,
        error.path == index_path(index),
{
    ValidateError::with_segment(message, PathSegment::Index(index))
}

} // verus!
