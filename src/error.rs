use vstd::prelude::*;

verus! {

#[verifier::external_type_specification]
#[verifier::external_body]
pub struct ExGitError(git2::Error);

#[verifier::external_type_specification]
#[verifier::external_body]
pub struct ExHighlightError(syntect::Error);

/// The failures of the renderer.
#[derive(Debug)]
pub enum GititError {
    /// The object store failed (I/O, corrupt object, ...).
    GitError(git2::Error),
    /// Unknown repository, commit, path or object kind.
    NotFound,
    /// A malformed object id.
    InvalidInput,
    /// The syntax highlighter failed.
    HighlightingError(syntect::Error),
    /// A blob or patch line that was to be shown as text is not UTF-8.
    DecodingError,
}

/// How a lookup in the object store failed: the thing asked for is not
/// there, or the store itself failed.
pub enum LookupFailure {
    Missing,
    Store(git2::Error),
}

impl LookupFailure {
    /// The renderer's error for a failed lookup: a missing object is
    /// `NotFound`, any other failure is passed on.
    pub fn into_error(self) -> (r: GititError)
        ensures
            (self is Missing) == (r is NotFound),
            self is Store ==> r is GitError,
    {
        match self {
            LookupFailure::Missing => GititError::NotFound,
            LookupFailure::Store(e) => GititError::GitError(e),
        }
    }
}

} // verus!
