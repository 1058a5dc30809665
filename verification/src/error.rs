//! Error taxonomy of the ingestion library.

use vstd::prelude::*;

verus! {

/// An error surfaced by the library.
///
/// Discovery-time failures (a path that does not resolve, a failed probe
/// open, an unreadable directory) are tolerated and never produce an
/// error; only the two situations below do.
#[derive(Debug)]
pub enum LocalError {
    /// A file could not be opened; carries the path that failed.
    OpenFile(String),
    /// A node was inserted under a parent id that is not in the tree;
    /// carries the offending id.  This failure is fatal to a run.
    InvalidParent(usize),
}

impl LocalError {
    /// True when this error is an open failure carrying exactly `path`.
    pub open spec fn is_open_file(self, path: Seq<char>) -> bool {
        match self {
            LocalError::OpenFile(p) => p@ == path,
            LocalError::InvalidParent(_) => false,
        }
    }

    /// True when this error is an insertion failure for parent id `id`.
    pub open spec fn is_invalid_parent(self, id: usize) -> bool {
        match self {
            LocalError::OpenFile(_) => false,
            LocalError::InvalidParent(p) => p == id,
        }
    }
}

} // verus!
