//! Plain-value model of what one filesystem metadata query reported.
//!
//! The library never queries the filesystem itself; the caller performs
//! the query and hands the outcome over as an `FsMetadata` value, so the
//! metadata-to-attribute mapping can be verified on every possible
//! outcome.

use vstd::prelude::*;

verus! {

/// A point in time: seconds and nanoseconds relative to the Unix epoch.
#[derive(Clone, Copy, Debug, PartialEq, Eq, Structural)]
pub struct Timestamp {
    pub secs: i64,
    pub nanos: u32,
}

/// What a successful metadata query reported about one path.
///
/// Each timestamp is `None` when the platform call for it failed or the
/// platform does not record it; a missing timestamp is never an error.
#[derive(Clone, Copy, Debug)]
pub struct FsMetadata {
    /// The path names a regular file.
    pub is_file: bool,
    /// The path names a directory.  Anything that is neither a regular
    /// file nor a directory (symlink targets aside) leaves both flags
    /// false and is handled like a directory without entries.
    pub is_dir: bool,
    /// Last access time, if the platform reported one.
    pub accessed: Option<Timestamp>,
    /// Creation time, if the platform reported one.
    pub created: Option<Timestamp>,
    /// Last modification time, if the platform reported one.
    pub modified: Option<Timestamp>,
}

} // verus!
