//! The lazy file accessor: a deferred-open handle holding only the path
//! and the size recorded at discovery time.
//!
//! The accessor never holds an open resource.  The caller performs the
//! actual opens (the probe open at construction time and every later
//! content open) and hands their outcomes in as plain values; the
//! decisions about what to keep, what to return and which error to
//! surface are made here and verified.

use vstd::prelude::*;

use crate::error::LocalError;

verus! {

/// A deferred-open content accessor for one regular file.
///
/// Immutable after construction: `{path, size}` are captured once and
/// never re-queried, so the value is safe to persist and restore.
pub struct LocalVFileBuilder {
    file_path: String,
    size: u64,
}

impl LocalVFileBuilder {
    /// The path this accessor reopens.
    pub closed spec fn path_spec(self) -> Seq<char> {
        self.file_path@
    }

    /// The size cached at construction time.
    pub closed spec fn size_spec(self) -> u64 {
        self.size
    }

    /// Builds an accessor from the outcome of the caller's probe.
    ///
    /// `probe` reports what the probe open found: `Some(size)` when the
    /// probe open succeeded and the follow-up metadata query returned
    /// `size`; `None` when either step failed.  An accessor exists only
    /// for a successful probe; otherwise the open failure is reported,
    /// carrying the path.
    pub fn new(file_path: String, probe: Option<u64>) -> (r: Result<LocalVFileBuilder, LocalError>)
        ensures
            match r {
                Ok(b) => probe is Some && b.path_spec() == file_path@ && b.size_spec()
                    == probe->0,
                Err(e) => probe is None && e.is_open_file(file_path@),
            },
    {
        match probe {
            Some(size) => Ok(LocalVFileBuilder { file_path, size }),
            None => Err(LocalError::OpenFile(file_path)),
        }
    }

    /// Returns the recorded path, the one every later open reopens.
    pub fn path(&self) -> (r: &String)
        ensures
            r@ == self.path_spec(),
    {
        &self.file_path
    }

    /// Returns the size cached at construction; the file is never
    /// re-queried, so the value is stable even after the file changes
    /// or disappears.
    pub fn size(&self) -> (r: u64)
        ensures
            r == self.size_spec(),
    {
        self.size
    }

    /// Completes one `open()` call from the outcome of the caller's
    /// fresh open of the recorded path.
    ///
    /// Each call is handed the stream of its own independent open (or
    /// `None` when that open failed), so two calls share no cursor and
    /// no cached content.  A failed open is reported as an open failure
    /// carrying the recorded path; the accessor itself is untouched
    /// either way.
    pub fn open<R>(&self, stream: Option<R>) -> (r: Result<R, LocalError>)
        ensures
            match r {
                Ok(s) => stream == Some(s),
                Err(e) => stream is None && e.is_open_file(self.path_spec()),
            },
    {
        match stream {
            Some(s) => Ok(s),
            None => Err(LocalError::OpenFile(self.file_path.clone())),
        }
    }
}

} // verus!
