use vstd::prelude::*;

use crate::error::UpdateError;
use crate::extract::ExtractResult;
use crate::progress::Progress;

verus! {

/// The filesystem collaborator of the install steps. The decisions — what
/// to remove, what to rename, in which order, and how to recover — are
/// made by the verified steps; implementations of this trait perform the
/// operations, outside the library. A fault-injection implementation
/// exercises the recovery branches in tests.
pub trait FileSystem {
    /// Whether a file exists at `path`.
    fn is_file(&mut self, path: &str) -> bool;

    /// Whether a directory exists at `path`.
    fn is_dir(&mut self, path: &str) -> bool;

    /// Removes the file at `path`.
    fn remove_file(&mut self, path: &str) -> Result<(), UpdateError>;

    /// Renames `from` to `to`.
    fn rename(&mut self, from: &str, to: &str) -> Result<(), UpdateError>;

    /// Copies the bytes of the temporary file at `file` into a new file
    /// at `to`, flushed before returning.
    fn copy_to(&mut self, file: &tempfile::TempPath, to: &str) -> Result<(), UpdateError>;

    /// Removes the directory at `path` with everything in it.
    fn remove_dir_all(&mut self, path: &str) -> Result<(), UpdateError>;

    /// Creates the directory at `path`.
    fn create_dir(&mut self, path: &str) -> Result<(), UpdateError>;

    /// Extracts the zip archive in the temporary file at `archive` into
    /// the directory `target`, entry by entry: it publishes the total
    /// uncompressed size through `progress`, polls the cancellation flag
    /// before each entry, and reapplies stored permission bits where the
    /// platform has them.
    fn extract_zip(
        &mut self,
        archive: tempfile::TempPath,
        target: &str,
        progress: &mut Progress,
    ) -> Result<ExtractResult, UpdateError>;
}

} // verus!
