//! The error taxonomy of the archive writer.

use vstd::prelude::*;

verus! {

/// Every way an archive operation can fail.
#[derive(Clone, Copy, Debug, PartialEq, Eq, Structural)]
pub enum ArchiveError {
    /// `open` was called with a mode outside `{"w", "w:gz"}`.
    UnsupportedMode,
    /// A mutating call was made after the archive was closed.
    ArchiveClosed,
    /// No archive name was given and none can be derived from the source path.
    NameDerivation,
    /// The source path names nothing that can be archived (it does not exist,
    /// or it is a symlink with no resolvable target).
    MissingSource,
    /// The entry could not be serialized (for example, its archive name is not
    /// a valid relative tar path).
    Io,
}

} // verus!
