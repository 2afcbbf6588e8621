//! Why a run, or one file of it, did not succeed.

use vstd::prelude::*;

verus! {

/// The kinds of failure. The first two concern the directories and end the
/// whole run before any file is touched; the others concern one file and
/// leave the rest of the batch alone.
#[derive(Clone, Copy, Debug, PartialEq, Eq, Hash, Structural)]
pub enum ErrorKind {
    /// The input directory is missing or cannot be read.
    DirectoryAccessError,
    /// The output directory cannot be created or used.
    OutputDirError,
    /// The bytes of a file are not a readable image.
    DecodeError,
    /// A decoded raster has a width or a height of zero.
    InvalidDimensions,
    /// The rotated image could not be written.
    EncodeError,
}

impl ErrorKind {
    /// A failure of this kind ends the whole run.
    pub open spec fn fatal(self) -> bool {
        self == ErrorKind::DirectoryAccessError || self == ErrorKind::OutputDirError
    }

    /// Whether a failure of this kind ends the whole run.
    pub fn is_fatal(&self) -> (fatal: bool)
        ensures
            fatal == self.fatal(),
    {
        match self {
            ErrorKind::DirectoryAccessError => true,
            ErrorKind::OutputDirError => true,
            ErrorKind::DecodeError => false,
            ErrorKind::InvalidDimensions => false,
            ErrorKind::EncodeError => false,
        }
    }
}

} // verus!
