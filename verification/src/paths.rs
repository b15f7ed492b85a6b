//! What a caller has found out about a path on disk, as a plain value.

use vstd::prelude::*;

verus! {

/// What was found at a path when it was looked up.
#[derive(Clone, Copy, Debug, PartialEq, Eq, Structural)]
pub enum PathKind {
    /// Nothing is there.
    Missing,
    /// A regular file that may not be executed.
    File,
    /// A regular file that may be executed.
    Executable,
    /// A directory.
    Directory,
    /// Something else: a socket, a device.
    Other,
}

impl PathKind {
    /// Whether anything is at the path.
    pub fn is_present(self) -> (found: bool)
        ensures
            found == (self != PathKind::Missing),
    {
        !matches!(self, PathKind::Missing)
    }

    /// Whether the path names a regular file.
    pub fn is_file(self) -> (file: bool)
        ensures
            file == (self == PathKind::File || self == PathKind::Executable),
    {
        matches!(self, PathKind::File | PathKind::Executable)
    }

    /// Whether the path names a regular file that may be executed.
    pub fn is_executable(self) -> (executable: bool)
        ensures
            executable == (self == PathKind::Executable),
    {
        matches!(self, PathKind::Executable)
    }

    /// Whether the path names a directory.
    pub fn is_dir(self) -> (dir: bool)
        ensures
            dir == (self == PathKind::Directory),
    {
        matches!(self, PathKind::Directory)
    }
}

} // verus!
