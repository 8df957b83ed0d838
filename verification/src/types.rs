//! Plain-value types shared by the capability interface: errors, open and
//! descriptor flags, file metadata, directory entries and seek positions.

use vstd::prelude::*;

verus! {

/// The errors that surface from this layer.  `PermissionDenied` is the one
/// error the read-only filter raises itself; every other variant is produced
/// by the inner capability and propagated unchanged.
#[derive(Clone, Copy, Debug, PartialEq, Eq, Structural)]
pub enum FsError {
    /// The operation would mutate the filesystem and was denied.
    PermissionDenied,
    /// No entry with the given name exists.
    NotFound,
    /// An entry with the given name already exists.
    AlreadyExists,
    /// A directory was required but the entry is not one.
    NotADirectory,
    /// The entry is a directory and the operation needs a non-directory.
    IsADirectory,
    /// The directory is not empty.
    NotEmpty,
    /// An argument is out of range (for example a seek before the start).
    Invalid,
    /// The inner capability does not support the request.
    Unsupported,
}

/// The type of a filesystem object.
#[derive(Clone, Copy, Debug, PartialEq, Eq, Structural)]
pub enum FileType {
    Directory,
    RegularFile,
    SymbolicLink,
    Unknown,
}

/// Open flags for opening an entry inside a directory.
#[derive(Clone, Copy, Debug, PartialEq, Eq, Structural)]
pub struct OFlags {
    /// Create the entry if it does not exist.
    pub create: bool,
    /// Require the entry to be a directory.
    pub directory: bool,
    /// Together with `create`: fail if the entry already exists.
    pub exclusive: bool,
    /// Truncate the file to length zero on open.
    pub truncate: bool,
}

/// Descriptor flags attached to an open file handle.
#[derive(Clone, Copy, Debug, PartialEq, Eq, Structural)]
pub struct FdFlags {
    pub append: bool,
    pub dsync: bool,
    pub nonblock: bool,
    pub rsync: bool,
    pub sync: bool,
}

impl FdFlags {
    /// Flags with every bit cleared.
    pub fn none() -> (r: FdFlags)
        ensures
            r == (FdFlags { append: false, dsync: false, nonblock: false, rsync: false, sync: false }),
    {
        FdFlags { append: false, dsync: false, nonblock: false, rsync: false, sync: false }
    }
}

/// File metadata as reported by `get_filestat` and `get_path_filestat`.
#[derive(Clone, Copy, Debug, PartialEq, Eq, Structural)]
pub struct Filestat {
    pub filetype: FileType,
    pub inode: u64,
    pub nlink: u64,
    pub size: u64,
    pub atim: u64,
    pub mtim: u64,
    pub ctim: u64,
}

/// An access-pattern hint for `advise`; a pure performance hint, never an
/// observable mutation.
#[derive(Clone, Copy, Debug, PartialEq, Eq, Structural)]
pub enum Advice {
    Normal,
    Sequential,
    Random,
    WillNeed,
    DontNeed,
    NoReuse,
}

/// A seek request for `seek`.
#[derive(Clone, Copy, Debug, PartialEq, Eq, Structural)]
pub enum SeekFrom {
    /// An absolute offset from the start of the file.
    Start(u64),
    /// A signed offset from the current cursor.
    Current(i64),
    /// A signed offset from the end of the file.
    End(i64),
}

/// A timestamp argument for `set_times`: either an absolute time or the
/// clock of the filesystem at the moment of the call.
#[derive(Clone, Copy, Debug, PartialEq, Eq, Structural)]
pub enum TimeSpec {
    Now,
    Absolute(u64),
}

/// The platform readiness handle returned by `pollable`: a borrowed file
/// descriptor on POSIX-like platforms, a raw handle or socket on the other
/// supported platform family.
#[derive(Clone, Copy, Debug, PartialEq, Eq, Structural)]
pub enum PollHandle {
    Fd(u64),
    HandleOrSocket(u64),
}

/// One directory entry as produced by `readdir`.
#[derive(Debug)]
pub struct ReaddirEntity {
    pub name: String,
    pub inode: u64,
    pub filetype: FileType,
}

} // verus!
