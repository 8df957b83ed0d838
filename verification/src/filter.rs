//! The read-only capability filter: wrappers around a directory or file
//! capability that re-expose its full operation surface while denying
//! every operation that could mutate the filesystem.
//!
//! Each operation of the shared interface is classified once, by kind:
//! anything that alters tree structure, link targets, timestamps, content,
//! size or descriptor flags is denied unconditionally, without inspecting
//! its arguments and without invoking the inner capability; anything
//! purely observational is delegated verbatim, and any capability the
//! delegate returns is re-wrapped before it is handed out, so
//! read-only-ness propagates through the whole subtree.

use vstd::prelude::*;
use crate::inner::{
    only_counted, open_result, path_stat_result, read_link_result, read_slice,
    readdir_result, ready_bytes, seek_result, InnerDir, InnerFile, InnerFs, InnerOpen, NodeId,
};
use crate::types::{
    Advice, FdFlags, FileType, Filestat, FsError, OFlags, PollHandle, ReaddirEntity, SeekFrom,
    TimeSpec,
};

verus! {

/// A read-only wrapper around one directory capability.  It must not be
/// cloned or aliased: it owns its inner capability for its whole life.
pub struct ReadOnlyDir(pub InnerDir);

/// A read-only wrapper around one file capability.
pub struct ReadOnlyFile(pub InnerFile);

/// What opening an entry through a read-only wrapper yields: the handle
/// the inner capability produced, already re-wrapped.
pub enum ReadOnlyOpen {
    Dir(ReadOnlyDir),
    File(ReadOnlyFile),
}

/// The directory operation kinds of the capability interface.  `Open`
/// carries the one argument the filter inspects: whether write access is
/// requested.
#[derive(Clone, Copy, Debug, PartialEq, Eq, Structural)]
pub enum DirOpKind {
    Open { write: bool },
    CreateDir,
    ReadDir,
    Symlink,
    RemoveDir,
    UnlinkFile,
    ReadLink,
    GetFilestat,
    GetPathFilestat,
    Rename,
    HardLink,
    SetTimes,
}

/// The file operation kinds of the capability interface.
#[derive(Clone, Copy, Debug, PartialEq, Eq, Structural)]
pub enum FileOpKind {
    GetFiletype,
    Pollable,
    Isatty,
    Datasync,
    Sync,
    GetFdflags,
    SetFdflags,
    GetFilestat,
    SetFilestatSize,
    Advise,
    SetTimes,
    ReadVectored,
    ReadVectoredAt,
    WriteVectoredAt,
    Seek,
    Peek,
    NumReadyBytes,
    Readable,
    Writable,
}

/// Whether a directory operation kind can mutate the filesystem: exactly
/// those that create, remove, move or re-time entries, and opening with
/// write access.
pub open spec fn dir_op_mutates(k: DirOpKind) -> bool {
    match k {
        DirOpKind::Open { write } => write,
        DirOpKind::CreateDir => true,
        DirOpKind::ReadDir => false,
        DirOpKind::Symlink => true,
        DirOpKind::RemoveDir => true,
        DirOpKind::UnlinkFile => true,
        DirOpKind::ReadLink => false,
        DirOpKind::GetFilestat => false,
        DirOpKind::GetPathFilestat => false,
        DirOpKind::Rename => true,
        DirOpKind::HardLink => true,
        DirOpKind::SetTimes => true,
    }
}

/// Whether a file operation kind can mutate the filesystem: exactly those
/// that change flags, size, timestamps or content, and waiting for
/// writability (meaningless on a file that can never be written).
pub open spec fn file_op_mutates(k: FileOpKind) -> bool {
    match k {
        FileOpKind::GetFiletype => false,
        FileOpKind::Pollable => false,
        FileOpKind::Isatty => false,
        FileOpKind::Datasync => false,
        FileOpKind::Sync => false,
        FileOpKind::GetFdflags => false,
        FileOpKind::SetFdflags => true,
        FileOpKind::GetFilestat => false,
        FileOpKind::SetFilestatSize => true,
        FileOpKind::Advise => false,
        FileOpKind::SetTimes => true,
        FileOpKind::ReadVectored => false,
        FileOpKind::ReadVectoredAt => false,
        FileOpKind::WriteVectoredAt => true,
        FileOpKind::Seek => false,
        FileOpKind::Peek => false,
        FileOpKind::NumReadyBytes => false,
        FileOpKind::Readable => false,
        FileOpKind::Writable => true,
    }
}

/// The one decision the filter takes per call.
#[derive(Clone, Copy, Debug, PartialEq, Eq, Structural)]
pub enum Action {
    /// Forward the call, unchanged, to the inner capability.
    Delegate,
    /// Fail immediately with `PermissionDenied`; the inner capability is
    /// not involved.
    Deny,
}

/// The action a read-only wrapper takes for a directory operation: a
/// function of the operation kind alone, never of filesystem state or of
/// call history.
pub open spec fn dir_action(k: DirOpKind) -> Action {
    if dir_op_mutates(k) {
        Action::Deny
    } else {
        Action::Delegate
    }
}

/// The action a read-only wrapper takes for a file operation.
pub open spec fn file_action(k: FileOpKind) -> Action {
    if file_op_mutates(k) {
        Action::Deny
    } else {
        Action::Delegate
    }
}

/// Decides a directory operation, as [`dir_action`] says.
pub fn decide_dir_op(k: DirOpKind) -> (a: Action)
    ensures
        a == dir_action(k),
        a == Action::Deny <==> dir_op_mutates(k),
{
    match k {
        DirOpKind::Open { write } => if write {
            Action::Deny
        } else {
            Action::Delegate
        },
        DirOpKind::ReadDir => Action::Delegate,
        DirOpKind::ReadLink => Action::Delegate,
        DirOpKind::GetFilestat => Action::Delegate,
        DirOpKind::GetPathFilestat => Action::Delegate,
        _ => Action::Deny,
    }
}

/// Decides a file operation, as [`file_action`] says.
pub fn decide_file_op(k: FileOpKind) -> (a: Action)
    ensures
        a == file_action(k),
        a == Action::Deny <==> file_op_mutates(k),
{
    match k {
        FileOpKind::SetFdflags => Action::Deny,
        FileOpKind::SetFilestatSize => Action::Deny,
        FileOpKind::SetTimes => Action::Deny,
        FileOpKind::WriteVectoredAt => Action::Deny,
        FileOpKind::Writable => Action::Deny,
        _ => Action::Delegate,
    }
}

/// Whether an open request is admissible through a read-only wrapper:
/// exactly the requests that do not ask for write access.
pub fn open_access_permitted(read: bool, write: bool) -> (b: bool)
    ensures
        b == !write,
{
    let _ = read;
    !write
}

/// What every denied operation leaves behind: the result is
/// `PermissionDenied` and the filesystem is exactly as it was — in
/// particular the invocation count is unchanged, so the inner capability
/// was never reached.
pub open spec fn denied<T>(pre: InnerFs, post: InnerFs, r: Result<T, FsError>) -> bool {
    &&& post == pre
    &&& r == Err::<T, FsError>(FsError::PermissionDenied)
}

/// An open result of the inner capability, re-wrapped read-only: handles
/// are wrapped, errors pass through unchanged.
pub open spec fn wrap_open(r: Result<InnerOpen, FsError>) -> Result<ReadOnlyOpen, FsError> {
    match r {
        Ok(InnerOpen::Dir(d)) => Ok(ReadOnlyOpen::Dir(ReadOnlyDir(d))),
        Ok(InnerOpen::File(f)) => Ok(ReadOnlyOpen::File(ReadOnlyFile(f))),
        Err(e) => Err(e),
    }
}

impl ReadOnlyDir {
    /// Opens the entry named `path`.  A request for write access is
    /// denied before any inner open attempt; otherwise the call is
    /// delegated verbatim and whatever handle the inner capability
    /// returns comes back re-wrapped read-only.
    pub fn open_file(
        &self,
        fs: &mut InnerFs,
        symlink_follow: bool,
        path: &String,
        oflags: OFlags,
        read: bool,
        write: bool,
        fdflags: FdFlags,
    ) -> (r: Result<ReadOnlyOpen, FsError>)
        requires
            old(fs).wf(),
            old(fs).dir_ok(self.0),
        ensures
            write ==> denied(*old(fs), *final(fs), r),
            !write ==> only_counted(*old(fs), *final(fs)) && r == wrap_open(
                open_result(*old(fs), self.0, path@, oflags, write, fdflags),
            ),
            r matches Ok(ReadOnlyOpen::Dir(d2)) ==> final(fs).dir_ok(d2.0),
            r matches Ok(ReadOnlyOpen::File(f2)) ==> final(fs).file_ok(f2.0),
    {
        if !open_access_permitted(read, write) {
            return Err(FsError::PermissionDenied);
        }
        match self.0.open_file(fs, symlink_follow, path, oflags, read, write, fdflags) {
            Err(e) => Err(e),
            Ok(InnerOpen::Dir(d)) => Ok(ReadOnlyOpen::Dir(ReadOnlyDir(d))),
            Ok(InnerOpen::File(f)) => Ok(ReadOnlyOpen::File(ReadOnlyFile(f))),
        }
    }

    /// Creating a sub-directory would mutate the tree: always denied,
    /// whatever the argument, without invoking the inner capability.
    pub fn create_dir(&self, fs: &mut InnerFs, path: &String) -> (r: Result<(), FsError>)
        ensures
            denied(*old(fs), *final(fs), r),
    {
        let _ = path;
        Err(FsError::PermissionDenied)
    }

    /// Lists the entries of the wrapped directory: delegated verbatim.
    pub fn readdir(&self, fs: &mut InnerFs, cursor: u64) -> (r: Result<Vec<ReaddirEntity>, FsError>)
        requires
            old(fs).dir_ok(self.0),
        ensures
            only_counted(*old(fs), *final(fs)),
            r matches Ok(v) && v@ == readdir_result(*old(fs), self.0, cursor),
    {
        self.0.readdir(fs, cursor)
    }

    /// Creating a symbolic link would mutate the tree: always denied.
    pub fn symlink(&self, fs: &mut InnerFs, old_path: &String, new_path: &String) -> (r: Result<
        (),
        FsError,
    >)
        ensures
            denied(*old(fs), *final(fs), r),
    {
        let _ = old_path;
        let _ = new_path;
        Err(FsError::PermissionDenied)
    }

    /// Removing a sub-directory would mutate the tree: always denied.
    pub fn remove_dir(&self, fs: &mut InnerFs, path: &String) -> (r: Result<(), FsError>)
        ensures
            denied(*old(fs), *final(fs), r),
    {
        let _ = path;
        Err(FsError::PermissionDenied)
    }

    /// Removing a file entry would mutate the tree: always denied.
    pub fn unlink_file(&self, fs: &mut InnerFs, path: &String) -> (r: Result<(), FsError>)
        ensures
            denied(*old(fs), *final(fs), r),
    {
        let _ = path;
        Err(FsError::PermissionDenied)
    }

    /// Resolves a symbolic link: a read-only query, delegated verbatim.
    pub fn read_link(&self, fs: &mut InnerFs, path: &String) -> (r: Result<String, FsError>)
        requires
            old(fs).wf(),
            old(fs).dir_ok(self.0),
        ensures
            only_counted(*old(fs), *final(fs)),
            r == read_link_result(*old(fs), self.0, path@),
    {
        self.0.read_link(fs, path)
    }

    /// Reports the metadata of the wrapped directory: delegated verbatim.
    pub fn get_filestat(&self, fs: &mut InnerFs) -> (r: Result<Filestat, FsError>)
        requires
            old(fs).dir_ok(self.0),
        ensures
            only_counted(*old(fs), *final(fs)),
            r == Ok::<Filestat, FsError>(old(fs).stat_of(NodeId::Dir(self.0.node))),
    {
        self.0.get_filestat(fs)
    }

    /// Reports the metadata of a named entry: delegated verbatim.
    pub fn get_path_filestat(
        &self,
        fs: &mut InnerFs,
        path: &String,
        follow_symlinks: bool,
    ) -> (r: Result<Filestat, FsError>)
        requires
            old(fs).wf(),
            old(fs).dir_ok(self.0),
        ensures
            only_counted(*old(fs), *final(fs)),
            r == path_stat_result(*old(fs), self.0, path@, follow_symlinks),
    {
        self.0.get_path_filestat(fs, path, follow_symlinks)
    }

    /// Renaming would mutate the tree: always denied, whatever the source
    /// or destination; the inner rename is never invoked.
    pub fn rename(
        &self,
        fs: &mut InnerFs,
        path: &String,
        dest_dir: &ReadOnlyDir,
        dest_path: &String,
    ) -> (r: Result<(), FsError>)
        ensures
            denied(*old(fs), *final(fs), r),
    {
        let _ = path;
        let _ = dest_dir;
        let _ = dest_path;
        Err(FsError::PermissionDenied)
    }

    /// Creating a hard link would mutate the tree: always denied.
    pub fn hard_link(
        &self,
        fs: &mut InnerFs,
        path: &String,
        target_dir: &ReadOnlyDir,
        target_path: &String,
    ) -> (r: Result<(), FsError>)
        ensures
            denied(*old(fs), *final(fs), r),
    {
        let _ = path;
        let _ = target_dir;
        let _ = target_path;
        Err(FsError::PermissionDenied)
    }

    /// Setting timestamps on a named entry would mutate metadata: always
    /// denied.
    pub fn set_times(
        &self,
        fs: &mut InnerFs,
        path: &String,
        atime: Option<TimeSpec>,
        mtime: Option<TimeSpec>,
        follow_symlinks: bool,
    ) -> (r: Result<(), FsError>)
        ensures
            denied(*old(fs), *final(fs), r),
    {
        let _ = path;
        let _ = atime;
        let _ = mtime;
        let _ = follow_symlinks;
        Err(FsError::PermissionDenied)
    }
}

impl ReadOnlyFile {
    /// Reports the file type: delegated verbatim.
    pub fn get_filetype(&self, fs: &mut InnerFs) -> (r: Result<FileType, FsError>)
        ensures
            only_counted(*old(fs), *final(fs)),
            r == Ok::<FileType, FsError>(FileType::RegularFile),
    {
        self.0.get_filetype(fs)
    }

    /// Reports the platform readiness handle: delegated verbatim.
    pub fn pollable(&self, fs: &mut InnerFs) -> (r: Option<PollHandle>)
        ensures
            only_counted(*old(fs), *final(fs)),
            r == Some(PollHandle::Fd(self.0.node as u64)),
    {
        self.0.pollable(fs)
    }

    /// Reports whether the file is an interactive terminal: delegated
    /// verbatim.
    pub fn isatty(&self, fs: &mut InnerFs) -> (r: bool)
        ensures
            only_counted(*old(fs), *final(fs)),
            r == false,
    {
        self.0.isatty(fs)
    }

    /// Flushes data to storage: delegated — it flushes writes permitted
    /// before wrapping, it cannot introduce new ones.
    pub fn datasync(&self, fs: &mut InnerFs) -> (r: Result<(), FsError>)
        ensures
            only_counted(*old(fs), *final(fs)),
            r == Ok::<(), FsError>(()),
    {
        self.0.datasync(fs)
    }

    /// Flushes data and metadata to storage: delegated, as
    /// [`ReadOnlyFile::datasync`] is.
    pub fn sync(&self, fs: &mut InnerFs) -> (r: Result<(), FsError>)
        ensures
            only_counted(*old(fs), *final(fs)),
            r == Ok::<(), FsError>(()),
    {
        self.0.sync(fs)
    }

    /// Reports the descriptor flags: delegated verbatim.
    pub fn get_fdflags(&self, fs: &mut InnerFs) -> (r: Result<FdFlags, FsError>)
        ensures
            only_counted(*old(fs), *final(fs)),
            r == Ok::<FdFlags, FsError>(self.0.fdflags),
    {
        self.0.get_fdflags(fs)
    }

    /// Changing the descriptor flags would mutate the open-mode state:
    /// always denied, whatever the flags.
    pub fn set_fdflags(&mut self, fs: &mut InnerFs, flags: FdFlags) -> (r: Result<(), FsError>)
        ensures
            denied(*old(fs), *final(fs), r),
            *final(self) == *old(self),
    {
        let _ = flags;
        Err(FsError::PermissionDenied)
    }

    /// Reports the file metadata: delegated verbatim.
    pub fn get_filestat(&self, fs: &mut InnerFs) -> (r: Result<Filestat, FsError>)
        requires
            old(fs).file_ok(self.0),
        ensures
            only_counted(*old(fs), *final(fs)),
            r == Ok::<Filestat, FsError>(old(fs).stat_of(NodeId::File(self.0.node))),
    {
        self.0.get_filestat(fs)
    }

    /// Truncating or extending the file would mutate content: always
    /// denied, whatever the size.
    pub fn set_filestat_size(&self, fs: &mut InnerFs, size: u64) -> (r: Result<(), FsError>)
        ensures
            denied(*old(fs), *final(fs), r),
    {
        let _ = size;
        Err(FsError::PermissionDenied)
    }

    /// Takes an access-pattern hint: a pure performance hint, delegated.
    pub fn advise(&self, fs: &mut InnerFs, offset: u64, len: u64, advice: Advice) -> (r: Result<
        (),
        FsError,
    >)
        ensures
            only_counted(*old(fs), *final(fs)),
            r == Ok::<(), FsError>(()),
    {
        self.0.advise(fs, offset, len, advice)
    }

    /// Setting timestamps would mutate metadata: always denied.
    pub fn set_times(
        &self,
        fs: &mut InnerFs,
        atime: Option<TimeSpec>,
        mtime: Option<TimeSpec>,
    ) -> (r: Result<(), FsError>)
        ensures
            denied(*old(fs), *final(fs), r),
    {
        let _ = atime;
        let _ = mtime;
        Err(FsError::PermissionDenied)
    }

    /// Reads at the cursor and advances it: delegated verbatim.
    pub fn read_vectored(&mut self, fs: &mut InnerFs, want: usize) -> (r: Result<Vec<u8>, FsError>)
        requires
            old(fs).file_ok(old(self).0),
        ensures
            only_counted(*old(fs), *final(fs)),
            r matches Ok(v) && v@ == read_slice(
                old(fs).file_content(old(self).0),
                old(self).0.pos as int,
                want as int,
            ),
            final(self).0.node == old(self).0.node,
            final(self).0.fdflags == old(self).0.fdflags,
            final(self).0.pos == old(self).0.pos + read_slice(
                old(fs).file_content(old(self).0),
                old(self).0.pos as int,
                want as int,
            ).len(),
    {
        self.0.read_vectored(fs, want)
    }

    /// Reads at an explicit offset, leaving the cursor alone: delegated
    /// verbatim.
    pub fn read_vectored_at(&self, fs: &mut InnerFs, want: usize, offset: u64) -> (r: Result<
        Vec<u8>,
        FsError,
    >)
        requires
            old(fs).file_ok(self.0),
        ensures
            only_counted(*old(fs), *final(fs)),
            r matches Ok(v) && v@ == read_slice(
                old(fs).file_content(self.0),
                offset as int,
                want as int,
            ),
    {
        self.0.read_vectored_at(fs, want, offset)
    }

    /// Writing at any offset would mutate content: always denied,
    /// whatever the offset or the buffers.
    pub fn write_vectored_at(&self, fs: &mut InnerFs, data: &Vec<u8>, offset: u64) -> (r: Result<
        u64,
        FsError,
    >)
        ensures
            denied(*old(fs), *final(fs), r),
    {
        let _ = data;
        let _ = offset;
        Err(FsError::PermissionDenied)
    }

    /// Moves the cursor: delegated — seeking changes only this handle's
    /// cursor, never file content.
    pub fn seek(&mut self, fs: &mut InnerFs, from: SeekFrom) -> (r: Result<u64, FsError>)
        requires
            old(fs).file_ok(old(self).0),
        ensures
            only_counted(*old(fs), *final(fs)),
            r == seek_result(
                old(self).0.pos,
                old(fs).file_content(old(self).0).len() as u64,
                from,
            ),
            final(self).0.node == old(self).0.node,
            final(self).0.fdflags == old(self).0.fdflags,
            match r {
                Ok(p) => final(self).0.pos == p,
                Err(_) => final(self).0.pos == old(self).0.pos,
            },
    {
        self.0.seek(fs, from)
    }

    /// Peeks at upcoming bytes without moving the cursor: delegated
    /// verbatim.
    pub fn peek(&self, fs: &mut InnerFs, want: usize) -> (r: Result<Vec<u8>, FsError>)
        requires
            old(fs).file_ok(self.0),
        ensures
            only_counted(*old(fs), *final(fs)),
            r matches Ok(v) && v@ == read_slice(
                old(fs).file_content(self.0),
                self.0.pos as int,
                want as int,
            ),
    {
        self.0.peek(fs, want)
    }

    /// Reports how many bytes are immediately available: delegated
    /// verbatim.
    pub fn num_ready_bytes(&self, fs: &mut InnerFs) -> (r: Result<u64, FsError>)
        requires
            old(fs).file_ok(self.0),
        ensures
            only_counted(*old(fs), *final(fs)),
            r == Ok::<u64, FsError>(ready_bytes(
                self.0.pos,
                old(fs).file_content(self.0).len() as u64,
            )),
    {
        self.0.num_ready_bytes(fs)
    }

    /// Waits for readability: delegated — reading is permitted, so the
    /// wait is meaningful.
    pub fn readable(&self, fs: &mut InnerFs) -> (r: Result<(), FsError>)
        ensures
            only_counted(*old(fs), *final(fs)),
            r == Ok::<(), FsError>(()),
    {
        self.0.readable(fs)
    }

    /// A read-only file never becomes writable, so waiting for
    /// writability is denied at once rather than left hanging; the inner
    /// capability is not consulted.
    pub fn writable(&self, fs: &mut InnerFs) -> (r: Result<(), FsError>)
        ensures
            denied(*old(fs), *final(fs), r),
    {
        Err(FsError::PermissionDenied)
    }
}

/// Every operation kind that can mutate the filesystem is denied by the
/// read-only filter, and every kind that cannot is delegated: the
/// decision is a function of the operation kind alone, so it holds for
/// all arguments, all filesystem states and all call histories.
pub proof fn lemma_classification_total(dk: DirOpKind, fk: FileOpKind)
    ensures
        dir_action(dk) == Action::Deny <==> dir_op_mutates(dk),
        file_action(fk) == Action::Deny <==> file_op_mutates(fk),
        dir_action(dk) == Action::Delegate <==> !dir_op_mutates(dk),
        file_action(fk) == Action::Delegate <==> !file_op_mutates(fk),
{
}

/// Denial is idempotent and free of state drift: across any chain of
/// operations each of which was denied, every intermediate filesystem
/// state equals the initial one and every reply is `PermissionDenied`.
pub proof fn lemma_denial_idempotent(states: Seq<InnerFs>, results: Seq<Result<(), FsError>>)
    requires
        states.len() == results.len() + 1,
        forall|i: int| 0 <= i < results.len() ==> denied(states[i], states[i + 1], results[i]),
    ensures
        forall|i: int| 0 <= i < states.len() ==> #[trigger] states[i] == states[0],
        forall|i: int| 0 <= i < results.len() ==> #[trigger] results[i] == Err::<(), FsError>(
            FsError::PermissionDenied,
        ),
    decreases states.len(),
{
    if results.len() > 0 {
        lemma_denial_idempotent(states.drop_last(), results.drop_last());
        assert(denied(
            states[states.len() - 2],
            states[states.len() - 1],
            results[results.len() - 1],
        ));
        assert forall|i: int| 0 <= i < states.len() implies #[trigger] states[i] == states[0] by {
            if i == states.len() - 1 {
                assert(states.drop_last()[i - 1] == states.drop_last()[0]);
                assert(states.drop_last()[i - 1] == states[i - 1]);
                assert(states.drop_last()[0] == states[0]);
            } else {
                assert(states.drop_last()[i] == states.drop_last()[0]);
                assert(states.drop_last()[i] == states[i]);
                assert(states.drop_last()[0] == states[0]);
            }
        }
        assert forall|i: int|
            0 <= i < results.len() implies #[trigger] results[i] == Err::<(), FsError>(
            FsError::PermissionDenied,
        ) by {
            if i < results.len() - 1 {
                assert(results.drop_last()[i] == Err::<(), FsError>(FsError::PermissionDenied));
            }
        }
    }
}

/// Read-only-ness is transitive: whatever handle an open through a
/// read-only wrapper yields is itself a read-only wrapper around the
/// handle the inner capability produced — a directory as [`ReadOnlyDir`],
/// a file as [`ReadOnlyFile`] — and an inner error passes through
/// unchanged.  Together with the denial contracts of every mutating
/// method of those two types, every mutating operation anywhere in the
/// opened subtree is denied, at any depth.
pub proof fn lemma_open_rewraps(ir: Result<InnerOpen, FsError>)
    ensures
        ir matches Ok(InnerOpen::Dir(d)) ==> wrap_open(ir) == Ok::<ReadOnlyOpen, FsError>(
            ReadOnlyOpen::Dir(ReadOnlyDir(d)),
        ),
        ir matches Ok(InnerOpen::File(f)) ==> wrap_open(ir) == Ok::<ReadOnlyOpen, FsError>(
            ReadOnlyOpen::File(ReadOnlyFile(f)),
        ),
        ir matches Err(e) ==> wrap_open(ir) == Err::<ReadOnlyOpen, FsError>(e),
{
}

} // verus!
