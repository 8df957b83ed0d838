//! An in-memory model of the inner directory/file capability that the
//! read-only filter wraps.
//!
//! The filter itself (see [`crate::filter`]) never interprets filesystem
//! state; it only decides, per call, "delegate" or "deny".  This module
//! supplies the other side of that contract: a small, fully capable
//! capability implementation over an arena of directory, file and link
//! nodes, with exactly stated semantics for every operation of the shared
//! interface.  It also counts every invocation in [`InnerFs::calls`], so a
//! caller can observe — and the filter's contracts can promise — that a
//! denied operation never reached the inner capability at all.

use vstd::prelude::*;
use vstd::string::StrSliceExecFns;
use crate::types::{Advice, FdFlags, FileType, Filestat, FsError, OFlags, PollHandle, ReaddirEntity, SeekFrom, TimeSpec};

verus! {

/// A reference from a directory entry to a node in the arena, by kind.
#[derive(Clone, Copy, Debug, PartialEq, Eq, Structural)]
pub enum NodeId {
    Dir(usize),
    File(usize),
    Link(usize),
}

/// Access and modification times of a node.
#[derive(Clone, Copy, Debug, PartialEq, Eq, Structural)]
pub struct Meta {
    pub atim: u64,
    pub mtim: u64,
}

/// One named entry of a directory.
#[derive(Debug)]
pub struct DirEntry {
    pub name: String,
    pub id: NodeId,
}

/// A directory node: its entries, in insertion order.
#[derive(Debug)]
pub struct DirNode {
    pub entries: Vec<DirEntry>,
    pub meta: Meta,
}

/// A regular-file node: its content.
#[derive(Debug)]
pub struct FileNode {
    pub content: Vec<u8>,
    pub meta: Meta,
}

/// A symbolic-link node: the target it names (resolved, when it is
/// followed, against the directory the link was found in).
#[derive(Debug)]
pub struct LinkNode {
    pub target: String,
    pub meta: Meta,
}

/// The whole inner filesystem: three arenas of nodes, a clock, and the
/// count of capability invocations made so far.  Nodes are never removed
/// from the arenas (removing an entry merely unlinks the node), so node
/// indices stay valid for the life of the filesystem.
#[derive(Debug)]
pub struct InnerFs {
    pub dirs: Vec<DirNode>,
    pub files: Vec<FileNode>,
    pub links: Vec<LinkNode>,
    /// The time `TimeSpec::Now` resolves to.
    pub now: u64,
    /// How many operations have been invoked on the inner capability.
    pub calls: u64,
}

/// An inner directory capability: a handle on one directory node.
#[derive(Clone, Copy, Debug, PartialEq, Eq, Structural)]
pub struct InnerDir {
    pub node: usize,
}

/// An inner file capability: a handle on one file node, with its own
/// cursor and descriptor flags.
#[derive(Clone, Copy, Debug, PartialEq, Eq, Structural)]
pub struct InnerFile {
    pub node: usize,
    pub pos: u64,
    pub fdflags: FdFlags,
}

/// What opening an entry yields: a directory capability or a file
/// capability.
#[derive(Clone, Copy, Debug, PartialEq, Eq, Structural)]
pub enum InnerOpen {
    Dir(InnerDir),
    File(InnerFile),
}

/// The first entry index at or after `i` whose name is `name`.
pub open spec fn find_from(entries: Seq<DirEntry>, name: Seq<char>, i: int) -> Option<int>
    decreases entries.len() - i,
{
    if i < 0 || i >= entries.len() {
        None
    } else if entries[i].name@ == name {
        Some(i)
    } else {
        find_from(entries, name, i + 1)
    }
}

/// The first entry index whose name is `name`.
pub open spec fn find(entries: Seq<DirEntry>, name: Seq<char>) -> Option<int> {
    find_from(entries, name, 0)
}

/// The node named `name`, if any.
pub open spec fn find_id(entries: Seq<DirEntry>, name: Seq<char>) -> Option<NodeId> {
    match find(entries, name) {
        Some(j) => Some(entries[j].id),
        None => None,
    }
}

pub proof fn lemma_find_from(entries: Seq<DirEntry>, name: Seq<char>, i: int)
    requires
        0 <= i <= entries.len(),
    ensures
        match find_from(entries, name, i) {
            Some(j) => i <= j < entries.len() && entries[j].name@ == name,
            None => forall|k: int| i <= k < entries.len() ==> entries[k].name@ != name,
        },
    decreases entries.len() - i,
{
    if i < entries.len() && entries[i].name@ != name {
        lemma_find_from(entries, name, i + 1);
    }
}

pub proof fn lemma_find(entries: Seq<DirEntry>, name: Seq<char>)
    ensures
        match find(entries, name) {
            Some(j) => 0 <= j < entries.len() && entries[j].name@ == name,
            None => forall|k: int| 0 <= k < entries.len() ==> entries[k].name@ != name,
        },
{
    lemma_find_from(entries, name, 0);
}

/// Linear search for `name` among `entries`, matching [`find`].
fn find_entry(entries: &Vec<DirEntry>, name: &String) -> (r: Option<usize>)
    ensures
        match r {
            Some(j) => j < entries@.len() && find(entries@, name@) == Some(j as int),
            None => find(entries@, name@) is None,
        },
{
    let mut j: usize = 0;
    while j < entries.len()
        invariant
            j <= entries@.len(),
            find(entries@, name@) == find_from(entries@, name@, j as int),
        decreases entries@.len() - j,
    {
        if entries[j].name == *name {
            assert(find_from(entries@, name@, j as int) == Some(j as int));
            return Some(j);
        }
        assert(find_from(entries@, name@, j as int) == find_from(entries@, name@, j as int + 1));
        j = j + 1;
    }
    None
}

impl InnerFs {
    /// Every directory entry in the arena points at an existing node.
    pub open spec fn wf(&self) -> bool {
        forall|i: int, j: int|
            #![trigger self.dirs@[i].entries@[j]]
            0 <= i < self.dirs@.len() && 0 <= j < self.dirs@[i].entries@.len()
                ==> self.id_ok(self.dirs@[i].entries@[j].id)
    }

    /// `id` points at an existing node.
    pub open spec fn id_ok(&self, id: NodeId) -> bool {
        match id {
            NodeId::Dir(i) => i < self.dirs@.len(),
            NodeId::File(i) => i < self.files@.len(),
            NodeId::Link(i) => i < self.links@.len(),
        }
    }

    /// `d` is a handle on an existing directory node.
    pub open spec fn dir_ok(&self, d: InnerDir) -> bool {
        d.node < self.dirs@.len()
    }

    /// `f` is a handle on an existing file node.
    pub open spec fn file_ok(&self, f: InnerFile) -> bool {
        f.node < self.files@.len()
    }

    /// The entries of the directory `d` points at.
    pub open spec fn dir_entries(&self, d: InnerDir) -> Seq<DirEntry> {
        self.dirs@[d.node as int].entries@
    }

    /// The content of the file `f` points at.
    pub open spec fn file_content(&self, f: InnerFile) -> Seq<u8> {
        self.files@[f.node as int].content@
    }

    /// A fresh filesystem: one empty root directory, clock and call count
    /// at zero.
    pub fn new() -> (fs: InnerFs)
        ensures
            fs.wf(),
            fs.dirs@.len() == 1,
            fs.dirs@[0].entries@.len() == 0,
            fs.files@.len() == 0,
            fs.links@.len() == 0,
            fs.now == 0,
            fs.calls == 0,
    {
        let mut dirs: Vec<DirNode> = Vec::new();
        dirs.push(DirNode { entries: Vec::new(), meta: Meta { atim: 0, mtim: 0 } });
        InnerFs { dirs, files: Vec::new(), links: Vec::new(), now: 0, calls: 0 }
    }

    /// The handle on the root directory of a filesystem made by
    /// [`InnerFs::new`].
    pub fn root(&self) -> (d: InnerDir)
        requires
            self.dirs@.len() > 0,
        ensures
            d == (InnerDir { node: 0usize }),
            self.dir_ok(d),
    {
        InnerDir { node: 0 }
    }

    /// Record one invocation of the inner capability.
    fn note_call(&mut self)
        ensures
            *final(self) == (InnerFs { calls: bumped(old(self).calls), ..*old(self) }),
    {
        if self.calls < u64::MAX {
            self.calls = self.calls + 1;
        }
    }
}

/// The invocation count after one more call (saturating, so the count
/// itself can never fail).
pub open spec fn bumped(c: u64) -> u64 {
    if c < u64::MAX {
        (c + 1) as u64
    } else {
        c
    }
}

/// `post` is `pre` with one more invocation recorded and nothing else
/// changed: what every purely observational operation leaves behind.
pub open spec fn only_counted(pre: InnerFs, post: InnerFs) -> bool {
    post == (InnerFs { calls: bumped(pre.calls), ..pre })
}

impl InnerFs {
    /// The metadata the model reports for a node.
    pub open spec fn stat_of(&self, id: NodeId) -> Filestat {
        match id {
            NodeId::Dir(i) => Filestat {
                filetype: FileType::Directory,
                inode: i as u64,
                nlink: 1,
                size: self.dirs@[i as int].entries@.len() as u64,
                atim: self.dirs@[i as int].meta.atim,
                mtim: self.dirs@[i as int].meta.mtim,
                ctim: 0,
            },
            NodeId::File(i) => Filestat {
                filetype: FileType::RegularFile,
                inode: i as u64,
                nlink: 1,
                size: self.files@[i as int].content@.len() as u64,
                atim: self.files@[i as int].meta.atim,
                mtim: self.files@[i as int].meta.mtim,
                ctim: 0,
            },
            NodeId::Link(i) => Filestat {
                filetype: FileType::SymbolicLink,
                inode: i as u64,
                nlink: 1,
                size: self.links@[i as int].target@.len() as u64,
                atim: self.links@[i as int].meta.atim,
                mtim: self.links@[i as int].meta.mtim,
                ctim: 0,
            },
        }
    }

    /// Builds the metadata of the node `id` points at.
    fn stat_exec(&self, id: NodeId) -> (r: Filestat)
        requires
            self.id_ok(id),
        ensures
            r == self.stat_of(id),
    {
        match id {
            NodeId::Dir(i) => Filestat {
                filetype: FileType::Directory,
                inode: i as u64,
                nlink: 1,
                size: self.dirs[i].entries.len() as u64,
                atim: self.dirs[i].meta.atim,
                mtim: self.dirs[i].meta.mtim,
                ctim: 0,
            },
            NodeId::File(i) => Filestat {
                filetype: FileType::RegularFile,
                inode: i as u64,
                nlink: 1,
                size: self.files[i].content.len() as u64,
                atim: self.files[i].meta.atim,
                mtim: self.files[i].meta.mtim,
                ctim: 0,
            },
            NodeId::Link(i) => Filestat {
                filetype: FileType::SymbolicLink,
                inode: i as u64,
                nlink: 1,
                size: self.links[i].target.as_str().unicode_len() as u64,
                atim: self.links[i].meta.atim,
                mtim: self.links[i].meta.mtim,
                ctim: 0,
            },
        }
    }
}

/// The inode number the model reports for a node.
pub open spec fn id_inode(id: NodeId) -> u64 {
    match id {
        NodeId::Dir(i) => i as u64,
        NodeId::File(i) => i as u64,
        NodeId::Link(i) => i as u64,
    }
}

/// The file type of a node.
pub open spec fn id_filetype(id: NodeId) -> FileType {
    match id {
        NodeId::Dir(_) => FileType::Directory,
        NodeId::File(_) => FileType::RegularFile,
        NodeId::Link(_) => FileType::SymbolicLink,
    }
}

fn inode_of(id: NodeId) -> (r: u64)
    ensures
        r == id_inode(id),
{
    match id {
        NodeId::Dir(i) => i as u64,
        NodeId::File(i) => i as u64,
        NodeId::Link(i) => i as u64,
    }
}

fn filetype_of(id: NodeId) -> (r: FileType)
    ensures
        r == id_filetype(id),
{
    match id {
        NodeId::Dir(_) => FileType::Directory,
        NodeId::File(_) => FileType::RegularFile,
        NodeId::Link(_) => FileType::SymbolicLink,
    }
}

/// What opening `path` inside `d` yields.  The model resolves single
/// names, not slash-separated paths; it does not follow links on open and
/// does not create or truncate on open (creation happens through
/// `create_dir`, `add_file` and `symlink`), so opening never changes any
/// node.
pub open spec fn open_result(
    fs: InnerFs,
    d: InnerDir,
    path: Seq<char>,
    oflags: OFlags,
    write: bool,
    fdflags: FdFlags,
) -> Result<InnerOpen, FsError> {
    match find_id(fs.dir_entries(d), path) {
        None => Err(FsError::NotFound),
        Some(NodeId::Dir(i)) => if oflags.create && oflags.exclusive {
            Err(FsError::AlreadyExists)
        } else if oflags.truncate {
            Err(FsError::IsADirectory)
        } else {
            Ok(InnerOpen::Dir(InnerDir { node: i }))
        },
        Some(NodeId::File(i)) => if oflags.create && oflags.exclusive {
            Err(FsError::AlreadyExists)
        } else if oflags.directory {
            Err(FsError::NotADirectory)
        } else if oflags.truncate && write {
            Err(FsError::Unsupported)
        } else {
            Ok(InnerOpen::File(InnerFile { node: i, pos: 0, fdflags }))
        },
        Some(NodeId::Link(_)) => Err(FsError::Unsupported),
    }
}

/// What listing `d` from `cursor` yields: the entries from the cursor on,
/// in insertion order.
pub open spec fn readdir_result(fs: InnerFs, d: InnerDir, cursor: u64) -> Seq<ReaddirEntity> {
    let es = fs.dir_entries(d);
    let start: int = if cursor <= es.len() {
        cursor as int
    } else {
        es.len() as int
    };
    Seq::new(
        (es.len() - start) as nat,
        |k: int| ReaddirEntity {
            name: es[start + k].name,
            inode: id_inode(es[start + k].id),
            filetype: id_filetype(es[start + k].id),
        },
    )
}

/// What resolving the link named `path` inside `d` yields.
pub open spec fn read_link_result(fs: InnerFs, d: InnerDir, path: Seq<char>) -> Result<
    String,
    FsError,
> {
    match find_id(fs.dir_entries(d), path) {
        None => Err(FsError::NotFound),
        Some(NodeId::Link(i)) => Ok(fs.links@[i as int].target),
        Some(_) => Err(FsError::Invalid),
    }
}

/// The node the entry named `path` inside `d` resolves to.  With `follow`
/// set, a link is resolved once, against `d` itself; a link to a link is
/// rejected.
pub open spec fn resolve_path(
    fs: InnerFs,
    d: InnerDir,
    path: Seq<char>,
    follow_symlinks: bool,
) -> Result<NodeId, FsError> {
    match find_id(fs.dir_entries(d), path) {
        None => Err(FsError::NotFound),
        Some(NodeId::Link(i)) => if follow_symlinks {
            match find_id(fs.dir_entries(d), fs.links@[i as int].target@) {
                None => Err(FsError::NotFound),
                Some(NodeId::Link(_)) => Err(FsError::Invalid),
                Some(id2) => Ok(id2),
            }
        } else {
            Ok(NodeId::Link(i))
        },
        Some(id) => Ok(id),
    }
}

/// What asking for the metadata of the entry named `path` inside `d`
/// yields.
pub open spec fn path_stat_result(
    fs: InnerFs,
    d: InnerDir,
    path: Seq<char>,
    follow_symlinks: bool,
) -> Result<Filestat, FsError> {
    match resolve_path(fs, d, path, follow_symlinks) {
        Err(e) => Err(e),
        Ok(id) => Ok(fs.stat_of(id)),
    }
}

/// The time a `set_times` argument resolves to: `keep` when absent, the
/// filesystem clock for `TimeSpec::Now`.
pub open spec fn resolve_time(t: Option<TimeSpec>, now: u64, keep: u64) -> u64 {
    match t {
        None => keep,
        Some(TimeSpec::Now) => now,
        Some(TimeSpec::Absolute(v)) => v,
    }
}

/// `post` is `pre` with the metadata of node `id` replaced by `m`, one
/// more invocation recorded, and nothing else changed.
pub open spec fn meta_updated(pre: InnerFs, post: InnerFs, id: NodeId, m: Meta) -> bool {
    &&& post.now == pre.now
    &&& post.calls == bumped(pre.calls)
    &&& match id {
        NodeId::Dir(i) => {
            &&& post.dirs@.len() == pre.dirs@.len()
            &&& post.dirs@[i as int].entries@ == pre.dirs@[i as int].entries@
            &&& post.dirs@[i as int].meta == m
            &&& forall|k: int|
                0 <= k < pre.dirs@.len() && k != i ==> post.dirs@[k] == pre.dirs@[k]
            &&& post.files@ == pre.files@
            &&& post.links@ == pre.links@
        },
        NodeId::File(i) => {
            &&& post.files@.len() == pre.files@.len()
            &&& post.files@[i as int].content@ == pre.files@[i as int].content@
            &&& post.files@[i as int].meta == m
            &&& forall|k: int|
                0 <= k < pre.files@.len() && k != i ==> post.files@[k] == pre.files@[k]
            &&& post.dirs@ == pre.dirs@
            &&& post.links@ == pre.links@
        },
        NodeId::Link(i) => {
            &&& post.links@.len() == pre.links@.len()
            &&& post.links@[i as int].target@ == pre.links@[i as int].target@
            &&& post.links@[i as int].meta == m
            &&& forall|k: int|
                0 <= k < pre.links@.len() && k != i ==> post.links@[k] == pre.links@[k]
            &&& post.dirs@ == pre.dirs@
            &&& post.files@ == pre.files@
        },
    }
}

impl InnerDir {
    /// Opens the entry named `path`.  `symlink_follow` and `read` are
    /// accepted for interface parity; the model's open resolves plain
    /// names only and grants reading unconditionally.
    pub fn open_file(
        &self,
        fs: &mut InnerFs,
        symlink_follow: bool,
        path: &String,
        oflags: OFlags,
        read: bool,
        write: bool,
        fdflags: FdFlags,
    ) -> (r: Result<InnerOpen, FsError>)
        requires
            old(fs).wf(),
            old(fs).dir_ok(*self),
        ensures
            only_counted(*old(fs), *final(fs)),
            r == open_result(*old(fs), *self, path@, oflags, write, fdflags),
            r matches Ok(InnerOpen::Dir(d2)) ==> final(fs).dir_ok(d2),
            r matches Ok(InnerOpen::File(f2)) ==> final(fs).file_ok(f2),
    {
        let _ = symlink_follow;
        let _ = read;
        fs.note_call();
        let node = &fs.dirs[self.node];
        proof {
            lemma_find(node.entries@, path@);
        }
        match find_entry(&node.entries, path) {
            None => Err(FsError::NotFound),
            Some(j) => match node.entries[j].id {
                NodeId::Dir(i) => if oflags.create && oflags.exclusive {
                    Err(FsError::AlreadyExists)
                } else if oflags.truncate {
                    Err(FsError::IsADirectory)
                } else {
                    Ok(InnerOpen::Dir(InnerDir { node: i }))
                },
                NodeId::File(i) => if oflags.create && oflags.exclusive {
                    Err(FsError::AlreadyExists)
                } else if oflags.directory {
                    Err(FsError::NotADirectory)
                } else if oflags.truncate && write {
                    Err(FsError::Unsupported)
                } else {
                    Ok(InnerOpen::File(InnerFile { node: i, pos: 0, fdflags }))
                },
                NodeId::Link(_) => Err(FsError::Unsupported),
            },
        }
    }

    /// Lists the entries of this directory, starting at `cursor`.
    pub fn readdir(&self, fs: &mut InnerFs, cursor: u64) -> (r: Result<
        Vec<ReaddirEntity>,
        FsError,
    >)
        requires
            old(fs).dir_ok(*self),
        ensures
            only_counted(*old(fs), *final(fs)),
            r matches Ok(v) && v@ == readdir_result(*old(fs), *self, cursor),
    {
        fs.note_call();
        let node = &fs.dirs[self.node];
        let len = node.entries.len();
        let start: usize = if cursor <= len as u64 {
            cursor as usize
        } else {
            len
        };
        let ghost expected = readdir_result(*old(fs), *self, cursor);
        let mut out: Vec<ReaddirEntity> = Vec::new();
        let mut k: usize = start;
        assert(out@ =~= expected.subrange(0, 0));
        while k < len
            invariant
                start <= k <= len,
                len == node.entries@.len(),
                node.entries@ == old(fs).dir_entries(*self),
                expected == readdir_result(*old(fs), *self, cursor),
                expected.len() == len - start,
                start == if cursor <= len as u64 { cursor as int } else { len as int },
                out@ == expected.subrange(0, k - start),
            decreases len - k,
        {
            let e = ReaddirEntity {
                name: node.entries[k].name.clone(),
                inode: inode_of(node.entries[k].id),
                filetype: filetype_of(node.entries[k].id),
            };
            out.push(e);
            assert(out@ =~= expected.subrange(0, k + 1 - start));
            k = k + 1;
        }
        assert(out@ =~= expected);
        Ok(out)
    }

    /// Resolves the target of the link named `path`.
    pub fn read_link(&self, fs: &mut InnerFs, path: &String) -> (r: Result<String, FsError>)
        requires
            old(fs).wf(),
            old(fs).dir_ok(*self),
        ensures
            only_counted(*old(fs), *final(fs)),
            r == read_link_result(*old(fs), *self, path@),
    {
        fs.note_call();
        let node = &fs.dirs[self.node];
        match find_entry(&node.entries, path) {
            None => Err(FsError::NotFound),
            Some(j) => match node.entries[j].id {
                NodeId::Link(i) => Ok(fs.links[i].target.clone()),
                _ => Err(FsError::Invalid),
            },
        }
    }

    /// Reports the metadata of this directory itself.
    pub fn get_filestat(&self, fs: &mut InnerFs) -> (r: Result<Filestat, FsError>)
        requires
            old(fs).dir_ok(*self),
        ensures
            only_counted(*old(fs), *final(fs)),
            r == Ok::<Filestat, FsError>(old(fs).stat_of(NodeId::Dir(self.node))),
    {
        fs.note_call();
        Ok(fs.stat_exec(NodeId::Dir(self.node)))
    }

    /// Reports the metadata of the entry named `path`.
    pub fn get_path_filestat(
        &self,
        fs: &mut InnerFs,
        path: &String,
        follow_symlinks: bool,
    ) -> (r: Result<Filestat, FsError>)
        requires
            old(fs).wf(),
            old(fs).dir_ok(*self),
        ensures
            only_counted(*old(fs), *final(fs)),
            r == path_stat_result(*old(fs), *self, path@, follow_symlinks),
    {
        fs.note_call();
        let node = &fs.dirs[self.node];
        match find_entry(&node.entries, path) {
            None => Err(FsError::NotFound),
            Some(j) => match node.entries[j].id {
                NodeId::Link(i) => if follow_symlinks {
                    let target = &fs.links[i].target;
                    match find_entry(&node.entries, target) {
                        None => Err(FsError::NotFound),
                        Some(j2) => match node.entries[j2].id {
                            NodeId::Link(_) => Err(FsError::Invalid),
                            id2 => Ok(fs.stat_exec(id2)),
                        },
                    }
                } else {
                    Ok(fs.stat_exec(NodeId::Link(i)))
                },
                id => Ok(fs.stat_exec(id)),
            },
        }
    }

    /// Creates an empty sub-directory named `path`.
    pub fn create_dir(&self, fs: &mut InnerFs, path: &String) -> (r: Result<(), FsError>)
        requires
            old(fs).wf(),
            old(fs).dir_ok(*self),
        ensures
            final(fs).wf(),
            final(fs).dir_ok(*self),
            match find(old(fs).dir_entries(*self), path@) {
                Some(_) => r == Err::<(), FsError>(FsError::AlreadyExists) && only_counted(
                    *old(fs),
                    *final(fs),
                ),
                None => {
                    &&& r == Ok::<(), FsError>(())
                    &&& final(fs).dirs@.len() == old(fs).dirs@.len() + 1
                    &&& final(fs).dirs@[old(fs).dirs@.len() as int].entries@.len() == 0
                    &&& final(fs).dirs@[old(fs).dirs@.len() as int].meta == (Meta {
                        atim: old(fs).now,
                        mtim: old(fs).now,
                    })
                    &&& final(fs).dir_entries(*self) == old(fs).dir_entries(*self).push(
                        DirEntry {
                            name: *path,
                            id: NodeId::Dir(old(fs).dirs@.len() as usize),
                        },
                    )
                    &&& forall|k: int|
                        0 <= k < old(fs).dirs@.len() && k != self.node ==> final(fs).dirs@[k]
                            == old(fs).dirs@[k]
                    &&& final(fs).dirs@[self.node as int].meta == old(fs).dirs@[self.node as int].meta
                    &&& final(fs).files@ == old(fs).files@
                    &&& final(fs).links@ == old(fs).links@
                    &&& final(fs).now == old(fs).now
                    &&& final(fs).calls == bumped(old(fs).calls)
                },
            },
    {
        fs.note_call();
        let found = {
            let node = &fs.dirs[self.node];
            find_entry(&node.entries, path)
        };
        match found {
            Some(_) => Err(FsError::AlreadyExists),
            None => {
                let newidx = fs.dirs.len();
                let now = fs.now;
                fs.dirs.push(DirNode { entries: Vec::new(), meta: Meta { atim: now, mtim: now } });
                let node = &mut fs.dirs[self.node];
                node.entries.push(DirEntry { name: path.clone(), id: NodeId::Dir(newidx) });
                proof {
                    assert forall|i: int, j: int|
                        0 <= i < fs.dirs@.len() && 0 <= j < fs.dirs@[i].entries@.len() implies fs.id_ok(
                        fs.dirs@[i].entries@[j].id,
                    ) by {
                        if i < old(fs).dirs@.len() {
                            if i == self.node && j == old(fs).dirs@[i].entries@.len() {
                            } else {
                                assert(fs.dirs@[i].entries@[j] == old(fs).dirs@[i].entries@[j]);
                                assert(old(fs).id_ok(old(fs).dirs@[i].entries@[j].id));
                            }
                        }
                    }
                }
                Ok(())
            },
        }
    }

    /// Creates a file named `path` with the given content: how the
    /// embedding runtime populates the tree a capability governs.
    pub fn add_file(&self, fs: &mut InnerFs, path: &String, content: Vec<u8>) -> (r: Result<
        (),
        FsError,
    >)
        requires
            old(fs).wf(),
            old(fs).dir_ok(*self),
        ensures
            final(fs).wf(),
            final(fs).dir_ok(*self),
            match find(old(fs).dir_entries(*self), path@) {
                Some(_) => r == Err::<(), FsError>(FsError::AlreadyExists) && only_counted(
                    *old(fs),
                    *final(fs),
                ),
                None => {
                    &&& r == Ok::<(), FsError>(())
                    &&& final(fs).files@ == old(fs).files@.push(
                        FileNode { content, meta: Meta { atim: old(fs).now, mtim: old(fs).now } },
                    )
                    &&& final(fs).dir_entries(*self) == old(fs).dir_entries(*self).push(
                        DirEntry {
                            name: *path,
                            id: NodeId::File(old(fs).files@.len() as usize),
                        },
                    )
                    &&& forall|k: int|
                        0 <= k < old(fs).dirs@.len() && k != self.node ==> final(fs).dirs@[k]
                            == old(fs).dirs@[k]
                    &&& final(fs).dirs@.len() == old(fs).dirs@.len()
                    &&& final(fs).dirs@[self.node as int].meta == old(fs).dirs@[self.node as int].meta
                    &&& final(fs).links@ == old(fs).links@
                    &&& final(fs).now == old(fs).now
                    &&& final(fs).calls == bumped(old(fs).calls)
                },
            },
    {
        fs.note_call();
        let found = {
            let node = &fs.dirs[self.node];
            find_entry(&node.entries, path)
        };
        match found {
            Some(_) => Err(FsError::AlreadyExists),
            None => {
                let newidx = fs.files.len();
                let now = fs.now;
                fs.files.push(FileNode { content, meta: Meta { atim: now, mtim: now } });
                let node = &mut fs.dirs[self.node];
                node.entries.push(DirEntry { name: path.clone(), id: NodeId::File(newidx) });
                proof {
                    assert forall|i: int, j: int|
                        0 <= i < fs.dirs@.len() && 0 <= j < fs.dirs@[i].entries@.len() implies fs.id_ok(
                        fs.dirs@[i].entries@[j].id,
                    ) by {
                        if i == self.node && j == old(fs).dirs@[i].entries@.len() {
                        } else {
                            assert(fs.dirs@[i].entries@[j] == old(fs).dirs@[i].entries@[j]);
                            assert(old(fs).id_ok(old(fs).dirs@[i].entries@[j].id));
                        }
                    }
                }
                Ok(())
            },
        }
    }

    /// Creates a symbolic link named `new_path` whose target is
    /// `old_path`.
    pub fn symlink(&self, fs: &mut InnerFs, old_path: &String, new_path: &String) -> (r: Result<
        (),
        FsError,
    >)
        requires
            old(fs).wf(),
            old(fs).dir_ok(*self),
        ensures
            final(fs).wf(),
            final(fs).dir_ok(*self),
            match find(old(fs).dir_entries(*self), new_path@) {
                Some(_) => r == Err::<(), FsError>(FsError::AlreadyExists) && only_counted(
                    *old(fs),
                    *final(fs),
                ),
                None => {
                    &&& r == Ok::<(), FsError>(())
                    &&& final(fs).links@ == old(fs).links@.push(
                        LinkNode {
                            target: *old_path,
                            meta: Meta { atim: old(fs).now, mtim: old(fs).now },
                        },
                    )
                    &&& final(fs).dir_entries(*self) == old(fs).dir_entries(*self).push(
                        DirEntry {
                            name: *new_path,
                            id: NodeId::Link(old(fs).links@.len() as usize),
                        },
                    )
                    &&& forall|k: int|
                        0 <= k < old(fs).dirs@.len() && k != self.node ==> final(fs).dirs@[k]
                            == old(fs).dirs@[k]
                    &&& final(fs).dirs@.len() == old(fs).dirs@.len()
                    &&& final(fs).dirs@[self.node as int].meta == old(fs).dirs@[self.node as int].meta
                    &&& final(fs).files@ == old(fs).files@
                    &&& final(fs).now == old(fs).now
                    &&& final(fs).calls == bumped(old(fs).calls)
                },
            },
    {
        fs.note_call();
        let found = {
            let node = &fs.dirs[self.node];
            find_entry(&node.entries, new_path)
        };
        match found {
            Some(_) => Err(FsError::AlreadyExists),
            None => {
                let newidx = fs.links.len();
                let now = fs.now;
                fs.links.push(
                    LinkNode { target: old_path.clone(), meta: Meta { atim: now, mtim: now } },
                );
                let node = &mut fs.dirs[self.node];
                node.entries.push(DirEntry { name: new_path.clone(), id: NodeId::Link(newidx) });
                proof {
                    assert forall|i: int, j: int|
                        0 <= i < fs.dirs@.len() && 0 <= j < fs.dirs@[i].entries@.len() implies fs.id_ok(
                        fs.dirs@[i].entries@[j].id,
                    ) by {
                        if i == self.node && j == old(fs).dirs@[i].entries@.len() {
                        } else {
                            assert(fs.dirs@[i].entries@[j] == old(fs).dirs@[i].entries@[j]);
                            assert(old(fs).id_ok(old(fs).dirs@[i].entries@[j].id));
                        }
                    }
                }
                Ok(())
            },
        }
    }

    /// Removes the empty sub-directory named `path`.  The directory node
    /// itself stays in the arena, unlinked, so other handles stay valid.
    pub fn remove_dir(&self, fs: &mut InnerFs, path: &String) -> (r: Result<(), FsError>)
        requires
            old(fs).wf(),
            old(fs).dir_ok(*self),
        ensures
            final(fs).wf(),
            final(fs).dir_ok(*self),
            match find(old(fs).dir_entries(*self), path@) {
                None => r == Err::<(), FsError>(FsError::NotFound) && only_counted(
                    *old(fs),
                    *final(fs),
                ),
                Some(j) => match old(fs).dir_entries(*self)[j].id {
                    NodeId::Dir(i) => if old(fs).dirs@[i as int].entries@.len() != 0 {
                        r == Err::<(), FsError>(FsError::NotEmpty) && only_counted(
                            *old(fs),
                            *final(fs),
                        )
                    } else {
                        &&& r == Ok::<(), FsError>(())
                        &&& final(fs).dir_entries(*self) == old(fs).dir_entries(*self).remove(j)
                        &&& forall|k: int|
                            0 <= k < old(fs).dirs@.len() && k != self.node ==> final(fs).dirs@[k]
                                == old(fs).dirs@[k]
                        &&& final(fs).dirs@.len() == old(fs).dirs@.len()
                        &&& final(fs).dirs@[self.node as int].meta == old(fs).dirs@[self.node as int].meta
                        &&& final(fs).files@ == old(fs).files@
                        &&& final(fs).links@ == old(fs).links@
                        &&& final(fs).now == old(fs).now
                        &&& final(fs).calls == bumped(old(fs).calls)
                    },
                    _ => r == Err::<(), FsError>(FsError::NotADirectory) && only_counted(
                        *old(fs),
                        *final(fs),
                    ),
                },
            },
    {
        fs.note_call();
        let found = {
            let node = &fs.dirs[self.node];
            find_entry(&node.entries, path)
        };
        match found {
            None => Err(FsError::NotFound),
            Some(j) => match fs.dirs[self.node].entries[j].id {
                NodeId::Dir(i) => {
                    proof {
                        lemma_find(old(fs).dir_entries(*self), path@);
                    }
                    if fs.dirs[i].entries.len() != 0 {
                        Err(FsError::NotEmpty)
                    } else {
                        let node = &mut fs.dirs[self.node];
                        let _removed = node.entries.remove(j);
                        proof {
                            assert forall|a: int, b: int|
                                0 <= a < fs.dirs@.len() && 0 <= b < fs.dirs@[a].entries@.len() implies fs.id_ok(
                                fs.dirs@[a].entries@[b].id,
                            ) by {
                                if a == self.node {
                                    assert(fs.dirs@[a].entries@[b]
                                        == old(fs).dir_entries(*self).remove(j as int)[b]);
                                    if b < j {
                                        assert(old(fs).id_ok(old(fs).dirs@[a].entries@[b].id));
                                    } else {
                                        assert(old(fs).id_ok(old(fs).dirs@[a].entries@[b + 1].id));
                                    }
                                } else {
                                    assert(old(fs).id_ok(old(fs).dirs@[a].entries@[b].id));
                                }
                            }
                        }
                        Ok(())
                    }
                },
                _ => Err(FsError::NotADirectory),
            },
        }
    }

    /// Removes the file or link entry named `path`.
    pub fn unlink_file(&self, fs: &mut InnerFs, path: &String) -> (r: Result<(), FsError>)
        requires
            old(fs).wf(),
            old(fs).dir_ok(*self),
        ensures
            final(fs).wf(),
            final(fs).dir_ok(*self),
            match find(old(fs).dir_entries(*self), path@) {
                None => r == Err::<(), FsError>(FsError::NotFound) && only_counted(
                    *old(fs),
                    *final(fs),
                ),
                Some(j) => match old(fs).dir_entries(*self)[j].id {
                    NodeId::Dir(_) => r == Err::<(), FsError>(FsError::IsADirectory)
                        && only_counted(*old(fs), *final(fs)),
                    _ => {
                        &&& r == Ok::<(), FsError>(())
                        &&& final(fs).dir_entries(*self) == old(fs).dir_entries(*self).remove(j)
                        &&& forall|k: int|
                            0 <= k < old(fs).dirs@.len() && k != self.node ==> final(fs).dirs@[k]
                                == old(fs).dirs@[k]
                        &&& final(fs).dirs@.len() == old(fs).dirs@.len()
                        &&& final(fs).dirs@[self.node as int].meta == old(fs).dirs@[self.node as int].meta
                        &&& final(fs).files@ == old(fs).files@
                        &&& final(fs).links@ == old(fs).links@
                        &&& final(fs).now == old(fs).now
                        &&& final(fs).calls == bumped(old(fs).calls)
                    },
                },
            },
    {
        fs.note_call();
        let found = {
            let node = &fs.dirs[self.node];
            find_entry(&node.entries, path)
        };
        match found {
            None => Err(FsError::NotFound),
            Some(j) => match fs.dirs[self.node].entries[j].id {
                NodeId::Dir(_) => Err(FsError::IsADirectory),
                _ => {
                    let node = &mut fs.dirs[self.node];
                    let _removed = node.entries.remove(j);
                    proof {
                        assert forall|a: int, b: int|
                            0 <= a < fs.dirs@.len() && 0 <= b < fs.dirs@[a].entries@.len() implies fs.id_ok(
                            fs.dirs@[a].entries@[b].id,
                        ) by {
                            if a == self.node {
                                if b < j {
                                    assert(old(fs).id_ok(old(fs).dirs@[a].entries@[b].id));
                                } else {
                                    assert(old(fs).id_ok(old(fs).dirs@[a].entries@[b + 1].id));
                                }
                            } else {
                                assert(old(fs).id_ok(old(fs).dirs@[a].entries@[b].id));
                            }
                        }
                    }
                    Ok(())
                },
            },
        }
    }

    /// Moves the entry named `path` into `dest_dir` under `dest_path`.
    /// Fails if the destination name is already taken (also when source
    /// and destination coincide).
    pub fn rename(&self, fs: &mut InnerFs, path: &String, dest_dir: InnerDir, dest_path: &String)
        -> (r: Result<(), FsError>)
        requires
            old(fs).wf(),
            old(fs).dir_ok(*self),
            old(fs).dir_ok(dest_dir),
        ensures
            final(fs).wf(),
            final(fs).dir_ok(*self),
            match find(old(fs).dir_entries(*self), path@) {
                None => r == Err::<(), FsError>(FsError::NotFound) && only_counted(
                    *old(fs),
                    *final(fs),
                ),
                Some(j) => if find(old(fs).dir_entries(dest_dir), dest_path@) is Some {
                    r == Err::<(), FsError>(FsError::AlreadyExists) && only_counted(
                        *old(fs),
                        *final(fs),
                    )
                } else {
                    &&& r == Ok::<(), FsError>(())
                    &&& if dest_dir.node == self.node {
                        final(fs).dir_entries(*self) == old(fs).dir_entries(*self).remove(j).push(
                            DirEntry { name: *dest_path, id: old(fs).dir_entries(*self)[j].id },
                        )
                    } else {
                        final(fs).dir_entries(*self) == old(fs).dir_entries(*self).remove(j)
                            && final(fs).dir_entries(dest_dir) == old(fs).dir_entries(
                            dest_dir,
                        ).push(
                            DirEntry { name: *dest_path, id: old(fs).dir_entries(*self)[j].id },
                        )
                    }
                    &&& forall|k: int|
                        0 <= k < old(fs).dirs@.len() && k != self.node && k != dest_dir.node
                            ==> final(fs).dirs@[k] == old(fs).dirs@[k]
                    &&& final(fs).dirs@.len() == old(fs).dirs@.len()
                    &&& final(fs).dirs@[self.node as int].meta == old(fs).dirs@[self.node as int].meta
                    &&& final(fs).dirs@[dest_dir.node as int].meta == old(fs).dirs@[dest_dir.node as int].meta
                    &&& final(fs).files@ == old(fs).files@
                    &&& final(fs).links@ == old(fs).links@
                    &&& final(fs).now == old(fs).now
                    &&& final(fs).calls == bumped(old(fs).calls)
                },
            },
    {
        fs.note_call();
        let found = {
            let node = &fs.dirs[self.node];
            find_entry(&node.entries, path)
        };
        match found {
            None => Err(FsError::NotFound),
            Some(j) => {
                let taken = {
                    let dnode = &fs.dirs[dest_dir.node];
                    find_entry(&dnode.entries, dest_path)
                };
                match taken {
                    Some(_) => Err(FsError::AlreadyExists),
                    None => {
                        let removed = {
                            let node = &mut fs.dirs[self.node];
                            node.entries.remove(j)
                        };
                        let dnode = &mut fs.dirs[dest_dir.node];
                        dnode.entries.push(
                            DirEntry { name: dest_path.clone(), id: removed.id },
                        );
                        proof {
                            lemma_find(old(fs).dir_entries(*self), path@);
                            assert(old(fs).id_ok(removed.id));
                            assert forall|a: int, b: int|
                                0 <= a < fs.dirs@.len() && 0 <= b < fs.dirs@[a].entries@.len() implies fs.id_ok(
                                fs.dirs@[a].entries@[b].id,
                            ) by {
                                let mid = old(fs).dir_entries(*self).remove(j as int);
                                if a == dest_dir.node && b == fs.dirs@[a].entries@.len() - 1 {
                                } else if a == self.node {
                                    if b < j {
                                        assert(old(fs).id_ok(old(fs).dirs@[a].entries@[b].id));
                                    } else {
                                        assert(old(fs).id_ok(old(fs).dirs@[a].entries@[b + 1].id));
                                    }
                                } else {
                                    assert(old(fs).id_ok(old(fs).dirs@[a].entries@[b].id));
                                }
                            }
                        }
                        Ok(())
                    },
                }
            },
        }
    }

    /// Creates, in `target_dir` under `target_path`, a second entry for
    /// the file or link named `path`; directories cannot be hard-linked.
    pub fn hard_link(
        &self,
        fs: &mut InnerFs,
        path: &String,
        target_dir: InnerDir,
        target_path: &String,
    ) -> (r: Result<(), FsError>)
        requires
            old(fs).wf(),
            old(fs).dir_ok(*self),
            old(fs).dir_ok(target_dir),
        ensures
            final(fs).wf(),
            final(fs).dir_ok(*self),
            match find(old(fs).dir_entries(*self), path@) {
                None => r == Err::<(), FsError>(FsError::NotFound) && only_counted(
                    *old(fs),
                    *final(fs),
                ),
                Some(j) => if old(fs).dir_entries(*self)[j].id is Dir {
                    r == Err::<(), FsError>(FsError::Invalid) && only_counted(*old(fs), *final(fs))
                } else if find(old(fs).dir_entries(target_dir), target_path@) is Some {
                    r == Err::<(), FsError>(FsError::AlreadyExists) && only_counted(
                        *old(fs),
                        *final(fs),
                    )
                } else {
                    &&& r == Ok::<(), FsError>(())
                    &&& final(fs).dir_entries(target_dir) == old(fs).dir_entries(target_dir).push(
                        DirEntry { name: *target_path, id: old(fs).dir_entries(*self)[j].id },
                    )
                    &&& forall|k: int|
                        0 <= k < old(fs).dirs@.len() && k != target_dir.node ==> final(fs).dirs@[k]
                            == old(fs).dirs@[k]
                    &&& final(fs).dirs@.len() == old(fs).dirs@.len()
                    &&& final(fs).dirs@[target_dir.node as int].meta == old(fs).dirs@[target_dir.node as int].meta
                    &&& final(fs).files@ == old(fs).files@
                    &&& final(fs).links@ == old(fs).links@
                    &&& final(fs).now == old(fs).now
                    &&& final(fs).calls == bumped(old(fs).calls)
                },
            },
    {
        fs.note_call();
        let found = {
            let node = &fs.dirs[self.node];
            find_entry(&node.entries, path)
        };
        match found {
            None => Err(FsError::NotFound),
            Some(j) => {
                let id = fs.dirs[self.node].entries[j].id;
                if let NodeId::Dir(_) = id {
                    return Err(FsError::Invalid);
                }
                let taken = {
                    let tnode = &fs.dirs[target_dir.node];
                    find_entry(&tnode.entries, target_path)
                };
                match taken {
                    Some(_) => Err(FsError::AlreadyExists),
                    None => {
                        proof {
                            lemma_find(old(fs).dir_entries(*self), path@);
                        }
                        let tnode = &mut fs.dirs[target_dir.node];
                        tnode.entries.push(DirEntry { name: target_path.clone(), id });
                        proof {
                            assert forall|a: int, b: int|
                                0 <= a < fs.dirs@.len() && 0 <= b < fs.dirs@[a].entries@.len() implies fs.id_ok(
                                fs.dirs@[a].entries@[b].id,
                            ) by {
                                if a == target_dir.node && b == fs.dirs@[a].entries@.len() - 1 {
                                    assert(old(fs).id_ok(old(fs).dir_entries(*self)[j as int].id));
                                } else {
                                    assert(old(fs).id_ok(old(fs).dirs@[a].entries@[b].id));
                                }
                            }
                        }
                        Ok(())
                    },
                }
            },
        }
    }

    /// Sets the access and modification times of the entry named `path`.
    pub fn set_times(
        &self,
        fs: &mut InnerFs,
        path: &String,
        atime: Option<TimeSpec>,
        mtime: Option<TimeSpec>,
        follow_symlinks: bool,
    ) -> (r: Result<(), FsError>)
        requires
            old(fs).wf(),
            old(fs).dir_ok(*self),
        ensures
            final(fs).wf(),
            final(fs).dir_ok(*self),
            match resolve_path(*old(fs), *self, path@, follow_symlinks) {
                Err(e) => r == Err::<(), FsError>(e) && only_counted(*old(fs), *final(fs)),
                Ok(id) => r == Ok::<(), FsError>(()) && meta_updated(
                    *old(fs),
                    *final(fs),
                    id,
                    Meta {
                        atim: resolve_time(atime, old(fs).now, meta_of(*old(fs), id).atim),
                        mtim: resolve_time(mtime, old(fs).now, meta_of(*old(fs), id).mtim),
                    },
                ),
            },
    {
        fs.note_call();
        let resolved = resolve_exec(fs, *self, path, follow_symlinks);
        match resolved {
            Err(e) => Err(e),
            Ok(id) => {
                let now = fs.now;
                match id {
                    NodeId::Dir(i) => {
                        let m = fs.dirs[i].meta;
                        let nm = Meta {
                            atim: pick_time(atime, now, m.atim),
                            mtim: pick_time(mtime, now, m.mtim),
                        };
                        let node = &mut fs.dirs[i];
                        node.meta = nm;
                    },
                    NodeId::File(i) => {
                        let m = fs.files[i].meta;
                        let nm = Meta {
                            atim: pick_time(atime, now, m.atim),
                            mtim: pick_time(mtime, now, m.mtim),
                        };
                        let node = &mut fs.files[i];
                        node.meta = nm;
                    },
                    NodeId::Link(i) => {
                        let m = fs.links[i].meta;
                        let nm = Meta {
                            atim: pick_time(atime, now, m.atim),
                            mtim: pick_time(mtime, now, m.mtim),
                        };
                        let node = &mut fs.links[i];
                        node.meta = nm;
                    },
                }
                proof {
                    assert forall|a: int, b: int|
                        0 <= a < fs.dirs@.len() && 0 <= b < fs.dirs@[a].entries@.len() implies fs.id_ok(
                        fs.dirs@[a].entries@[b].id,
                    ) by {
                        assert(fs.dirs@[a].entries@ == old(fs).dirs@[a].entries@);
                        assert(old(fs).id_ok(old(fs).dirs@[a].entries@[b].id));
                    }
                }
                Ok(())
            },
        }
    }
}

/// The metadata of the node `id` points at.
pub open spec fn meta_of(fs: InnerFs, id: NodeId) -> Meta {
    match id {
        NodeId::Dir(i) => fs.dirs@[i as int].meta,
        NodeId::File(i) => fs.files@[i as int].meta,
        NodeId::Link(i) => fs.links@[i as int].meta,
    }
}

/// Resolves `path` inside `d`, matching [`resolve_path`].
fn resolve_exec(fs: &InnerFs, d: InnerDir, path: &String, follow_symlinks: bool) -> (r: Result<
    NodeId,
    FsError,
>)
    requires
        fs.wf(),
        fs.dir_ok(d),
    ensures
        r == resolve_path(*fs, d, path@, follow_symlinks),
        r matches Ok(id) ==> fs.id_ok(id),
{
    let node = &fs.dirs[d.node];
    match find_entry(&node.entries, path) {
        None => Err(FsError::NotFound),
        Some(j) => match node.entries[j].id {
            NodeId::Link(i) => if follow_symlinks {
                let target = &fs.links[i].target;
                match find_entry(&node.entries, target) {
                    None => Err(FsError::NotFound),
                    Some(j2) => match node.entries[j2].id {
                        NodeId::Link(_) => Err(FsError::Invalid),
                        id2 => Ok(id2),
                    },
                }
            } else {
                Ok(NodeId::Link(i))
            },
            id => Ok(id),
        },
    }
}

/// Resolves a `set_times` argument, matching [`resolve_time`].
fn pick_time(t: Option<TimeSpec>, now: u64, keep: u64) -> (r: u64)
    ensures
        r == resolve_time(t, now, keep),
{
    match t {
        None => keep,
        Some(TimeSpec::Now) => now,
        Some(TimeSpec::Absolute(v)) => v,
    }
}

/// The bytes a read of `want` bytes at `offset` yields: everything from
/// `offset` (clamped to the end) up to `offset + want` (clamped likewise).
pub open spec fn read_slice(content: Seq<u8>, offset: int, want: int) -> Seq<u8> {
    let lo: int = if offset < content.len() {
        offset
    } else {
        content.len() as int
    };
    let hi: int = if offset + want < content.len() {
        offset + want
    } else {
        content.len() as int
    };
    content.subrange(lo, hi)
}

/// The cursor that results from moving `base` by the signed offset `d`,
/// when that lands inside the representable range.
pub open spec fn shifted(base: u64, d: i64) -> Result<u64, FsError> {
    if 0 <= base + d && base + d <= u64::MAX {
        Ok((base + d) as u64)
    } else {
        Err(FsError::Invalid)
    }
}

/// What a seek request resolves to, given the current cursor and the file
/// length.
pub open spec fn seek_result(pos: u64, len: u64, from: SeekFrom) -> Result<u64, FsError> {
    match from {
        SeekFrom::Start(n) => Ok(n),
        SeekFrom::Current(d) => shifted(pos, d),
        SeekFrom::End(d) => shifted(len, d),
    }
}

/// The number of bytes immediately available at cursor `pos` of a file of
/// length `len`.
pub open spec fn ready_bytes(pos: u64, len: u64) -> u64 {
    if pos < len {
        (len - pos) as u64
    } else {
        0
    }
}

/// Copies `want` bytes of `content` starting at `offset`, clamped to the
/// end of the content.
fn copy_range(content: &Vec<u8>, offset: u64, want: usize) -> (out: Vec<u8>)
    ensures
        out@ == read_slice(content@, offset as int, want as int),
{
    let len = content.len();
    let lo: usize = if offset < len as u64 {
        offset as usize
    } else {
        len
    };
    let hi: usize = if len - lo < want {
        len
    } else {
        lo + want
    };
    let mut out: Vec<u8> = Vec::new();
    let mut i: usize = lo;
    assert(out@ =~= content@.subrange(lo as int, lo as int));
    while i < hi
        invariant
            lo <= i <= hi <= len,
            len == content@.len(),
            out@ == content@.subrange(lo as int, i as int),
        decreases hi - i,
    {
        out.push(content[i]);
        assert(out@ =~= content@.subrange(lo as int, i + 1));
        i = i + 1;
    }
    assert(out@ =~= read_slice(content@, offset as int, want as int));
    out
}

/// Moves `base` by the signed offset `d`, matching [`shifted`].
fn shift_cursor(base: u64, d: i64) -> (r: Result<u64, FsError>)
    ensures
        r == shifted(base, d),
{
    if d >= 0 {
        let dd = d as u64;
        if base <= u64::MAX - dd {
            Ok(base + dd)
        } else {
            Err(FsError::Invalid)
        }
    } else {
        let mag: u64 = if d == i64::MIN {
            9223372036854775808u64
        } else {
            (-d) as u64
        };
        assert(mag == -(d as int));
        if mag <= base {
            Ok(base - mag)
        } else {
            Err(FsError::Invalid)
        }
    }
}

impl InnerFile {
    /// Reports the type of the object this handle is open on; for the
    /// model, always a regular file.
    pub fn get_filetype(&self, fs: &mut InnerFs) -> (r: Result<FileType, FsError>)
        ensures
            only_counted(*old(fs), *final(fs)),
            r == Ok::<FileType, FsError>(FileType::RegularFile),
    {
        fs.note_call();
        Ok(FileType::RegularFile)
    }

    /// Reports the readiness handle of this file; the model derives it
    /// from the node index.
    pub fn pollable(&self, fs: &mut InnerFs) -> (r: Option<PollHandle>)
        ensures
            only_counted(*old(fs), *final(fs)),
            r == Some(PollHandle::Fd(self.node as u64)),
    {
        fs.note_call();
        Some(PollHandle::Fd(self.node as u64))
    }

    /// Reports whether this file is an interactive terminal; for the
    /// model, never.
    pub fn isatty(&self, fs: &mut InnerFs) -> (r: bool)
        ensures
            only_counted(*old(fs), *final(fs)),
            r == false,
    {
        fs.note_call();
        false
    }

    /// Flushes file data to storage; the model holds everything in
    /// memory, so this is a counted no-op.
    pub fn datasync(&self, fs: &mut InnerFs) -> (r: Result<(), FsError>)
        ensures
            only_counted(*old(fs), *final(fs)),
            r == Ok::<(), FsError>(()),
    {
        fs.note_call();
        Ok(())
    }

    /// Flushes file data and metadata to storage; a counted no-op, as
    /// [`InnerFile::datasync`] is.
    pub fn sync(&self, fs: &mut InnerFs) -> (r: Result<(), FsError>)
        ensures
            only_counted(*old(fs), *final(fs)),
            r == Ok::<(), FsError>(()),
    {
        fs.note_call();
        Ok(())
    }

    /// Reports the descriptor flags of this handle.
    pub fn get_fdflags(&self, fs: &mut InnerFs) -> (r: Result<FdFlags, FsError>)
        ensures
            only_counted(*old(fs), *final(fs)),
            r == Ok::<FdFlags, FsError>(self.fdflags),
    {
        fs.note_call();
        Ok(self.fdflags)
    }

    /// Reports the metadata of this file.
    pub fn get_filestat(&self, fs: &mut InnerFs) -> (r: Result<Filestat, FsError>)
        requires
            old(fs).file_ok(*self),
        ensures
            only_counted(*old(fs), *final(fs)),
            r == Ok::<Filestat, FsError>(old(fs).stat_of(NodeId::File(self.node))),
    {
        fs.note_call();
        Ok(fs.stat_exec(NodeId::File(self.node)))
    }

    /// Takes an access-pattern hint; a pure hint, so a counted no-op.
    pub fn advise(&self, fs: &mut InnerFs, offset: u64, len: u64, advice: Advice) -> (r: Result<
        (),
        FsError,
    >)
        ensures
            only_counted(*old(fs), *final(fs)),
            r == Ok::<(), FsError>(()),
    {
        let _ = offset;
        let _ = len;
        let _ = advice;
        fs.note_call();
        Ok(())
    }

    /// Reads up to `want` bytes at the cursor and advances the cursor by
    /// the number of bytes read.
    pub fn read_vectored(&mut self, fs: &mut InnerFs, want: usize) -> (r: Result<Vec<u8>, FsError>)
        requires
            old(fs).file_ok(*old(self)),
        ensures
            only_counted(*old(fs), *final(fs)),
            r matches Ok(v) && v@ == read_slice(
                old(fs).file_content(*old(self)),
                old(self).pos as int,
                want as int,
            ),
            final(self).node == old(self).node,
            final(self).fdflags == old(self).fdflags,
            final(self).pos == old(self).pos + read_slice(
                old(fs).file_content(*old(self)),
                old(self).pos as int,
                want as int,
            ).len(),
    {
        fs.note_call();
        let out = copy_range(&fs.files[self.node].content, self.pos, want);
        let n = out.len();
        let clen = fs.files[self.node].content.len();
        proof {
            let c = old(fs).file_content(*old(self));
            let p = old(self).pos as int;
            assert(c.len() == clen);
            if p < c.len() {
                assert(read_slice(c, p, want as int).len() <= c.len() - p);
            } else {
                assert(read_slice(c, p, want as int).len() == 0);
            }
        }
        assert(self.pos as int + n as int <= u64::MAX as int);
        self.pos = self.pos + n as u64;
        Ok(out)
    }

    /// Reads up to `want` bytes at the explicit `offset`, leaving the
    /// cursor alone.
    pub fn read_vectored_at(&self, fs: &mut InnerFs, want: usize, offset: u64) -> (r: Result<
        Vec<u8>,
        FsError,
    >)
        requires
            old(fs).file_ok(*self),
        ensures
            only_counted(*old(fs), *final(fs)),
            r matches Ok(v) && v@ == read_slice(
                old(fs).file_content(*self),
                offset as int,
                want as int,
            ),
    {
        fs.note_call();
        Ok(copy_range(&fs.files[self.node].content, offset, want))
    }

    /// Moves the cursor as `from` asks and reports the new position.
    pub fn seek(&mut self, fs: &mut InnerFs, from: SeekFrom) -> (r: Result<u64, FsError>)
        requires
            old(fs).file_ok(*old(self)),
        ensures
            only_counted(*old(fs), *final(fs)),
            r == seek_result(
                old(self).pos,
                old(fs).file_content(*old(self)).len() as u64,
                from,
            ),
            final(self).node == old(self).node,
            final(self).fdflags == old(self).fdflags,
            match r {
                Ok(p) => final(self).pos == p,
                Err(_) => final(self).pos == old(self).pos,
            },
    {
        fs.note_call();
        let len = fs.files[self.node].content.len();
        let moved: Result<u64, FsError> = match from {
            SeekFrom::Start(n) => Ok(n),
            SeekFrom::Current(d) => shift_cursor(self.pos, d),
            SeekFrom::End(d) => shift_cursor(len as u64, d),
        };
        match moved {
            Ok(p) => {
                self.pos = p;
                Ok(p)
            },
            Err(e) => Err(e),
        }
    }

    /// Reads up to `want` bytes at the cursor without moving it.
    pub fn peek(&self, fs: &mut InnerFs, want: usize) -> (r: Result<Vec<u8>, FsError>)
        requires
            old(fs).file_ok(*self),
        ensures
            only_counted(*old(fs), *final(fs)),
            r matches Ok(v) && v@ == read_slice(
                old(fs).file_content(*self),
                self.pos as int,
                want as int,
            ),
    {
        fs.note_call();
        Ok(copy_range(&fs.files[self.node].content, self.pos, want))
    }

    /// Reports how many bytes are immediately available at the cursor.
    pub fn num_ready_bytes(&self, fs: &mut InnerFs) -> (r: Result<u64, FsError>)
        requires
            old(fs).file_ok(*self),
        ensures
            only_counted(*old(fs), *final(fs)),
            r == Ok::<u64, FsError>(ready_bytes(
                self.pos,
                old(fs).file_content(*self).len() as u64,
            )),
    {
        fs.note_call();
        let len = fs.files[self.node].content.len();
        if self.pos < len as u64 {
            Ok(len as u64 - self.pos)
        } else {
            Ok(0)
        }
    }

    /// Waits until the file is ready for reading; an in-memory file
    /// always is.
    pub fn readable(&self, fs: &mut InnerFs) -> (r: Result<(), FsError>)
        ensures
            only_counted(*old(fs), *final(fs)),
            r == Ok::<(), FsError>(()),
    {
        fs.note_call();
        Ok(())
    }

    /// Waits until the file is ready for writing; the inner capability
    /// itself always is.
    pub fn writable(&self, fs: &mut InnerFs) -> (r: Result<(), FsError>)
        ensures
            only_counted(*old(fs), *final(fs)),
            r == Ok::<(), FsError>(()),
    {
        fs.note_call();
        Ok(())
    }

    /// Replaces the descriptor flags of this handle.
    pub fn set_fdflags(&mut self, fs: &mut InnerFs, flags: FdFlags) -> (r: Result<(), FsError>)
        ensures
            only_counted(*old(fs), *final(fs)),
            r == Ok::<(), FsError>(()),
            *final(self) == (InnerFile { fdflags: flags, ..*old(self) }),
    {
        fs.note_call();
        self.fdflags = flags;
        Ok(())
    }

    /// Truncates or zero-extends the file to `size` bytes.
    pub fn set_filestat_size(&self, fs: &mut InnerFs, size: u64) -> (r: Result<(), FsError>)
        requires
            old(fs).wf(),
            old(fs).file_ok(*self),
        ensures
            final(fs).wf(),
            final(fs).file_ok(*self),
            if size > usize::MAX as u64 {
                r == Err::<(), FsError>(FsError::Invalid) && only_counted(*old(fs), *final(fs))
            } else {
                &&& r == Ok::<(), FsError>(())
                &&& final(fs).file_content(*self) == sized_to(
                    old(fs).file_content(*self),
                    size as int,
                )
                &&& content_replaced(*old(fs), *final(fs), self.node as int)
            },
    {
        fs.note_call();
        if size > usize::MAX as u64 {
            return Err(FsError::Invalid);
        }
        let want: usize = size as usize;
        let node = &mut fs.files[self.node];
        if node.content.len() > want {
            node.content.truncate(want);
            assert(node.content@ =~= sized_to(old(fs).file_content(*self), size as int));
        } else {
            zero_extend(&mut node.content, want);
            assert(node.content@ =~= sized_to(old(fs).file_content(*self), size as int));
        }
        proof {
            assert forall|a: int, b: int|
                0 <= a < fs.dirs@.len() && 0 <= b < fs.dirs@[a].entries@.len() implies fs.id_ok(
                fs.dirs@[a].entries@[b].id,
            ) by {
                assert(old(fs).id_ok(old(fs).dirs@[a].entries@[b].id));
            }
        }
        Ok(())
    }

    /// Sets the access and modification times of the file.
    pub fn set_times(
        &self,
        fs: &mut InnerFs,
        atime: Option<TimeSpec>,
        mtime: Option<TimeSpec>,
    ) -> (r: Result<(), FsError>)
        requires
            old(fs).wf(),
            old(fs).file_ok(*self),
        ensures
            final(fs).wf(),
            r == Ok::<(), FsError>(()),
            meta_updated(
                *old(fs),
                *final(fs),
                NodeId::File(self.node),
                Meta {
                    atim: resolve_time(atime, old(fs).now, old(fs).files@[self.node as int].meta.atim),
                    mtim: resolve_time(mtime, old(fs).now, old(fs).files@[self.node as int].meta.mtim),
                },
            ),
    {
        fs.note_call();
        let now = fs.now;
        let m = fs.files[self.node].meta;
        let nm = Meta {
            atim: pick_time(atime, now, m.atim),
            mtim: pick_time(mtime, now, m.mtim),
        };
        let node = &mut fs.files[self.node];
        node.meta = nm;
        proof {
            assert forall|a: int, b: int|
                0 <= a < fs.dirs@.len() && 0 <= b < fs.dirs@[a].entries@.len() implies fs.id_ok(
                fs.dirs@[a].entries@[b].id,
            ) by {
                assert(old(fs).id_ok(old(fs).dirs@[a].entries@[b].id));
            }
        }
        Ok(())
    }

    /// Writes `data` at the explicit `offset`, zero-filling any gap
    /// between the old end of the file and `offset`, and reports how many
    /// bytes were written.
    pub fn write_vectored_at(&self, fs: &mut InnerFs, data: &Vec<u8>, offset: u64) -> (r: Result<
        u64,
        FsError,
    >)
        requires
            old(fs).wf(),
            old(fs).file_ok(*self),
        ensures
            final(fs).wf(),
            final(fs).file_ok(*self),
            if offset + data@.len() > usize::MAX {
                r == Err::<u64, FsError>(FsError::Invalid) && only_counted(*old(fs), *final(fs))
            } else {
                &&& r == Ok::<u64, FsError>(data@.len() as u64)
                &&& final(fs).file_content(*self) == write_at(
                    old(fs).file_content(*self),
                    offset as int,
                    data@,
                )
                &&& content_replaced(*old(fs), *final(fs), self.node as int)
            },
    {
        fs.note_call();
        if offset > usize::MAX as u64 || offset as usize > usize::MAX - data.len() {
            return Err(FsError::Invalid);
        }
        let off: usize = offset as usize;
        let end: usize = off + data.len();
        let node = &mut fs.files[self.node];
        let ghost pre = node.content@;
        if node.content.len() < end {
            zero_extend(&mut node.content, end);
        }
        overwrite(&mut node.content, off, data);
        proof {
            assert(node.content@ =~= write_at(pre, offset as int, data@));
            assert forall|a: int, b: int|
                0 <= a < fs.dirs@.len() && 0 <= b < fs.dirs@[a].entries@.len() implies fs.id_ok(
                fs.dirs@[a].entries@[b].id,
            ) by {
                assert(old(fs).id_ok(old(fs).dirs@[a].entries@[b].id));
            }
        }
        Ok(data.len() as u64)
    }
}

/// Zero-extends `v` to `want` bytes.
fn zero_extend(v: &mut Vec<u8>, want: usize)
    requires
        old(v)@.len() <= want,
    ensures
        final(v)@ == sized_to(old(v)@, want as int),
{
    while v.len() < want
        invariant
            old(v)@.len() <= v@.len() <= want,
            v@.subrange(0, old(v)@.len() as int) == old(v)@,
            forall|i: int| old(v)@.len() <= i < v@.len() ==> v@[i] == 0u8,
        decreases want - v@.len(),
    {
        v.push(0u8);
        assert(v@.subrange(0, old(v)@.len() as int) =~= old(v)@);
    }
    assert(v@ =~= sized_to(old(v)@, want as int));
}

/// Overwrites the bytes of `v` from `off` on with `data`.
fn overwrite(v: &mut Vec<u8>, off: usize, data: &Vec<u8>)
    requires
        off + data@.len() <= old(v)@.len(),
    ensures
        final(v)@.len() == old(v)@.len(),
        forall|j: int| off <= j < off + data@.len() ==> final(v)@[j] == data@[j - off],
        forall|j: int|
            (0 <= j < off || off + data@.len() <= j < old(v)@.len()) ==> final(v)@[j] == old(
                v,
            )@[j],
{
    let mut i: usize = 0;
    while i < data.len()
        invariant
            i <= data@.len(),
            off + data@.len() <= v@.len(),
            v@.len() == old(v)@.len(),
            forall|j: int| off <= j < off + i ==> v@[j] == data@[j - off],
            forall|j: int| 0 <= j < off ==> v@[j] == old(v)@[j],
            forall|j: int| off + i <= j < v@.len() ==> v@[j] == old(v)@[j],
        decreases data@.len() - i,
    {
        let vlen = v.len();
        assert(off + i < vlen);
        v[off + i] = data[i];
        i = i + 1;
    }
}

/// `post` is `pre` with the content of file node `n` replaced (its
/// metadata kept), one more invocation recorded, and nothing else
/// changed.
pub open spec fn content_replaced(pre: InnerFs, post: InnerFs, n: int) -> bool {
    &&& post.files@.len() == pre.files@.len()
    &&& post.files@[n].meta == pre.files@[n].meta
    &&& forall|k: int| 0 <= k < pre.files@.len() && k != n ==> post.files@[k] == pre.files@[k]
    &&& post.dirs@ == pre.dirs@
    &&& post.links@ == pre.links@
    &&& post.now == pre.now
    &&& post.calls == bumped(pre.calls)
}

/// The content truncated or zero-extended to `size` bytes.
pub open spec fn sized_to(content: Seq<u8>, size: int) -> Seq<u8> {
    Seq::new(
        size as nat,
        |i: int|
            if i < content.len() {
                content[i]
            } else {
                0u8
            },
    )
}

/// The content after writing `data` at `offset`: the file grows to cover
/// the write if needed, any gap is zero-filled, and everything outside
/// the written range keeps its old value.
pub open spec fn write_at(content: Seq<u8>, offset: int, data: Seq<u8>) -> Seq<u8> {
    let newlen: int = if content.len() >= offset + data.len() {
        content.len() as int
    } else {
        offset + data.len()
    };
    Seq::new(
        newlen as nat,
        |i: int|
            if offset <= i < offset + data.len() {
                data[i - offset]
            } else if i < content.len() {
                content[i]
            } else {
                0u8
            },
    )
}

} // verus!
