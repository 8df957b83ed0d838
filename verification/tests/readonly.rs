//! Behaviour of the read-only filter over the in-memory inner capability.

use readonly_fs::filter::{
    decide_dir_op, decide_file_op, open_access_permitted, Action, DirOpKind, FileOpKind,
    ReadOnlyDir, ReadOnlyFile, ReadOnlyOpen,
};
use readonly_fs::inner::{InnerDir, InnerFs};
use readonly_fs::types::{Advice, FdFlags, FsError, FileType, OFlags, SeekFrom, TimeSpec};

fn no_oflags() -> OFlags {
    OFlags { create: false, directory: false, exclusive: false, truncate: false }
}

/// A directory holding file "a.txt" (content "hi") and sub-directory
/// "sub".
fn fixture() -> (InnerFs, InnerDir) {
    let mut fs = InnerFs::new();
    let root = fs.root();
    root.add_file(&mut fs, &"a.txt".to_string(), b"hi".to_vec()).unwrap();
    root.create_dir(&mut fs, &"sub".to_string()).unwrap();
    (fs, root)
}

fn open_ro_file(fs: &mut InnerFs, dir: &ReadOnlyDir, name: &str) -> ReadOnlyFile {
    match dir.open_file(fs, false, &name.to_string(), no_oflags(), true, false, FdFlags::none()) {
        Ok(ReadOnlyOpen::File(f)) => f,
        other => panic!("expected a file handle, got {:?}", other.is_ok()),
    }
}

fn open_ro_dir(fs: &mut InnerFs, dir: &ReadOnlyDir, name: &str) -> ReadOnlyDir {
    match dir.open_file(fs, false, &name.to_string(), no_oflags(), true, false, FdFlags::none()) {
        Ok(ReadOnlyOpen::Dir(d)) => d,
        other => panic!("expected a directory handle, got {:?}", other.is_ok()),
    }
}

#[test]
fn scenario_wrapper_over_populated_directory() {
    let (mut fs, root) = fixture();
    let ro = ReadOnlyDir(root);

    // Listing the wrapper yields the same two entries as listing the
    // inner directory.
    let through_wrapper = ro.readdir(&mut fs, 0).unwrap();
    let through_inner = root.readdir(&mut fs, 0).unwrap();
    assert_eq!(through_wrapper.len(), 2);
    assert_eq!(through_inner.len(), 2);
    for (a, b) in through_wrapper.iter().zip(through_inner.iter()) {
        assert_eq!(a.name, b.name);
        assert_eq!(a.inode, b.inode);
        assert_eq!(a.filetype, b.filetype);
    }
    assert_eq!(through_wrapper[0].name, "a.txt");
    assert_eq!(through_wrapper[0].filetype, FileType::RegularFile);
    assert_eq!(through_wrapper[1].name, "sub");
    assert_eq!(through_wrapper[1].filetype, FileType::Directory);

    // Opening "a.txt" read-only through the wrapper and reading returns
    // "hi".
    let mut f = open_ro_file(&mut fs, &ro, "a.txt");
    let data = f.read_vectored(&mut fs, 16).unwrap();
    assert_eq!(data, b"hi".to_vec());

    // Opening "a.txt" with write requested fails with PermissionDenied.
    let denied = ro.open_file(
        &mut fs,
        false,
        &"a.txt".to_string(),
        no_oflags(),
        true,
        true,
        FdFlags::none(),
    );
    assert!(matches!(denied, Err(FsError::PermissionDenied)));

    // remove_file("a.txt") fails with PermissionDenied and "a.txt" still
    // exists in the inner directory afterward.
    let removed = ro.unlink_file(&mut fs, &"a.txt".to_string());
    assert!(matches!(removed, Err(FsError::PermissionDenied)));
    let still_there = root.readdir(&mut fs, 0).unwrap();
    assert_eq!(still_there.len(), 2);
    assert_eq!(still_there[0].name, "a.txt");

    // Opening "sub" and attempting create_dir inside it fails with
    // PermissionDenied.
    let sub = open_ro_dir(&mut fs, &ro, "sub");
    let created = sub.create_dir(&mut fs, &"nested".to_string());
    assert!(matches!(created, Err(FsError::PermissionDenied)));
}

#[test]
fn mutating_dir_ops_always_denied_and_never_reach_inner() {
    let (mut fs, root) = fixture();
    let ro = ReadOnlyDir(root);
    let other = ReadOnlyDir(root);
    let name = "a.txt".to_string();
    let before = fs.calls;

    assert!(matches!(
        ro.open_file(&mut fs, true, &name, no_oflags(), true, true, FdFlags::none()),
        Err(FsError::PermissionDenied)
    ));
    assert!(matches!(ro.create_dir(&mut fs, &name), Err(FsError::PermissionDenied)));
    assert!(matches!(
        ro.symlink(&mut fs, &"target".to_string(), &"missing".to_string()),
        Err(FsError::PermissionDenied)
    ));
    assert!(matches!(ro.remove_dir(&mut fs, &"sub".to_string()), Err(FsError::PermissionDenied)));
    assert!(matches!(ro.unlink_file(&mut fs, &name), Err(FsError::PermissionDenied)));
    assert!(matches!(
        ro.rename(&mut fs, &name, &other, &"b.txt".to_string()),
        Err(FsError::PermissionDenied)
    ));
    assert!(matches!(
        ro.hard_link(&mut fs, &name, &other, &"b.txt".to_string()),
        Err(FsError::PermissionDenied)
    ));
    assert!(matches!(
        ro.set_times(&mut fs, &name, Some(TimeSpec::Now), Some(TimeSpec::Absolute(7)), true),
        Err(FsError::PermissionDenied)
    ));

    // The instrumented inner capability records zero invocations.
    assert_eq!(fs.calls, before);
}

#[test]
fn mutating_dir_ops_denied_for_invalid_arguments_too() {
    let (mut fs, root) = fixture();
    let ro = ReadOnlyDir(root);
    let other = ReadOnlyDir(root);
    let missing = "no-such-entry".to_string();
    let before = fs.calls;

    // The inner capability would answer NotFound for these; the filter
    // denies them without looking.
    assert!(matches!(ro.remove_dir(&mut fs, &missing), Err(FsError::PermissionDenied)));
    assert!(matches!(ro.unlink_file(&mut fs, &missing), Err(FsError::PermissionDenied)));
    assert!(matches!(
        ro.rename(&mut fs, &missing, &other, &missing),
        Err(FsError::PermissionDenied)
    ));
    assert!(matches!(ro.set_times(&mut fs, &missing, None, None, false), Err(FsError::PermissionDenied)));
    assert_eq!(fs.calls, before);
}

#[test]
fn mutating_file_ops_always_denied_and_never_reach_inner() {
    let (mut fs, root) = fixture();
    let ro = ReadOnlyDir(root);
    let mut f = open_ro_file(&mut fs, &ro, "a.txt");
    let before = fs.calls;

    assert!(matches!(f.set_fdflags(&mut fs, FdFlags::none()), Err(FsError::PermissionDenied)));
    assert!(matches!(f.set_filestat_size(&mut fs, 0), Err(FsError::PermissionDenied)));
    assert!(matches!(
        f.set_times(&mut fs, Some(TimeSpec::Absolute(1)), None),
        Err(FsError::PermissionDenied)
    ));
    assert!(matches!(
        f.write_vectored_at(&mut fs, &b"xx".to_vec(), 0),
        Err(FsError::PermissionDenied)
    ));
    assert!(matches!(f.writable(&mut fs), Err(FsError::PermissionDenied)));

    assert_eq!(fs.calls, before);

    // The content is untouched.
    let data = f.read_vectored_at(&mut fs, 16, 0).unwrap();
    assert_eq!(data, b"hi".to_vec());
}

#[test]
fn non_mutating_dir_ops_match_inner_results() {
    let (mut fs, root) = fixture();
    root.symlink(&mut fs, &"a.txt".to_string(), &"link".to_string()).unwrap();
    let ro = ReadOnlyDir(root);

    // Success outcomes match the inner capability's, argument for
    // argument.
    let w = ro.get_filestat(&mut fs).unwrap();
    let i = root.get_filestat(&mut fs).unwrap();
    assert_eq!(w, i);

    let w = ro.get_path_filestat(&mut fs, &"a.txt".to_string(), true).unwrap();
    let i = root.get_path_filestat(&mut fs, &"a.txt".to_string(), true).unwrap();
    assert_eq!(w, i);

    let w = ro.get_path_filestat(&mut fs, &"link".to_string(), true).unwrap();
    let i = root.get_path_filestat(&mut fs, &"link".to_string(), true).unwrap();
    assert_eq!(w, i);
    assert_eq!(w.filetype, FileType::RegularFile);

    let w = ro.read_link(&mut fs, &"link".to_string()).unwrap();
    let i = root.read_link(&mut fs, &"link".to_string()).unwrap();
    assert_eq!(w, i);
    assert_eq!(w, "a.txt".to_string());

    let w = ro.readdir(&mut fs, 1).unwrap();
    let i = root.readdir(&mut fs, 1).unwrap();
    assert_eq!(w.len(), i.len());
    for (a, b) in w.iter().zip(i.iter()) {
        assert_eq!(a.name, b.name);
    }

    // Failure outcomes match too.
    let w = ro.read_link(&mut fs, &"a.txt".to_string());
    let i = root.read_link(&mut fs, &"a.txt".to_string());
    assert_eq!(w, i);
    assert!(matches!(w, Err(FsError::Invalid)));

    let w = ro.get_path_filestat(&mut fs, &"missing".to_string(), false);
    let i = root.get_path_filestat(&mut fs, &"missing".to_string(), false);
    assert_eq!(w, i);
    assert!(matches!(w, Err(FsError::NotFound)));
}

#[test]
fn non_mutating_file_ops_match_inner_results() {
    let (mut fs, root) = fixture();
    let ro = ReadOnlyDir(root);
    let mut f = open_ro_file(&mut fs, &ro, "a.txt");

    assert_eq!(f.get_filetype(&mut fs).unwrap(), FileType::RegularFile);
    assert!(f.pollable(&mut fs).is_some());
    assert!(!f.isatty(&mut fs));
    f.datasync(&mut fs).unwrap();
    f.sync(&mut fs).unwrap();
    assert_eq!(f.get_fdflags(&mut fs).unwrap(), FdFlags::none());
    let stat = f.get_filestat(&mut fs).unwrap();
    assert_eq!(stat.size, 2);
    assert_eq!(stat.filetype, FileType::RegularFile);
    f.advise(&mut fs, 0, 2, Advice::Sequential).unwrap();

    assert_eq!(f.num_ready_bytes(&mut fs).unwrap(), 2);
    assert_eq!(f.peek(&mut fs, 1).unwrap(), b"h".to_vec());
    assert_eq!(f.read_vectored(&mut fs, 1).unwrap(), b"h".to_vec());
    assert_eq!(f.num_ready_bytes(&mut fs).unwrap(), 1);
    assert_eq!(f.read_vectored(&mut fs, 8).unwrap(), b"i".to_vec());
    assert_eq!(f.num_ready_bytes(&mut fs).unwrap(), 0);
    f.readable(&mut fs).unwrap();
}

#[test]
fn seek_moves_only_the_cursor() {
    let (mut fs, root) = fixture();
    let ro = ReadOnlyDir(root);
    let mut f = open_ro_file(&mut fs, &ro, "a.txt");

    assert_eq!(f.seek(&mut fs, SeekFrom::End(0)).unwrap(), 2);
    assert_eq!(f.seek(&mut fs, SeekFrom::Current(-1)).unwrap(), 1);
    assert_eq!(f.read_vectored(&mut fs, 4).unwrap(), b"i".to_vec());
    assert_eq!(f.seek(&mut fs, SeekFrom::Start(0)).unwrap(), 0);
    assert_eq!(f.read_vectored(&mut fs, 4).unwrap(), b"hi".to_vec());

    // Seeking before the start is the inner capability's error,
    // propagated unchanged.
    assert!(matches!(f.seek(&mut fs, SeekFrom::Current(-7)), Err(FsError::Invalid)));

    // The content was never touched.
    assert_eq!(f.read_vectored_at(&mut fs, 4, 0).unwrap(), b"hi".to_vec());
}

#[test]
fn transitivity_denies_mutation_at_any_depth() {
    let mut fs = InnerFs::new();
    let root = fs.root();
    root.create_dir(&mut fs, &"sub".to_string()).unwrap();
    let inner_sub = match root.open_file(
        &mut fs,
        false,
        &"sub".to_string(),
        no_oflags(),
        true,
        false,
        FdFlags::none(),
    ) {
        Ok(readonly_fs::inner::InnerOpen::Dir(d)) => d,
        _ => panic!("expected the sub-directory"),
    };
    inner_sub.create_dir(&mut fs, &"subsub".to_string()).unwrap();
    inner_sub.add_file(&mut fs, &"deep.txt".to_string(), b"deep".to_vec()).unwrap();

    let ro = ReadOnlyDir(root);
    let sub = open_ro_dir(&mut fs, &ro, "sub");
    let subsub = open_ro_dir(&mut fs, &sub, "subsub");
    let mut deep = open_ro_file(&mut fs, &sub, "deep.txt");

    let before = fs.calls;
    assert!(matches!(subsub.create_dir(&mut fs, &"x".to_string()), Err(FsError::PermissionDenied)));
    assert!(matches!(sub.unlink_file(&mut fs, &"deep.txt".to_string()), Err(FsError::PermissionDenied)));
    assert!(matches!(
        deep.write_vectored_at(&mut fs, &b"zz".to_vec(), 0),
        Err(FsError::PermissionDenied)
    ));
    assert!(matches!(deep.set_fdflags(&mut fs, FdFlags::none()), Err(FsError::PermissionDenied)));
    assert_eq!(fs.calls, before);

    // Reading through the deep wrapper still works.
    assert_eq!(deep.read_vectored(&mut fs, 16).unwrap(), b"deep".to_vec());
}

#[test]
fn open_with_write_denied_before_any_inner_attempt() {
    let (mut fs, root) = fixture();
    let ro = ReadOnlyDir(root);
    let before = fs.calls;
    // Even an open that the inner capability would reject anyway (the
    // entry does not exist) is denied first, without an inner call.
    let r = ro.open_file(
        &mut fs,
        false,
        &"missing".to_string(),
        no_oflags(),
        false,
        true,
        FdFlags::none(),
    );
    assert!(matches!(r, Err(FsError::PermissionDenied)));
    assert_eq!(fs.calls, before);
}

#[test]
fn denial_is_idempotent_with_no_state_drift() {
    let (mut fs, root) = fixture();
    let ro = ReadOnlyDir(root);
    let listing_before = root.readdir(&mut fs, 0).unwrap();
    let calls_before = fs.calls;

    for _ in 0..5 {
        let r = ro.create_dir(&mut fs, &"again".to_string());
        assert!(matches!(r, Err(FsError::PermissionDenied)));
        let r = ro.unlink_file(&mut fs, &"a.txt".to_string());
        assert!(matches!(r, Err(FsError::PermissionDenied)));
    }

    assert_eq!(fs.calls, calls_before);
    let listing_after = root.readdir(&mut fs, 0).unwrap();
    assert_eq!(listing_before.len(), listing_after.len());
    for (a, b) in listing_before.iter().zip(listing_after.iter()) {
        assert_eq!(a.name, b.name);
        assert_eq!(a.inode, b.inode);
    }
}

#[test]
fn classification_decides_by_kind_alone() {
    assert_eq!(decide_dir_op(DirOpKind::Open { write: true }), Action::Deny);
    assert_eq!(decide_dir_op(DirOpKind::Open { write: false }), Action::Delegate);
    assert_eq!(decide_dir_op(DirOpKind::CreateDir), Action::Deny);
    assert_eq!(decide_dir_op(DirOpKind::ReadDir), Action::Delegate);
    assert_eq!(decide_dir_op(DirOpKind::Symlink), Action::Deny);
    assert_eq!(decide_dir_op(DirOpKind::RemoveDir), Action::Deny);
    assert_eq!(decide_dir_op(DirOpKind::UnlinkFile), Action::Deny);
    assert_eq!(decide_dir_op(DirOpKind::ReadLink), Action::Delegate);
    assert_eq!(decide_dir_op(DirOpKind::GetFilestat), Action::Delegate);
    assert_eq!(decide_dir_op(DirOpKind::GetPathFilestat), Action::Delegate);
    assert_eq!(decide_dir_op(DirOpKind::Rename), Action::Deny);
    assert_eq!(decide_dir_op(DirOpKind::HardLink), Action::Deny);
    assert_eq!(decide_dir_op(DirOpKind::SetTimes), Action::Deny);

    assert_eq!(decide_file_op(FileOpKind::GetFiletype), Action::Delegate);
    assert_eq!(decide_file_op(FileOpKind::Pollable), Action::Delegate);
    assert_eq!(decide_file_op(FileOpKind::Isatty), Action::Delegate);
    assert_eq!(decide_file_op(FileOpKind::Datasync), Action::Delegate);
    assert_eq!(decide_file_op(FileOpKind::Sync), Action::Delegate);
    assert_eq!(decide_file_op(FileOpKind::GetFdflags), Action::Delegate);
    assert_eq!(decide_file_op(FileOpKind::SetFdflags), Action::Deny);
    assert_eq!(decide_file_op(FileOpKind::GetFilestat), Action::Delegate);
    assert_eq!(decide_file_op(FileOpKind::SetFilestatSize), Action::Deny);
    assert_eq!(decide_file_op(FileOpKind::Advise), Action::Delegate);
    assert_eq!(decide_file_op(FileOpKind::SetTimes), Action::Deny);
    assert_eq!(decide_file_op(FileOpKind::ReadVectored), Action::Delegate);
    assert_eq!(decide_file_op(FileOpKind::ReadVectoredAt), Action::Delegate);
    assert_eq!(decide_file_op(FileOpKind::WriteVectoredAt), Action::Deny);
    assert_eq!(decide_file_op(FileOpKind::Seek), Action::Delegate);
    assert_eq!(decide_file_op(FileOpKind::Peek), Action::Delegate);
    assert_eq!(decide_file_op(FileOpKind::NumReadyBytes), Action::Delegate);
    assert_eq!(decide_file_op(FileOpKind::Readable), Action::Delegate);
    assert_eq!(decide_file_op(FileOpKind::Writable), Action::Deny);

    assert!(open_access_permitted(true, false));
    assert!(open_access_permitted(false, false));
    assert!(!open_access_permitted(true, true));
    assert!(!open_access_permitted(false, true));
}
