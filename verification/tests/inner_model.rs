//! Behaviour of the in-memory inner capability itself: unlike the
//! read-only wrappers around it, it is fully capable of mutation, and its
//! errors are the ones a wrapper propagates unchanged.

use readonly_fs::inner::{InnerFs, InnerOpen};
use readonly_fs::types::{FdFlags, FsError, FileType, OFlags, SeekFrom, TimeSpec};

fn no_oflags() -> OFlags {
    OFlags { create: false, directory: false, exclusive: false, truncate: false }
}

#[test]
fn inner_capability_can_mutate() {
    let mut fs = InnerFs::new();
    let root = fs.root();
    root.create_dir(&mut fs, &"d".to_string()).unwrap();
    root.add_file(&mut fs, &"f".to_string(), b"abc".to_vec()).unwrap();

    let f = match root
        .open_file(&mut fs, false, &"f".to_string(), no_oflags(), true, true, FdFlags::none())
    {
        Ok(InnerOpen::File(f)) => f,
        _ => panic!("expected a file handle"),
    };

    // Overwrite one byte past the end: the gap is zero-filled.
    assert_eq!(f.write_vectored_at(&mut fs, &b"Z".to_vec(), 4).unwrap(), 1);
    assert_eq!(f.read_vectored_at(&mut fs, 16, 0).unwrap(), vec![b'a', b'b', b'c', 0, b'Z']);

    // Truncate back.
    f.set_filestat_size(&mut fs, 2).unwrap();
    assert_eq!(f.read_vectored_at(&mut fs, 16, 0).unwrap(), b"ab".to_vec());

    // Unlink works on the inner capability.
    root.unlink_file(&mut fs, &"f".to_string()).unwrap();
    let listing = root.readdir(&mut fs, 0).unwrap();
    assert_eq!(listing.len(), 1);
    assert_eq!(listing[0].name, "d");
}

#[test]
fn inner_open_error_variants() {
    let mut fs = InnerFs::new();
    let root = fs.root();
    root.create_dir(&mut fs, &"d".to_string()).unwrap();
    root.add_file(&mut fs, &"f".to_string(), b"x".to_vec()).unwrap();
    root.symlink(&mut fs, &"f".to_string(), &"l".to_string()).unwrap();

    assert!(matches!(
        root.open_file(&mut fs, false, &"missing".to_string(), no_oflags(), true, false, FdFlags::none()),
        Err(FsError::NotFound)
    ));

    let excl = OFlags { create: true, directory: false, exclusive: true, truncate: false };
    assert!(matches!(
        root.open_file(&mut fs, false, &"f".to_string(), excl, true, false, FdFlags::none()),
        Err(FsError::AlreadyExists)
    ));

    let as_dir = OFlags { create: false, directory: true, exclusive: false, truncate: false };
    assert!(matches!(
        root.open_file(&mut fs, false, &"f".to_string(), as_dir, true, false, FdFlags::none()),
        Err(FsError::NotADirectory)
    ));

    let trunc = OFlags { create: false, directory: false, exclusive: false, truncate: true };
    assert!(matches!(
        root.open_file(&mut fs, false, &"d".to_string(), trunc, true, false, FdFlags::none()),
        Err(FsError::IsADirectory)
    ));

    assert!(matches!(
        root.open_file(&mut fs, false, &"l".to_string(), no_oflags(), true, false, FdFlags::none()),
        Err(FsError::Unsupported)
    ));
}

#[test]
fn inner_remove_and_link_error_variants() {
    let mut fs = InnerFs::new();
    let root = fs.root();
    root.create_dir(&mut fs, &"d".to_string()).unwrap();
    root.add_file(&mut fs, &"f".to_string(), Vec::new()).unwrap();

    let d = match root
        .open_file(&mut fs, false, &"d".to_string(), no_oflags(), true, false, FdFlags::none())
    {
        Ok(InnerOpen::Dir(d)) => d,
        _ => panic!("expected a directory handle"),
    };
    d.add_file(&mut fs, &"inside".to_string(), Vec::new()).unwrap();

    assert!(matches!(root.remove_dir(&mut fs, &"d".to_string()), Err(FsError::NotEmpty)));
    assert!(matches!(root.remove_dir(&mut fs, &"f".to_string()), Err(FsError::NotADirectory)));
    assert!(matches!(root.remove_dir(&mut fs, &"nope".to_string()), Err(FsError::NotFound)));
    assert!(matches!(root.unlink_file(&mut fs, &"d".to_string()), Err(FsError::IsADirectory)));
    assert!(matches!(root.unlink_file(&mut fs, &"nope".to_string()), Err(FsError::NotFound)));
    assert!(matches!(
        root.hard_link(&mut fs, &"d".to_string(), root, &"d2".to_string()),
        Err(FsError::Invalid)
    ));
    assert!(matches!(
        root.hard_link(&mut fs, &"f".to_string(), root, &"d".to_string()),
        Err(FsError::AlreadyExists)
    ));
    assert!(matches!(
        root.rename(&mut fs, &"f".to_string(), root, &"d".to_string()),
        Err(FsError::AlreadyExists)
    ));
    assert!(matches!(
        root.rename(&mut fs, &"nope".to_string(), root, &"x".to_string()),
        Err(FsError::NotFound)
    ));

    d.unlink_file(&mut fs, &"inside".to_string()).unwrap();
    root.remove_dir(&mut fs, &"d".to_string()).unwrap();
    let listing = root.readdir(&mut fs, 0).unwrap();
    assert_eq!(listing.len(), 1);
    assert_eq!(listing[0].name, "f");
}

#[test]
fn inner_rename_and_hard_link_move_entries() {
    let mut fs = InnerFs::new();
    let root = fs.root();
    root.create_dir(&mut fs, &"d".to_string()).unwrap();
    root.add_file(&mut fs, &"f".to_string(), b"payload".to_vec()).unwrap();
    let d = match root
        .open_file(&mut fs, false, &"d".to_string(), no_oflags(), true, false, FdFlags::none())
    {
        Ok(InnerOpen::Dir(d)) => d,
        _ => panic!("expected a directory handle"),
    };

    root.hard_link(&mut fs, &"f".to_string(), d, &"alias".to_string()).unwrap();
    root.rename(&mut fs, &"f".to_string(), d, &"moved".to_string()).unwrap();

    let at_root = root.readdir(&mut fs, 0).unwrap();
    assert_eq!(at_root.len(), 1);
    assert_eq!(at_root[0].name, "d");

    let in_d = d.readdir(&mut fs, 0).unwrap();
    assert_eq!(in_d.len(), 2);
    assert_eq!(in_d[0].name, "alias");
    assert_eq!(in_d[1].name, "moved");
    // Hard link and moved entry name the same node.
    assert_eq!(in_d[0].inode, in_d[1].inode);
}

#[test]
fn inner_set_times_and_stat() {
    let mut fs = InnerFs::new();
    fs.now = 77;
    let root = fs.root();
    root.add_file(&mut fs, &"f".to_string(), b"xyz".to_vec()).unwrap();

    root.set_times(
        &mut fs,
        &"f".to_string(),
        Some(TimeSpec::Now),
        Some(TimeSpec::Absolute(5)),
        false,
    )
    .unwrap();
    let stat = root.get_path_filestat(&mut fs, &"f".to_string(), false).unwrap();
    assert_eq!(stat.atim, 77);
    assert_eq!(stat.mtim, 5);
    assert_eq!(stat.size, 3);
    assert_eq!(stat.filetype, FileType::RegularFile);

    let dstat = root.get_filestat(&mut fs).unwrap();
    assert_eq!(dstat.filetype, FileType::Directory);
    assert_eq!(dstat.size, 1);
}

#[test]
fn inner_readdir_cursor_past_end_yields_nothing() {
    let mut fs = InnerFs::new();
    let root = fs.root();
    root.add_file(&mut fs, &"f".to_string(), Vec::new()).unwrap();
    assert_eq!(root.readdir(&mut fs, 0).unwrap().len(), 1);
    assert_eq!(root.readdir(&mut fs, 1).unwrap().len(), 0);
    assert_eq!(root.readdir(&mut fs, 99).unwrap().len(), 0);
}

#[test]
fn inner_seek_and_fdflags() {
    let mut fs = InnerFs::new();
    let root = fs.root();
    root.add_file(&mut fs, &"f".to_string(), b"0123456789".to_vec()).unwrap();
    let flags = FdFlags { append: false, dsync: false, nonblock: true, rsync: false, sync: false };
    let mut f = match root
        .open_file(&mut fs, false, &"f".to_string(), no_oflags(), true, false, flags)
    {
        Ok(InnerOpen::File(f)) => f,
        _ => panic!("expected a file handle"),
    };
    assert_eq!(f.get_fdflags(&mut fs).unwrap(), flags);
    f.set_fdflags(&mut fs, FdFlags::none()).unwrap();
    assert_eq!(f.get_fdflags(&mut fs).unwrap(), FdFlags::none());

    assert_eq!(f.seek(&mut fs, SeekFrom::End(-4)).unwrap(), 6);
    assert_eq!(f.read_vectored(&mut fs, 2).unwrap(), b"67".to_vec());
    assert_eq!(f.seek(&mut fs, SeekFrom::Current(1)).unwrap(), 9);
    assert_eq!(f.read_vectored(&mut fs, 2).unwrap(), b"9".to_vec());
    // A cursor may sit past the end; nothing is ready there.
    assert_eq!(f.seek(&mut fs, SeekFrom::End(5)).unwrap(), 15);
    assert_eq!(f.num_ready_bytes(&mut fs).unwrap(), 0);
    assert_eq!(f.read_vectored(&mut fs, 3).unwrap(), Vec::<u8>::new());
}
