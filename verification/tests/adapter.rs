use littlefs::error::{lfs_to_fserror, lfs_to_usize_fserror, FsError};
use littlefs::flags::{FileOpenFlags, Whence};
use littlefs::geometry::Geometry;
use littlefs::info::{entry_type_of_tag, EntryType, Info, LFS_TYPE_DIR, LFS_TYPE_REG};
use littlefs::path::{encode_path, strlen};
use littlefs::NAME_MAX_LEN;

#[test]
fn test_lfs_info_into_info() {
    let name = [0u8; 256];
    let info = Info::from_raw(LFS_TYPE_REG, 4, &name);
    assert_eq!(info.entry_type, EntryType::RegularFile);
    assert_eq!(info.size, 4);
}

#[test]
fn test_entry_type_of_tag() {
    assert_eq!(entry_type_of_tag(0x11), Some(EntryType::RegularFile));
    assert_eq!(entry_type_of_tag(0x22), Some(EntryType::Directory));
    assert_eq!(entry_type_of_tag(0), None);
    assert_eq!(entry_type_of_tag(0x2e), None);
}

#[test]
fn test_error_translation_errors() {
    assert_eq!(lfs_to_fserror(-5), Err(FsError::Io));
    assert_eq!(lfs_to_fserror(-52), Err(FsError::Corrupt));
    assert_eq!(lfs_to_fserror(-2), Err(FsError::Noent));
    assert_eq!(lfs_to_fserror(-17), Err(FsError::Exist));
    assert_eq!(lfs_to_fserror(-20), Err(FsError::NotDir));
    assert_eq!(lfs_to_fserror(-21), Err(FsError::IsDir));
    assert_eq!(lfs_to_fserror(-39), Err(FsError::NotEmpty));
    assert_eq!(lfs_to_fserror(-9), Err(FsError::Badf));
    assert_eq!(lfs_to_fserror(-27), Err(FsError::FBig));
    assert_eq!(lfs_to_fserror(-22), Err(FsError::Inval));
    assert_eq!(lfs_to_fserror(-28), Err(FsError::Nospc));
    assert_eq!(lfs_to_fserror(-12), Err(FsError::Nomem));
}

#[test]
fn test_error_translation_success() {
    assert_eq!(lfs_to_fserror(0), Ok(()));
    assert_eq!(lfs_to_fserror(1), Ok(()));
    assert_eq!(lfs_to_fserror(4096), Ok(()));
}

#[test]
fn test_error_translation_preserves_counts() {
    assert_eq!(lfs_to_usize_fserror(0), Ok(0));
    assert_eq!(lfs_to_usize_fserror(12), Ok(12));
    assert_eq!(lfs_to_usize_fserror(4096), Ok(4096));
    assert_eq!(lfs_to_usize_fserror(-28), Err(FsError::Nospc));
    assert_eq!(lfs_to_usize_fserror(-5), Err(FsError::Io));
}

#[test]
fn test_encode_path_short() {
    let buf = encode_path("/foo", NAME_MAX_LEN + 1);
    assert_eq!(buf.len(), 256);
    assert_eq!(&buf[..4], b"/foo");
    assert!(buf[4..].iter().all(|&b| b == 0));
}

#[test]
fn test_encode_path_empty() {
    let buf = encode_path("", NAME_MAX_LEN + 1);
    assert_eq!(buf.len(), 256);
    assert!(buf.iter().all(|&b| b == 0));
}

#[test]
fn test_encode_path_truncation_boundary() {
    // A path of exactly NAME_MAX_LEN + 1 bytes: one byte past the limit.
    let long: String = "a".repeat(NAME_MAX_LEN + 1);
    let buf = encode_path(&long, NAME_MAX_LEN + 1);
    assert_eq!(buf.len(), NAME_MAX_LEN + 1);
    assert!(buf[..NAME_MAX_LEN].iter().all(|&b| b == b'a'));
    assert_eq!(buf[NAME_MAX_LEN], 0);

    // The same oversized input encodes the same way every time, and the
    // same as its truncation.
    let again = encode_path(&long, NAME_MAX_LEN + 1);
    assert_eq!(buf, again);
    let truncated: String = "a".repeat(NAME_MAX_LEN);
    assert_eq!(buf, encode_path(&truncated, NAME_MAX_LEN + 1));
}

#[test]
fn test_encode_path_open_capacity() {
    // file_open encodes into a buffer of NAME_MAX_LEN bytes, keeping one
    // byte fewer of the text.
    let long: String = "b".repeat(300);
    let buf = encode_path(&long, NAME_MAX_LEN);
    assert_eq!(buf.len(), NAME_MAX_LEN);
    assert!(buf[..NAME_MAX_LEN - 1].iter().all(|&b| b == b'b'));
    assert_eq!(buf[NAME_MAX_LEN - 1], 0);
}

#[test]
fn test_strlen() {
    assert_eq!(strlen(b"abc\0def"), 3);
    assert_eq!(strlen(b"abc"), 3);
    assert_eq!(strlen(b""), 0);
    assert_eq!(strlen(b"\0abc"), 0);
}

#[test]
fn test_open_flags_bits() {
    assert_eq!(FileOpenFlags::empty().bits(), 0);
    assert_eq!(FileOpenFlags::rdonly().bits(), 0x1);
    assert_eq!(FileOpenFlags::wronly().bits(), 0x2);
    assert_eq!(FileOpenFlags::rdwr().bits(), 0x3);
    assert_eq!(FileOpenFlags::creat().bits(), 0x100);
    assert_eq!(FileOpenFlags::excl().bits(), 0x200);
    assert_eq!(FileOpenFlags::trunc().bits(), 0x400);
    assert_eq!(FileOpenFlags::append().bits(), 0x800);
}

#[test]
fn test_open_flags_union_contains() {
    let rw_create = FileOpenFlags::rdwr().union(FileOpenFlags::creat());
    assert_eq!(rw_create.bits(), 0x103);
    assert!(rw_create.contains(FileOpenFlags::rdonly()));
    assert!(rw_create.contains(FileOpenFlags::creat()));
    assert!(!rw_create.contains(FileOpenFlags::excl()));

    // The exclusive-create combination handed to the engine.
    let excl_create = FileOpenFlags::creat().union(FileOpenFlags::excl());
    assert_eq!(excl_create.bits(), 0x300);
}

#[test]
fn test_whence_codes() {
    assert_eq!(Whence::Start.code(), 0);
    assert_eq!(Whence::Current.code(), 1);
    assert_eq!(Whence::End.code(), 2);
}

#[test]
fn test_info_from_raw_directory() {
    let mut name = [0u8; 256];
    name[..3].copy_from_slice(b"foo");
    let info = Info::from_raw(LFS_TYPE_DIR, 0, &name);
    assert_eq!(info.entry_type, EntryType::Directory);
    assert_eq!(info.size, 0);
    assert_eq!(info.name.len(), NAME_MAX_LEN);
    assert_eq!(&info.name[..3], b"foo");
    assert!(info.name[3..].iter().all(|&b| b == 0));
}

#[test]
fn test_info_from_raw_unterminated_name() {
    // A name that fills the whole raw buffer without a terminator is
    // truncated to the marshalled buffer's capacity.
    let name = [b'x'; 256];
    let info = Info::from_raw(LFS_TYPE_REG, 7, &name);
    assert_eq!(info.name.len(), NAME_MAX_LEN);
    assert!(info.name.iter().all(|&b| b == b'x'));
}

#[test]
fn test_geometry() {
    let g = Geometry::adapter_default();
    assert_eq!(g.read_size, 256);
    assert_eq!(g.prog_size, 256);
    assert_eq!(g.block_size, 4096);
    assert_eq!(g.block_count, 32);
    assert_eq!(g.lookahead, 128);
    assert!(g.check());

    let bad = Geometry { prog_size: 100, ..g };
    assert!(!bad.check());
    let bad_lookahead = Geometry { lookahead: 33, ..g };
    assert!(!bad_lookahead.check());
}
