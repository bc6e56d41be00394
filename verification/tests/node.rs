use appimagezip::archive::{ArchiveEntry, DosDateTime};
use appimagezip::clock::{time_of_entry, to_timespec};
use appimagezip::node::{
    FileMetadata, NodeData, NodeKind, Timespec, DEFAULT_MODE, ENTRY_LINKS, PERMISSION_MASK,
    ROOT_INODE, ROOT_LINKS,
};
use appimagezip::reply::{ttl, FsError, TTL_SECONDS};

fn owner() -> FileMetadata {
    FileMetadata {
        atime: Timespec { sec: 1, nsec: 10 },
        mtime: Timespec { sec: 2, nsec: 20 },
        ctime: Timespec { sec: 3, nsec: 30 },
        mode: 0o100644,
        uid: 7,
        gid: 8,
    }
}

fn entry(name: &[u8], size: u64, unix_mode: Option<u32>) -> ArchiveEntry {
    ArchiveEntry { name: name.to_vec(), size, modified: None, unix_mode }
}

fn moment(year: u16, month: u8, day: u8, hour: u8, minute: u8, second: u8) -> DosDateTime {
    DosDateTime { year, month, day, hour, minute, second }
}

#[test]
fn constants_have_their_values() {
    assert_eq!(ROOT_INODE, 1);
    assert_eq!(PERMISSION_MASK, 0o777);
    assert_eq!(DEFAULT_MODE, 0o777);
    assert_eq!(ROOT_LINKS, 2);
    assert_eq!(ENTRY_LINKS, 3);
}

#[test]
fn calendar_time_becomes_seconds_since_the_epoch() {
    assert_eq!(to_timespec(moment(1980, 1, 1, 0, 0, 0)), Timespec { sec: 315532800, nsec: 0 });
    assert_eq!(to_timespec(moment(2000, 2, 29, 12, 0, 0)), Timespec { sec: 951825600, nsec: 0 });
    assert_eq!(to_timespec(moment(2020, 1, 2, 3, 4, 6)), Timespec { sec: 1577934246, nsec: 0 });
}

#[test]
fn member_without_a_time_takes_the_fallback() {
    let fallback = Timespec { sec: 99, nsec: 5 };
    assert_eq!(time_of_entry(None, fallback), fallback);
    assert_eq!(
        time_of_entry(Some(moment(1980, 1, 1, 0, 0, 2)), fallback),
        Timespec { sec: 315532802, nsec: 0 }
    );
}

#[test]
fn file_member_keeps_size_and_permission_bits() {
    let time = Timespec { sec: 50, nsec: 0 };
    let node = NodeData::from_entry(9, &entry(b"bin/tool", 9, Some(0o100644)), &owner(), time);
    assert_eq!(node.path, b"bin/tool".to_vec());
    assert!(!node.is_dir);
    assert_eq!(node.attr.kind, NodeKind::RegularFile);
    assert_eq!(node.attr.ino, 9);
    assert_eq!(node.inode(), 9);
    assert_eq!(node.attr.size, 9);
    assert_eq!(node.attr.blocks, 0);
    assert_eq!(node.attr.perm, 0o644);
    assert_eq!(node.attr.nlink, 3);
    assert_eq!(node.attr.uid, 7);
    assert_eq!(node.attr.gid, 8);
    assert_eq!(node.attr.atime, time);
    assert_eq!(node.attr.mtime, time);
    assert_eq!(node.attr.ctime, time);
    assert_eq!(node.attr.crtime, time);
    assert_eq!(node.name(), b"tool".to_vec());
}

#[test]
fn special_bits_are_cut_from_the_permissions() {
    let time = Timespec { sec: 0, nsec: 0 };
    let node = NodeData::from_entry(2, &entry(b"su", 1, Some(0o104755)), &owner(), time);
    assert_eq!(node.attr.perm, 0o755);
    assert!(!node.is_dir);
}

#[test]
fn directory_bit_alone_makes_a_directory() {
    let time = Timespec { sec: 0, nsec: 0 };
    let node = NodeData::from_entry(2, &entry(b"plain", 4096, Some(0o040755)), &owner(), time);
    assert!(node.is_dir);
    assert_eq!(node.attr.kind, NodeKind::Directory);
    assert_eq!(node.attr.perm, 0o755);
    assert_eq!(node.attr.size, 0);
    assert_eq!(node.path, b"plain".to_vec());
}

#[test]
fn trailing_separator_alone_makes_a_directory() {
    let time = Timespec { sec: 0, nsec: 0 };
    let node = NodeData::from_entry(2, &entry(b"lib/", 0, Some(0o100644)), &owner(), time);
    assert!(node.is_dir);
    assert_eq!(node.attr.kind, NodeKind::Directory);
    assert_eq!(node.path, b"lib".to_vec());
    assert_eq!(node.name(), b"lib".to_vec());
}

#[test]
fn member_without_a_mode_gets_the_default() {
    let time = Timespec { sec: 0, nsec: 0 };
    let file = NodeData::from_entry(2, &entry(b"f", 3, None), &owner(), time);
    assert!(!file.is_dir);
    assert_eq!(file.attr.perm, 0o777);
    let dir = NodeData::from_entry(3, &entry(b"d/", 0, None), &owner(), time);
    assert!(dir.is_dir);
    assert_eq!(dir.attr.perm, 0o777);
}

#[test]
fn root_takes_its_attributes_from_the_archive_file() {
    let root = NodeData::root(&owner());
    assert_eq!(root.attr.ino, 1);
    assert!(root.is_dir);
    assert_eq!(root.path, Vec::<u8>::new());
    assert_eq!(root.attr.perm, 0o644);
    assert_eq!(root.attr.kind, NodeKind::Directory);
    assert_eq!(root.attr.nlink, 2);
    assert_eq!(root.attr.atime, Timespec { sec: 1, nsec: 10 });
    assert_eq!(root.attr.mtime, Timespec { sec: 2, nsec: 20 });
    assert_eq!(root.attr.ctime, Timespec { sec: 3, nsec: 30 });
    assert_eq!(root.attr.crtime, Timespec { sec: 3, nsec: 30 });
}

#[test]
fn root_permissions_are_the_permission_bits_of_the_mode() {
    let mut metadata = owner();
    metadata.mode = 0o100755;
    assert_eq!(NodeData::root(&metadata).attr.perm, 0o755);
    metadata.mode = 0o104700;
    assert_eq!(NodeData::root(&metadata).attr.perm, 0o700);
    metadata.mode = 0x0003_81ed;
    assert_eq!(NodeData::root(&metadata).attr.perm, 0o755);
    metadata.mode = 0;
    assert_eq!(NodeData::root(&metadata).attr.perm, 0);
}

#[test]
fn duplicate_is_equal() {
    let time = Timespec { sec: 5, nsec: 0 };
    let node = NodeData::from_entry(4, &entry(b"a/b", 1, Some(0o600)), &owner(), time);
    assert_eq!(node.duplicate(), node);
}

#[test]
fn failures_have_their_error_numbers() {
    assert_eq!(FsError::NoEntry.errno(), 2);
    assert_eq!(FsError::Io(5).errno(), 5);
    assert_eq!(FsError::Io(28).errno(), 28);
    assert_eq!(FsError::from_decode(None), FsError::Io(5));
    assert_eq!(FsError::from_decode(Some(13)), FsError::Io(5));
    assert_eq!(FsError::from_decode(Some(13)).errno(), 5);
}

#[test]
fn answers_may_be_kept_for_a_year() {
    assert_eq!(TTL_SECONDS, 365 * 24 * 60 * 60);
    assert_eq!(ttl(), Timespec { sec: 31_536_000, nsec: 0 });
}
