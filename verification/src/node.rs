//! Node records: what the file system says of one inode.
//!
//! The root is made from the metadata of the archive file itself; every other
//! node is made from one archive member.

use crate::archive::{ArchiveEntry, DosDateTime, EntryInfo};
use crate::path::{
    canonical, copy_of, ends_with_separator, file_name, is_normal, name, normalize,
};
use vstd::prelude::*;

verus! {

/// The inode of the archive root.
pub const ROOT_INODE: u64 = 1;

/// The permission bits that a node's mode is cut down to.
pub const PERMISSION_MASK: u32 = 0o777;

/// The mode of a member for which the archive carries none.
pub const DEFAULT_MODE: u32 = 0o777;

/// The hard-link count given to the root.
pub const ROOT_LINKS: u32 = 2;

/// The hard-link count given to every member.
pub const ENTRY_LINKS: u32 = 3;

/// A point in time: seconds since the Unix epoch, and nanoseconds on top.
#[derive(Clone, Copy, Debug, PartialEq, Eq, Structural)]
pub struct Timespec {
    pub sec: i64,
    pub nsec: i32,
}

/// The kinds of node that the file system serves.
#[derive(Clone, Copy, Debug, PartialEq, Eq, Structural)]
pub enum NodeKind {
    Directory,
    RegularFile,
}

/// The attributes of a node.
#[derive(Clone, Copy, Debug, PartialEq, Eq, Structural)]
pub struct NodeAttr {
    pub ino: u64,
    pub size: u64,
    pub blocks: u64,
    pub atime: Timespec,
    pub mtime: Timespec,
    pub ctime: Timespec,
    pub crtime: Timespec,
    pub kind: NodeKind,
    pub perm: u16,
    pub nlink: u32,
    pub uid: u32,
    pub gid: u32,
    pub rdev: u32,
    pub flags: u32,
}

/// What the file system reads of the archive file's own metadata.
#[derive(Clone, Copy, Debug, PartialEq, Eq, Structural)]
pub struct FileMetadata {
    pub atime: Timespec,
    pub mtime: Timespec,
    pub ctime: Timespec,
    pub mode: u32,
    pub uid: u32,
    pub gid: u32,
}

/// The record of one inode: its path in canonical form (empty for the root),
/// whether it is a directory, and its attributes.
#[derive(Debug, PartialEq, Eq)]
pub struct NodeData {
    pub path: Vec<u8>,
    pub is_dir: bool,
    pub attr: NodeAttr,
}

/// The mathematical value of a [`NodeData`].
pub ghost struct NodeRecord {
    pub path: Seq<u8>,
    pub is_dir: bool,
    pub attr: NodeAttr,
}

impl View for NodeData {
    type V = NodeRecord;

    open spec fn view(&self) -> NodeRecord {
        NodeRecord { path: self.path@, is_dir: self.is_dir, attr: self.attr }
    }
}

/// The directory bit of a Unix mode, as `libc` defines it.
pub open spec fn directory_bit() -> u32 {
    0o40000
}

/// Whether a member is a directory: its mode has the directory bit, or its
/// name ends in a separator. Either sign is enough.
pub open spec fn entry_is_dir(entry: EntryInfo) -> bool {
    let mode = entry_mode(entry);
    mode & directory_bit() == directory_bit() || !is_normal(entry.name)
}

/// The mode of a member: what the archive carries, or the default.
pub open spec fn entry_mode(entry: EntryInfo) -> u32 {
    match entry.unix_mode {
        Some(mode) => mode,
        None => DEFAULT_MODE,
    }
}

/// The kind that goes with the directory flag.
pub open spec fn kind_of(is_dir: bool) -> NodeKind {
    if is_dir {
        NodeKind::Directory
    } else {
        NodeKind::RegularFile
    }
}

/// The record of the root, made from the archive file's metadata.
pub open spec fn root_record(metadata: FileMetadata) -> NodeRecord {
    NodeRecord {
        path: Seq::empty(),
        is_dir: true,
        attr: NodeAttr {
            ino: ROOT_INODE,
            size: 0,
            blocks: 0,
            atime: metadata.atime,
            mtime: metadata.mtime,
            ctime: metadata.ctime,
            crtime: metadata.ctime,
            kind: NodeKind::Directory,
            perm: (metadata.mode & PERMISSION_MASK) as u16,
            nlink: ROOT_LINKS,
            uid: metadata.uid,
            gid: metadata.gid,
            rdev: 0,
            flags: 0,
        },
    }
}

/// The record of the member `entry` under `inode`, last modified at `time`
/// and owned by whoever owns the archive file.
pub open spec fn entry_record(
    inode: u64,
    entry: EntryInfo,
    owner: FileMetadata,
    time: Timespec,
) -> NodeRecord {
    let is_dir = entry_is_dir(entry);
    NodeRecord {
        path: canonical(entry.name),
        is_dir,
        attr: NodeAttr {
            ino: inode,
            size: if is_dir {
                0
            } else {
                entry.size
            },
            blocks: 0,
            atime: time,
            mtime: time,
            ctime: time,
            crtime: time,
            kind: kind_of(is_dir),
            perm: (entry_mode(entry) & PERMISSION_MASK) as u16,
            nlink: ENTRY_LINKS,
            uid: owner.uid,
            gid: owner.gid,
            rdev: 0,
            flags: 0,
        },
    }
}

/// `libc::S_IFDIR`: the directory bit of a Unix mode.
#[verifier::external_body]
fn s_ifdir() -> (bits: u32)
    ensures
        bits == directory_bit(),
{
    libc::S_IFDIR
}

impl NodeData {
    /// The node's inode.
    pub fn inode(&self) -> (ino: u64)
        ensures
            ino == self.attr.ino,
    {
        self.attr.ino
    }

    /// The node's name: the last component of its path, empty for the root.
    pub fn name(&self) -> (last: Vec<u8>)
        ensures
            last@ == file_name(self.path@),
    {
        name(self.path.as_slice())
    }

    /// The record of the root, made from the archive file's metadata.
    pub fn root(metadata: &FileMetadata) -> (node: NodeData)
        ensures
            node@ == root_record(*metadata),
    {
        let mode = metadata.mode;
        assert(mode & PERMISSION_MASK <= 0o777) by (bit_vector)
            requires
                PERMISSION_MASK == 0o777,
        ;
        NodeData {
            path: Vec::new(),
            is_dir: true,
            attr: NodeAttr {
                ino: ROOT_INODE,
                size: 0,
                blocks: 0,
                atime: metadata.atime,
                mtime: metadata.mtime,
                ctime: metadata.ctime,
                crtime: metadata.ctime,
                kind: NodeKind::Directory,
                perm: (mode & PERMISSION_MASK) as u16,
                nlink: ROOT_LINKS,
                uid: metadata.uid,
                gid: metadata.gid,
                rdev: 0,
                flags: 0,
            },
        }
    }

    /// The record of the member `entry` under `inode`, last modified at `time`
    /// and owned by whoever owns the archive file.
    pub fn from_entry(inode: u64, entry: &ArchiveEntry, owner: &FileMetadata, time: Timespec) -> (node:
        NodeData)
        ensures
            node@ == entry_record(inode, entry@, *owner, time),
    {
        let mode = match entry.unix_mode {
            Some(mode) => mode,
            None => DEFAULT_MODE,
        };
        let bit = s_ifdir();
        let is_dir = mode & bit == bit || ends_with_separator(entry.name.as_slice());
        assert(mode & PERMISSION_MASK <= 0o777) by (bit_vector)
            requires
                PERMISSION_MASK == 0o777,
        ;
        NodeData {
            path: normalize(entry.name.as_slice()),
            is_dir,
            attr: NodeAttr {
                ino: inode,
                size: if is_dir {
                    0
                } else {
                    entry.size
                },
                blocks: 0,
                atime: time,
                mtime: time,
                ctime: time,
                crtime: time,
                kind: if is_dir {
                    NodeKind::Directory
                } else {
                    NodeKind::RegularFile
                },
                perm: (mode & PERMISSION_MASK) as u16,
                nlink: ENTRY_LINKS,
                uid: owner.uid,
                gid: owner.gid,
                rdev: 0,
                flags: 0,
            },
        }
    }

    /// A copy of the record.
    pub fn duplicate(&self) -> (copy: NodeData)
        ensures
            copy@ == self@,
    {
        let path = copy_of(self.path.as_slice());
        NodeData { path, is_dir: self.is_dir, attr: self.attr }
    }
}

} // verus!
