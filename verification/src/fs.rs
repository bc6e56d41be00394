//! The file system: a namespace served out of a zip archive, with caches.

use crate::archive::{
    archive_entries, decode_archive, decoded_archive, decoded_prefix, entry_at, entry_count,
    read_prefix, Archive,
};
use crate::clock::time_of_entry;
use crate::event::NotifyFlag;
use crate::namespace::{dot, dot_dot, Listed, Namespace, DOT};
use crate::node::{FileMetadata, NodeData, NodeKind, ROOT_INODE};
use crate::path::{
    canonical, file_name, join, joined, lemma_canonical, lemma_canonical_parts, normalize, parent,
    same_path, SEPARATOR,
};
use crate::reply::{decode_failure, ttl, AttrReply, DirEntry, EntryReply, FsError};
use std::collections::HashMap;
use vstd::prelude::*;

verus! {

broadcast use vstd::std_specs::hash::group_hash_axioms;

/// A read-only file system over the members of a zip archive.
pub struct AppImageFileSystem {
    /// Metadata of the archive file.
    metadata: FileMetadata,
    /// Raised once the file system is being served.
    ready: NotifyFlag,
    /// The decoded archive.
    archive: Archive,
    /// Records already made, by inode.
    inode_cache: HashMap<u64, NodeData>,
    /// Records already found by path: each is the first member with its
    /// path. They are kept in a list and looked up from its front, since a
    /// hash map keyed by byte strings has no specification to verify against.
    path_cache: Vec<NodeData>,
    /// Whether the file system has been started, and the latch raised for it.
    started: bool,
}

impl View for AppImageFileSystem {
    type V = Namespace;

    /// The namespace that is served: the members of the archive, under the
    /// metadata of the archive file.
    open spec fn view(&self) -> Namespace {
        Namespace { entries: archive_entries(self.archive()), owner: self.owner() }
    }
}

impl AppImageFileSystem {
    /// The archive that is served.
    pub closed spec fn archive(&self) -> Archive {
        self.archive
    }

    /// The metadata of the archive file.
    pub closed spec fn owner(&self) -> FileMetadata {
        self.metadata
    }

    /// The latch that is raised once the file system is served.
    pub closed spec fn latch(&self) -> NotifyFlag {
        self.ready
    }

    /// Whether the file system has been started: `init` has been called on
    /// it, and has raised the latch.
    pub closed spec fn started(&self) -> bool {
        self.started
    }

    /// The inodes whose records are kept.
    pub closed spec fn cached_inodes(&self) -> Set<u64> {
        self.inode_cache@.dom()
    }

    /// The paths for which what they resolve to is kept.
    pub closed spec fn cached_paths(&self) -> Set<Seq<u8>> {
        Set::new(
            |path: Seq<u8>|
                exists|i: int|
                    0 <= i < self.path_cache@.len() && (#[trigger] self.path_cache@[i])@.path
                        == path,
        )
    }

    /// The file system is what `before` was, with the same archive, started
    /// or not as it was, and nothing has left its caches: what was kept once
    /// is kept for good.
    pub open spec fn extends(&self, before: Self) -> bool {
        &&& self.archive() == before.archive()
        &&& self.owner() == before.owner()
        &&& self.latch() == before.latch()
        &&& self.started() == before.started()
        &&& before.cached_inodes().subset_of(self.cached_inodes())
        &&& before.cached_paths().subset_of(self.cached_paths())
    }

    /// The file system is what `before` was, caches and all, and it is
    /// started now.
    pub open spec fn started_from(&self, before: Self) -> bool {
        &&& self.archive() == before.archive()
        &&& self.owner() == before.owner()
        &&& self.latch() == before.latch()
        &&& self.started()
        &&& self.cached_inodes() == before.cached_inodes()
        &&& self.cached_paths() == before.cached_paths()
    }

    /// The caches hold nothing but what the namespace says, no path is kept
    /// twice, and the node count fits the machine's integers.
    pub closed spec fn wf(&self) -> bool {
        &&& self@.entries.len() < usize::MAX
        &&& forall|k: u64| #[trigger]
            self.inode_cache@.contains_key(k) ==> self@.valid(k) && self.inode_cache@[k]@
                == self@.record(k)
        &&& forall|i: int|
            0 <= i < self.path_cache@.len() ==> {
                let found = (#[trigger] self.path_cache@[i])@;
                &&& self@.first_with_path(found.attr.ino, found.path)
                &&& found == self@.record(found.attr.ino)
            }
        &&& forall|i: int, j: int|
            0 <= i < j < self.path_cache@.len() ==> (#[trigger] self.path_cache@[i])@.path != (
            #[trigger] self.path_cache@[j])@.path
    }

    /// The namespace of a well-formed file system is well formed.
    pub proof fn lemma_view_wf(&self)
        requires
            self.wf(),
        ensures
            self@.wf(),
    {
    }

    /// A file system over `archive`, for an archive file with `metadata`.
    /// `None` where the archive has more members than inodes can number.
    pub fn with_archive(archive: Archive, metadata: FileMetadata) -> (fs: Option<Self>)
        ensures
            fs is Some <==> archive_entries(archive).len() < usize::MAX,
            fs matches Some(fs) ==> {
                &&& fs.wf()
                &&& fs.archive() == archive
                &&& fs.owner() == metadata
                &&& !fs.started()
                &&& !fs.latch().made_raised()
                &&& fs.cached_inodes() == Set::<u64>::empty()
                &&& fs.cached_paths() == Set::<Seq<u8>>::empty()
            },
    {
        if entry_count(&archive) == usize::MAX {
            return None;
        }
        let fs = Self {
            metadata,
            ready: NotifyFlag::new(),
            archive,
            inode_cache: HashMap::new(),
            path_cache: Vec::new(),
            started: false,
        };
        assert(fs.cached_inodes() =~= Set::<u64>::empty());
        assert(fs.cached_paths() =~= Set::<Seq<u8>>::empty());
        Some(fs)
    }

    /// Opens the archive that `bytes` hold, whatever stands before it, for an
    /// archive file with `metadata`. `None` where the bytes hold no archive.
    pub fn open(bytes: Vec<u8>, metadata: FileMetadata) -> (fs: Option<Self>)
        ensures
            fs is Some <==> (decoded_archive(bytes@) matches Some(archive) && archive_entries(
                archive,
            ).len() < usize::MAX),
            fs matches Some(fs) ==> {
                &&& fs.wf()
                &&& Some(fs.archive()) == decoded_archive(bytes@)
                &&& fs.owner() == metadata
                &&& !fs.started()
                &&& !fs.latch().made_raised()
                &&& fs.cached_inodes() == Set::<u64>::empty()
                &&& fs.cached_paths() == Set::<Seq<u8>>::empty()
            },
    {
        match decode_archive(bytes) {
            Some(archive) => Self::with_archive(archive, metadata),
            None => None,
        }
    }

    /// A handle on the latch that is raised once the file system is served.
    pub fn ready(&self) -> (flag: NotifyFlag)
        ensures
            flag == self.latch(),
    {
        self.ready.clone()
    }

    /// The number of nodes: one for each member, and the root.
    pub fn get_inode_count(&self) -> (count: u64)
        requires
            self.wf(),
        ensures
            count == self@.node_count(),
    {
        entry_count(&self.archive) as u64 + 1
    }

    /// The record of `inode`, or nothing where `inode` names no node. The
    /// record is made on the first call and kept.
    pub fn get_node_by_inode(&mut self, inode: u64) -> (node: Option<NodeData>)
        requires
            old(self).wf(),
        ensures
            final(self).wf(),
            final(self).extends(*old(self)),
            node is Some <==> old(self)@.valid(inode),
            node matches Some(n) ==> n@ == old(self)@.record(inode) && n@.attr.ino == inode,
            final(self).cached_paths() == old(self).cached_paths(),
            final(self).cached_inodes() == if old(self)@.valid(inode) {
                old(self).cached_inodes().insert(inode)
            } else {
                old(self).cached_inodes()
            },
    {
        if inode < ROOT_INODE || inode > self.get_inode_count() {
            return None;
        }
        match self.inode_cache.get(&inode) {
            Some(cached) => {
                assert(self.cached_inodes() =~= self.cached_inodes().insert(inode));
                return Some(cached.duplicate());
            },
            None => {},
        }
        let node = if inode == ROOT_INODE {
            NodeData::root(&self.metadata)
        } else {
            let entry = entry_at(&self.archive, (inode - 2) as usize);
            let time = time_of_entry(entry.modified, self.metadata.mtime);
            NodeData::from_entry(inode, &entry, &self.metadata, time)
        };
        self.inode_cache.insert(inode, node.duplicate());
        assert(self.cached_inodes() =~= old(self).cached_inodes().insert(inode));
        assert(self.cached_paths() =~= old(self).cached_paths());
        Some(node)
    }

    /// The record cached for the canonical path `path`, if there is one.
    fn cached_by_path(&self, path: &[u8]) -> (node: Option<NodeData>)
        requires
            self.wf(),
        ensures
            node matches Some(n) ==> self@.by_path(path@) == Some(n@),
            node is Some <==> self.cached_paths().contains(path@),
    {
        let mut i: usize = 0;
        while i < self.path_cache.len()
            invariant
                self.wf(),
                i <= self.path_cache.len(),
                forall|j: int| 0 <= j < i ==> (#[trigger] self.path_cache@[j])@.path != path@,
            decreases self.path_cache.len() - i,
        {
            if same_path(self.path_cache[i].path.as_slice(), path) {
                proof {
                    let found = self.path_cache@[i as int]@;
                    self@.lemma_first_is_resolved(found.attr.ino, found.path);
                }
                return Some(self.path_cache[i].duplicate());
            }
            i += 1;
        }
        None
    }

    /// What `path` resolves to: the first member whose path is `path` in
    /// canonical form, or nothing. The root is no member and is never found.
    /// What is found is kept for the next call.
    pub fn get_node_by_path(&mut self, path: &[u8]) -> (node: Option<NodeData>)
        requires
            old(self).wf(),
        ensures
            final(self).wf(),
            final(self).extends(*old(self)),
            node is Some <==> old(self)@.by_path(canonical(path@)) is Some,
            node matches Some(n) ==> old(self)@.by_path(canonical(path@)) == Some(n@),
            final(self).cached_paths() == if node is Some {
                old(self).cached_paths().insert(canonical(path@))
            } else {
                old(self).cached_paths()
            },
    {
        let wanted = normalize(path);
        match self.cached_by_path(wanted.as_slice()) {
            Some(cached) => {
                assert(self.cached_paths() =~= self.cached_paths().insert(wanted@));
                return Some(cached);
            },
            None => {},
        }
        let members = entry_count(&self.archive);
        let mut index: usize = 0;
        while index < members
            invariant
                self.wf(),
                self.extends(*old(self)),
                members == self@.entries.len(),
                index <= members,
                wanted@ == canonical(path@),
                self.cached_paths() == old(self).cached_paths(),
                !self.cached_paths().contains(wanted@),
                forall|inode: u64| 2 <= inode < index + 2 ==> !self@.has_path(inode, wanted@),
            decreases members - index,
        {
            let inode = index as u64 + 2;
            match self.get_node_by_inode(inode) {
                Some(node) => {
                    if same_path(node.path.as_slice(), wanted.as_slice()) {
                        proof {
                            self@.lemma_first_is_resolved(inode, wanted@);
                        }
                        let ghost before = self.cached_paths();
                        let ghost kept = self.path_cache@;
                        assert forall|i: int| 0 <= i < kept.len() implies (#[trigger] kept[i])@.path
                            != wanted@ by {
                            if kept[i]@.path == wanted@ {
                                assert(before.contains(wanted@));
                            }
                        }
                        self.path_cache.push(node.duplicate());
                        assert(self.path_cache@[kept.len() as int]@.path == wanted@);
                        assert forall|p: Seq<u8>| before.contains(p) implies self.cached_paths().contains(
                            p,
                        ) by {
                            let i = choose|i: int| 0 <= i < kept.len() && (#[trigger] kept[i])@.path == p;
                            assert(self.path_cache@[i]@.path == p);
                        }
                        assert forall|p: Seq<u8>| self.cached_paths().contains(p) implies before.insert(
                            wanted@,
                        ).contains(p) by {
                            let i = choose|i: int|
                                0 <= i < self.path_cache@.len() && (#[trigger] self.path_cache@[i])@.path
                                    == p;
                            if i < kept.len() {
                                assert(kept[i]@.path == p);
                            }
                        }
                        assert(self.cached_paths() =~= before.insert(wanted@));
                        return Some(node);
                    }
                },
                None => {},
            }
            index += 1;
        }
        proof {
            self@.lemma_absent_is_unresolved(wanted@);
        }
        None
    }

    /// The directory that holds `path`: the root for a path of one
    /// component, else what the parent path resolves to. The empty path has
    /// no parent.
    pub fn parent_of(&mut self, path: &[u8]) -> (node: Option<NodeData>)
        requires
            old(self).wf(),
        ensures
            final(self).wf(),
            final(self).extends(*old(self)),
            node is Some <==> old(self)@.parent(canonical(path@)) is Some,
            node matches Some(n) ==> old(self)@.parent(canonical(path@)) == Some(n@),
    {
        let wanted = normalize(path);
        if wanted.len() == 0 {
            return None;
        }
        let above = parent(wanted.as_slice());
        if above.len() == 0 {
            self.get_node_by_inode(ROOT_INODE)
        } else {
            proof {
                lemma_canonical(path@);
                lemma_canonical_parts(wanted@);
                lemma_canonical(above@);
            }
            self.get_node_by_path(above.as_slice())
        }
    }

    /// The records of the nodes that lie directly inside the directory
    /// `path`, in rising order of inode.
    pub fn children_of(&mut self, path: &[u8]) -> (nodes: Vec<NodeData>)
        requires
            old(self).wf(),
        ensures
            final(self).wf(),
            final(self).extends(*old(self)),
            nodes@.len() == old(self)@.children(canonical(path@)).len(),
            forall|k: int|
                0 <= k < nodes@.len() ==> (#[trigger] nodes@[k])@ == old(self)@.record(
                    old(self)@.children(canonical(path@))[k],
                ),
    {
        let dir = normalize(path);
        let mut nodes: Vec<NodeData> = Vec::new();
        let members = entry_count(&self.archive);
        let mut index: usize = 0;
        while index < members
            invariant
                self.wf(),
                self.extends(*old(self)),
                members == self@.entries.len(),
                index <= members,
                dir@ == canonical(path@),
                nodes@.len() == self@.children_below(dir@, index + 2).len(),
                forall|k: int|
                    0 <= k < nodes@.len() ==> (#[trigger] nodes@[k])@ == self@.record(
                        self@.children_below(dir@, index + 2)[k],
                    ),
            decreases members - index,
        {
            let inode = index as u64 + 2;
            match self.get_node_by_inode(inode) {
                Some(node) => {
                    if node.path.len() > 0 {
                        let above = parent(node.path.as_slice());
                        if same_path(above.as_slice(), dir.as_slice()) {
                            nodes.push(node);
                        }
                    }
                },
                None => {},
            }
            index += 1;
        }
        nodes
    }
}

/// The answer to a lookup of `name` in the directory `parent`: the
/// attributes of what the joined path resolves to, or "no such entry" where
/// either the inode or the path resolves to nothing.
pub open spec fn lookup_reply(ns: Namespace, parent: u64, name: Seq<u8>) -> Result<
    EntryReply,
    FsError,
> {
    match ns.by_inode(parent) {
        Some(dir) => match ns.by_path(joined(dir.path, name)) {
            Some(child) => Ok(EntryReply { ttl: ttl(), attr: child.attr, generation: 0 }),
            None => Err(FsError::NoEntry),
        },
        None => Err(FsError::NoEntry),
    }
}

/// A lookup finds what a listing shows. Where the member `child` lies in the
/// directory `dir`, and no earlier member has its path, looking its file
/// name up in `dir` gives the attributes of `child`.
pub proof fn law_listed_child_is_found(ns: Namespace, dir: u64, child: u64)
    requires
        ns.valid(dir),
        ns.is_child(child, ns.record(dir).path),
        forall|earlier: u64| 2 <= earlier < child ==> ns.record(earlier).path != ns.record(child).path,
    ensures
        lookup_reply(ns, dir, file_name(ns.record(child).path)) == Ok::<EntryReply, FsError>(
            EntryReply { ttl: ttl(), attr: ns.record(child).attr, generation: 0 },
        ),
{
    ns.lemma_record_path_is_canonical(child);
    lemma_canonical_parts(ns.record(child).path);
    ns.law_path_and_inode_agree(child, ns.record(child).path);
}

/// The answer to a request for the attributes of `inode`.
pub open spec fn getattr_reply(ns: Namespace, inode: u64) -> Result<AttrReply, FsError> {
    match ns.by_inode(inode) {
        Some(node) => Ok(AttrReply { ttl: ttl(), attr: node.attr }),
        None => Err(FsError::NoEntry),
    }
}

/// The answer to a request to list `inode` from `offset` on: the full
/// listing at offset 0, nothing more at any later offset, and "no such
/// entry" where the inode resolves to nothing.
pub open spec fn readdir_reply(ns: Namespace, inode: u64, offset: u64) -> Result<
    Seq<Listed>,
    FsError,
> {
    if !ns.valid(inode) {
        Err(FsError::NoEntry)
    } else if offset > 0 {
        Ok(Seq::empty())
    } else {
        Ok(ns.listing(inode))
    }
}

/// Where a read of `size` bytes from `offset` ends in a file of `file_size`
/// bytes: at `offset + size`, or at the end of the file if that comes first.
pub open spec fn read_end(offset: u64, size: u32, file_size: u64) -> u64 {
    if offset + size <= file_size {
        (offset + size) as u64
    } else {
        file_size
    }
}

/// The number of bytes that a file of `file_size` bytes holds from `offset`
/// on.
pub open spec fn remaining_after(offset: u64, file_size: u64) -> int {
    if offset <= file_size {
        file_size - offset
    } else {
        0
    }
}

/// The answer to a read that ends at `end`, given what decoding the first
/// `end` bytes of the file gave: the bytes from `offset` on, or the failure.
pub open spec fn read_reply(offset: u64, data: Result<Seq<u8>, Option<i32>>) -> Result<
    Seq<u8>,
    FsError,
> {
    match data {
        Ok(bytes) => if offset <= bytes.len() {
            Ok(bytes.subrange(offset as int, bytes.len() as int))
        } else {
            Ok(Seq::empty())
        },
        Err(code) => Err(decode_failure(code)),
    }
}

/// The view of an answer that holds bytes.
pub open spec fn bytes_view(reply: Result<Vec<u8>, FsError>) -> Result<Seq<u8>, FsError> {
    match reply {
        Ok(bytes) => Ok(bytes@),
        Err(e) => Err(e),
    }
}

/// The view of an answer that holds a listing.
pub open spec fn listing_view(reply: Result<Vec<DirEntry>, FsError>) -> Result<
    Seq<Listed>,
    FsError,
> {
    match reply {
        Ok(lines) => Ok(lines@.map_values(|line: DirEntry| line@)),
        Err(e) => Err(e),
    }
}

/// The answer to a read that ends at `end`, given what decoding the first
/// `end` bytes of the file gave.
pub fn reply_to_read(offset: u64, data: Result<Vec<u8>, Option<i32>>) -> (reply: Result<
    Vec<u8>,
    FsError,
>)
    ensures
        bytes_view(reply) == read_reply(
            offset,
            match data {
                Ok(bytes) => Ok(bytes@),
                Err(code) => Err(code),
            },
        ),
{
    match data {
        Ok(bytes) => {
            let mut tail: Vec<u8> = Vec::new();
            if offset <= bytes.len() as u64 {
                let start = offset as usize;
                let mut i: usize = start;
                while i < bytes.len()
                    invariant
                        start <= i <= bytes.len(),
                        tail@ == bytes@.subrange(start as int, i as int),
                    decreases bytes.len() - i,
                {
                    tail.push(bytes[i]);
                    i += 1;
                    assert(tail@ =~= bytes@.subrange(start as int, i as int));
                }
            }
            Ok(tail)
        },
        Err(code) => Err(FsError::from_decode(code)),
    }
}

impl AppImageFileSystem {
    /// What decoding the first `len` bytes of the member behind `inode` gives.
    pub closed spec fn decoded(&self, inode: u64, len: u64) -> Result<Seq<u8>, Option<i32>> {
        decoded_prefix(self.archive(), inode - 2, len as int)
    }

    /// The answer to a read of `size` bytes of `inode` from `offset` on.
    /// Nothing resolves: "no such entry"; so for a directory. A read that
    /// starts at or after its end gives no bytes and decodes nothing. One
    /// that would need a buffer larger than the machine can address fails as
    /// a decode without an error number does.
    pub open spec fn read_result(&self, inode: u64, offset: u64, size: u32) -> Result<
        Seq<u8>,
        FsError,
    > {
        match self@.by_inode(inode) {
            None => Err(FsError::NoEntry),
            Some(node) => {
                let end = read_end(offset, size, node.attr.size);
                if node.is_dir {
                    Err(FsError::NoEntry)
                } else if offset >= end {
                    Ok(Seq::empty())
                } else if end > isize::MAX {
                    Err(decode_failure(None))
                } else {
                    read_reply(offset, self.decoded(inode, end))
                }
            },
        }
    }

    /// A read that starts at or after the end of a file gives no bytes, and
    /// is no error, whatever state the member's data is in.
    pub proof fn law_read_at_end_is_empty(&self, inode: u64, offset: u64, size: u32)
        requires
            self@.valid(inode),
            !self@.record(inode).is_dir,
            offset >= self@.record(inode).attr.size,
        ensures
            self.read_result(inode, offset, size) == Ok::<Seq<u8>, FsError>(Seq::empty()),
    {
    }

    /// Whether the file system has been started.
    pub fn is_started(&self) -> (yes: bool)
        ensures
            yes == self.started(),
    {
        self.started
    }

    /// Called when the file system starts to be served. The first call
    /// raises the readiness latch and marks the file system as started; a
    /// later call finds it started and raises nothing again. It always
    /// succeeds, and leaves the archive and the caches as they are.
    pub fn init(&mut self) -> (outcome: Result<(), i32>)
        requires
            old(self).wf(),
        ensures
            final(self).wf(),
            final(self).started_from(*old(self)),
            outcome is Ok,
    {
        if !self.started {
            self.ready.notify_all();
            self.started = true;
        }
        Ok(())
    }

    /// Looks `child_name` up in the directory `parent_inode`.
    pub fn lookup(&mut self, parent_inode: u64, child_name: &[u8]) -> (reply: Result<
        EntryReply,
        FsError,
    >)
        requires
            old(self).wf(),
        ensures
            final(self).wf(),
            final(self).extends(*old(self)),
            reply == lookup_reply(old(self)@, parent_inode, child_name@),
    {
        match self.get_node_by_inode(parent_inode) {
            Some(dir) => {
                let child_path = join(dir.path.as_slice(), child_name);
                proof {
                    lemma_canonical(dir.path@ + seq![SEPARATOR] + child_name@);
                }
                match self.get_node_by_path(child_path.as_slice()) {
                    Some(child) => Ok(EntryReply { ttl: ttl(), attr: child.attr, generation: 0 }),
                    None => Err(FsError::NoEntry),
                }
            },
            None => Err(FsError::NoEntry),
        }
    }

    /// The attributes of `inode`.
    pub fn getattr(&mut self, inode: u64) -> (reply: Result<AttrReply, FsError>)
        requires
            old(self).wf(),
        ensures
            final(self).wf(),
            final(self).extends(*old(self)),
            reply == getattr_reply(old(self)@, inode),
    {
        match self.get_node_by_inode(inode) {
            Some(node) => Ok(AttrReply { ttl: ttl(), attr: node.attr }),
            None => Err(FsError::NoEntry),
        }
    }

    /// Lists the node `inode`. The whole listing is given at offset 0: the
    /// node itself as `.`, its parent as `..`, then its children. At any
    /// later offset there is nothing more to give.
    pub fn readdir(&mut self, inode: u64, _fh: u64, offset: u64) -> (reply: Result<
        Vec<DirEntry>,
        FsError,
    >)
        requires
            old(self).wf(),
        ensures
            final(self).wf(),
            final(self).extends(*old(self)),
            listing_view(reply) == readdir_reply(old(self)@, inode, offset),
    {
        let node = match self.get_node_by_inode(inode) {
            Some(node) => node,
            None => {
                return Err(FsError::NoEntry);
            },
        };
        let mut lines: Vec<DirEntry> = Vec::new();
        if offset > 0 {
            assert(lines@.map_values(|line: DirEntry| line@) =~= Seq::<Listed>::empty());
            return Ok(lines);
        }
        proof {
            self@.lemma_record_path_is_canonical(inode);
        }
        lines.push(DirEntry { ino: inode, offset: 0, kind: NodeKind::Directory, name: vec![DOT] });
        if inode == ROOT_INODE {
            lines.push(
                DirEntry {
                    ino: ROOT_INODE,
                    offset: 1,
                    kind: NodeKind::Directory,
                    name: vec![DOT, DOT],
                },
            );
        } else {
            match self.parent_of(node.path.as_slice()) {
                Some(up) => {
                    lines.push(
                        DirEntry {
                            ino: up.inode(),
                            offset: 1,
                            kind: NodeKind::Directory,
                            name: vec![DOT, DOT],
                        },
                    );
                },
                None => {},
            }
        }
        let ghost head = lines@.map_values(|line: DirEntry| line@);
        assert(head =~= self@.dots(inode)) by {
            assert(lines@[0]@.name =~= dot());
            if lines@.len() > 1 {
                assert(lines@[1]@.name =~= dot_dot());
            }
        }
        let children = self.children_of(node.path.as_slice());
        let ghost kids = self@.children(node.path@);
        let mut k: usize = 0;
        while k < children.len()
            invariant
                k <= children.len(),
                head.len() <= 2,
                lines@.len() == head.len() + k,
                children@.len() == kids.len(),
                forall|j: int|
                    0 <= j < children@.len() ==> (#[trigger] children@[j])@ == self@.record(kids[j]),
                forall|j: int| 0 <= j < kids.len() ==> self@.record(#[trigger] kids[j]).attr.ino == kids[j],
                lines@.map_values(|line: DirEntry| line@) == head + Seq::new(
                    k as nat,
                    |j: int| self@.line(kids[j], head.len() + j),
                ),
            decreases children.len() - k,
        {
            let child = &children[k];
            assert(children@[k as int]@ == self@.record(kids[k as int]));
            let line = DirEntry {
                ino: child.inode(),
                offset: lines.len() as u64,
                kind: child.attr.kind,
                name: child.name(),
            };
            assert(line@ == self@.line(kids[k as int], head.len() + k));
            let ghost before = lines@.map_values(|line: DirEntry| line@);
            lines.push(line);
            k += 1;
            assert(lines@.map_values(|line: DirEntry| line@) =~= before.push(line@));
            assert(lines@.map_values(|line: DirEntry| line@) =~= head + Seq::new(
                k as nat,
                |j: int| self@.line(kids[j], head.len() + j),
            ));
        }
        assert(lines@.map_values(|line: DirEntry| line@) =~= self@.listing(inode));
        Ok(lines)
    }

    /// Reads up to `size` bytes of the file `inode` from `offset` on. The
    /// read ends where the file ends. A directory cannot be read. Where
    /// there is something to give, the file is decoded from its start up to
    /// the end of the read.
    pub fn read(&mut self, inode: u64, _fh: u64, offset: u64, size: u32) -> (reply: Result<
        Vec<u8>,
        FsError,
    >)
        requires
            old(self).wf(),
        ensures
            final(self).wf(),
            final(self)@ == old(self)@,
            final(self).latch() == old(self).latch(),
            final(self).started() == old(self).started(),
            old(self).cached_inodes().subset_of(final(self).cached_inodes()),
            final(self).cached_paths() == old(self).cached_paths(),
            bytes_view(reply) == old(self).read_result(inode, offset, size),
            forall|i: u64, n: u64| #[trigger] final(self).decoded(i, n) == old(self).decoded(i, n),
            forall|i: u64, o: u64, s: u32| #[trigger]
                final(self).read_result(i, o, s) == old(self).read_result(i, o, s),
            reply matches Ok(bytes) ==> bytes@.len() <= size && bytes@.len() <= remaining_after(
                offset,
                old(self)@.record(inode).attr.size,
            ),
    {
        let node = match self.get_node_by_inode(inode) {
            Some(node) => node,
            None => {
                return Err(FsError::NoEntry);
            },
        };
        if node.is_dir {
            return Err(FsError::NoEntry);
        }
        let file_size = node.attr.size;
        let end = if size as u64 <= file_size && offset <= file_size - size as u64 {
            offset + size as u64
        } else {
            file_size
        };
        if offset >= end {
            return Ok(Vec::new());
        }
        if end > isize::MAX as u64 {
            return Err(FsError::from_decode(None));
        }
        let data = read_prefix(&mut self.archive, (inode - 2) as usize, end as usize);
        reply_to_read(offset, data)
    }
}

} // verus!
