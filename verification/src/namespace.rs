//! The namespace of an archive: which node each inode and each path names.
//!
//! An archive is a flat list of members. Inode 1 is the root, which no member
//! backs; inode `n` from 2 on is member `n - 2`. Nothing else is an inode.
//! Parents and children are not stored anywhere: a node is a child of a
//! directory when the parent of its path is the directory's path.

use crate::archive::EntryInfo;
use crate::clock::entry_time;
use crate::node::{entry_record, root_record, FileMetadata, NodeKind, NodeRecord, ROOT_INODE};
use crate::path::{canonical, file_name, is_canonical, lemma_canonical, parent_path};
use vstd::prelude::*;

verus! {

/// The members of an archive and the metadata of the archive file.
pub ghost struct Namespace {
    pub entries: Seq<EntryInfo>,
    pub owner: FileMetadata,
}

/// One line of a directory listing.
pub ghost struct Listed {
    pub ino: u64,
    pub offset: u64,
    pub kind: NodeKind,
    pub name: Seq<u8>,
}

/// The byte `.`, of which the names of a directory's own two lines are made.
pub const DOT: u8 = 0x2e;

/// The name under which a directory lists itself: `.`.
pub open spec fn dot() -> Seq<u8> {
    seq![DOT]
}

/// The name under which a directory lists its parent: `..`.
pub open spec fn dot_dot() -> Seq<u8> {
    seq![DOT, DOT]
}

/// `path` names something inside the directory `dir`, directly.
pub open spec fn child_of(path: Seq<u8>, dir: Seq<u8>) -> bool {
    path.len() > 0 && parent_path(path) == dir
}

impl Namespace {
    /// The number of nodes: one for each member, and the root.
    pub open spec fn node_count(self) -> int {
        self.entries.len() as int + 1
    }

    /// Every node has an inode: the node count fits in 64 bits.
    pub open spec fn wf(self) -> bool {
        self.node_count() <= u64::MAX
    }

    /// `inode` names a node.
    pub open spec fn valid(self, inode: u64) -> bool {
        1 <= inode <= self.node_count()
    }

    /// `inode` names a member of the archive.
    pub open spec fn is_member(self, inode: u64) -> bool {
        2 <= inode <= self.node_count()
    }

    /// The record of a valid inode.
    pub open spec fn record(self, inode: u64) -> NodeRecord {
        if inode == ROOT_INODE {
            root_record(self.owner)
        } else {
            let entry = self.entries[inode - 2];
            entry_record(inode, entry, self.owner, entry_time(entry.modified, self.owner.mtime))
        }
    }

    /// What an inode resolves to: its record, or nothing where it names no
    /// node.
    pub open spec fn by_inode(self, inode: u64) -> Option<NodeRecord> {
        if self.valid(inode) {
            Some(self.record(inode))
        } else {
            None
        }
    }

    /// `inode` is a member whose path is `path`.
    pub open spec fn has_path(self, inode: u64, path: Seq<u8>) -> bool {
        self.is_member(inode) && self.record(inode).path == path
    }

    /// `inode` is the first member whose path is `path`.
    pub open spec fn first_with_path(self, inode: u64, path: Seq<u8>) -> bool {
        &&& self.has_path(inode, path)
        &&& forall|earlier: u64| 2 <= earlier < inode ==> !self.has_path(earlier, path)
    }

    /// What a path in canonical form resolves to: the first member with that
    /// path, or nothing. The root is no member, so no path resolves to it.
    pub open spec fn by_path(self, path: Seq<u8>) -> Option<NodeRecord> {
        if exists|inode: u64| self.first_with_path(inode, path) {
            Some(self.record(choose|inode: u64| self.first_with_path(inode, path)))
        } else {
            None
        }
    }

    /// The directory that holds `path`: the root for a path of one
    /// component, else what the parent path resolves to. The empty path has
    /// no parent.
    pub open spec fn parent(self, path: Seq<u8>) -> Option<NodeRecord> {
        if path.len() == 0 {
            None
        } else if parent_path(path).len() == 0 {
            Some(root_record(self.owner))
        } else {
            self.by_path(parent_path(path))
        }
    }

    /// `inode` is a member that lies directly inside the directory `dir`.
    pub open spec fn is_child(self, inode: u64, dir: Seq<u8>) -> bool {
        self.is_member(inode) && child_of(self.record(inode).path, dir)
    }

    /// The children of `dir` among the inodes below `limit`, in rising order.
    pub open spec fn children_below(self, dir: Seq<u8>, limit: int) -> Seq<u64>
        decreases limit,
    {
        if limit <= 2 {
            Seq::empty()
        } else {
            let rest = self.children_below(dir, limit - 1);
            if self.is_child((limit - 1) as u64, dir) {
                rest.push((limit - 1) as u64)
            } else {
                rest
            }
        }
    }

    /// The children of `dir`, in rising order of inode.
    pub open spec fn children(self, dir: Seq<u8>) -> Seq<u64> {
        self.children_below(dir, self.node_count() + 1)
    }

    /// The lines with which the directory `inode` lists itself and its
    /// parent. The root is its own parent; a node whose parent does not
    /// resolve lists none.
    pub open spec fn dots(self, inode: u64) -> Seq<Listed> {
        let own = Listed { ino: inode, offset: 0, kind: NodeKind::Directory, name: dot() };
        if inode == ROOT_INODE {
            seq![own, Listed { ino: ROOT_INODE, offset: 1, kind: NodeKind::Directory, name: dot_dot() }]
        } else {
            match self.parent(self.record(inode).path) {
                Some(up) => seq![
                    own,
                    Listed { ino: up.attr.ino, offset: 1, kind: NodeKind::Directory, name: dot_dot() },
                ],
                None => seq![own],
            }
        }
    }

    /// The line that lists the member `inode` at position `offset`.
    pub open spec fn line(self, inode: u64, offset: int) -> Listed {
        let record = self.record(inode);
        Listed {
            ino: inode,
            offset: offset as u64,
            kind: record.attr.kind,
            name: file_name(record.path),
        }
    }

    /// The full listing of the node `inode`: itself, its parent, then its
    /// children in rising order of inode, each at the offset of its position.
    pub open spec fn listing(self, inode: u64) -> Seq<Listed> {
        let head = self.dots(inode);
        let kids = self.children(self.record(inode).path);
        head + Seq::new(kids.len(), |k: int| self.line(kids[k], head.len() + k))
    }
}

impl Namespace {
    /// Every valid inode has a record that carries that inode.
    pub proof fn law_record_carries_inode(self, inode: u64)
        requires
            self.valid(inode),
        ensures
            self.by_inode(inode) matches Some(record) && record.attr.ino == inode,
    {
    }

    /// No inode outside `1 ..= node_count` resolves.
    pub proof fn law_invalid_inode_is_not_found(self, inode: u64)
        requires
            inode < 1 || inode > self.node_count(),
        ensures
            self.by_inode(inode) is None,
    {
    }

    /// A path resolves to the first member that has it.
    pub proof fn lemma_first_is_resolved(self, inode: u64, path: Seq<u8>)
        requires
            self.first_with_path(inode, path),
        ensures
            self.by_path(path) == Some(self.record(inode)),
    {
        let chosen = choose|i: u64| self.first_with_path(i, path);
        assert(self.first_with_path(chosen, path));
        if chosen < inode {
            assert(!self.has_path(chosen, path));
        } else if inode < chosen {
            assert(!self.has_path(inode, path));
        }
    }

    /// A path that no member has does not resolve.
    pub proof fn lemma_absent_is_unresolved(self, path: Seq<u8>)
        requires
            forall|inode: u64| !self.has_path(inode, path),
        ensures
            self.by_path(path) is None,
    {
    }

    /// What a path resolves to is a member with that path, and no member
    /// before it has the path.
    pub proof fn lemma_resolved_is_first(self, path: Seq<u8>)
        ensures
            self.by_path(path) matches Some(record) ==> self.first_with_path(record.attr.ino, path)
                && record == self.record(record.attr.ino),
            self.by_path(path) is None ==> forall|inode: u64| !self.has_path(inode, path),
    {
        if exists|i: u64| self.first_with_path(i, path) {
            let chosen = choose|i: u64| self.first_with_path(i, path);
            assert(self.first_with_path(chosen, path));
        } else {
            assert forall|inode: u64| !self.has_path(inode, path) by {
                if self.has_path(inode, path) {
                    self.lemma_some_first(inode, path);
                }
            }
        }
    }

    /// Where some member up to `inode` has `path`, one of them is the first.
    proof fn lemma_some_first(self, inode: u64, path: Seq<u8>)
        requires
            self.has_path(inode, path),
        ensures
            exists|first: u64| self.first_with_path(first, path),
        decreases inode,
    {
        if exists|earlier: u64| 2 <= earlier < inode && self.has_path(earlier, path) {
            let earlier = choose|earlier: u64| 2 <= earlier < inode && self.has_path(earlier, path);
            self.lemma_some_first(earlier, path);
        } else {
            assert(self.first_with_path(inode, path));
        }
    }
}

impl Namespace {
    /// The path of every record is in canonical form.
    pub proof fn lemma_record_path_is_canonical(self, inode: u64)
        ensures
            is_canonical(self.record(inode).path),
            canonical(self.record(inode).path) == self.record(inode).path,
    {
        if inode != ROOT_INODE {
            lemma_canonical(self.entries[inode - 2].name);
        }
        lemma_canonical(self.record(inode).path);
    }
}

impl Namespace {
    /// Resolution by path and by inode agree. What a path resolves to has
    /// that path, and its inode resolves to the same record. The other way
    /// round, the path of a member resolves to that member, provided that
    /// no earlier member has the same path: the first one wins.
    pub proof fn law_path_and_inode_agree(self, inode: u64, path: Seq<u8>)
        ensures
            self.by_path(path) matches Some(found) ==> found.path == path && self.by_inode(
                found.attr.ino,
            ) == Some(found),
            self.is_member(inode) && (forall|earlier: u64|
                2 <= earlier < inode ==> self.record(earlier).path != self.record(inode).path)
                ==> self.by_path(self.record(inode).path) == Some(self.record(inode)),
    {
        self.lemma_resolved_is_first(path);
        if self.is_member(inode) && (forall|earlier: u64|
            2 <= earlier < inode ==> self.record(earlier).path != self.record(inode).path) {
            assert(self.first_with_path(inode, self.record(inode).path));
            self.lemma_first_is_resolved(inode, self.record(inode).path);
        }
    }

    /// The children below a limit are the members below it that lie in the
    /// directory, each once, in rising order.
    pub proof fn lemma_children_below(self, dir: Seq<u8>, limit: int)
        requires
            limit <= u64::MAX + 1,
        ensures
            limit >= 2 ==> self.children_below(dir, limit).len() <= limit - 2,
            forall|k: int|
                0 <= k < self.children_below(dir, limit).len() ==> {
                    let child = #[trigger] self.children_below(dir, limit)[k];
                    self.is_child(child, dir) && child < limit
                },
            forall|j: int, k: int|
                0 <= j < k < self.children_below(dir, limit).len() ==> self.children_below(
                    dir,
                    limit,
                )[j] < self.children_below(dir, limit)[k],
            forall|inode: u64|
                self.is_child(inode, dir) && inode < limit ==> self.children_below(
                    dir,
                    limit,
                ).contains(inode),
        decreases limit,
    {
        if limit > 2 {
            self.lemma_children_below(dir, limit - 1);
            let rest = self.children_below(dir, limit - 1);
            let all = self.children_below(dir, limit);
            assert forall|inode: u64| self.is_child(inode, dir) && inode < limit implies all.contains(
                inode,
            ) by {
                if inode < limit - 1 {
                    let k = choose|k: int| 0 <= k < rest.len() && rest[k] == inode;
                    assert(all[k] == inode);
                } else {
                    assert(all[all.len() - 1] == inode);
                }
            }
        }
    }

    /// The root lists itself under `.` and under `..`, first of all.
    pub proof fn law_root_lists_itself(self)
        ensures
            self.listing(ROOT_INODE).len() >= 2,
            self.listing(ROOT_INODE)[0] == (Listed {
                ino: ROOT_INODE,
                offset: 0,
                kind: NodeKind::Directory,
                name: dot(),
            }),
            self.listing(ROOT_INODE)[1] == (Listed {
                ino: ROOT_INODE,
                offset: 1,
                kind: NodeKind::Directory,
                name: dot_dot(),
            }),
    {
    }

    /// A listing is exact. Where the parent of the node resolves, as it
    /// always does for the root, the listing holds `.`, then `..`, then one
    /// line for each member that lies directly in the node, and nothing else:
    /// the lines after the first two go by strictly rising inode, each names
    /// a child by its file name, and every child has its line.
    pub proof fn law_listing_is_exact(self, inode: u64)
        requires
            self.wf(),
            self.valid(inode),
            inode == ROOT_INODE || self.parent(self.record(inode).path) is Some,
        ensures
            self.listing(inode).len() == 2 + self.children(self.record(inode).path).len(),
            self.listing(inode)[0].ino == inode && self.listing(inode)[0].name == dot(),
            self.listing(inode)[1].name == dot_dot(),
            forall|k: int|
                2 <= k < self.listing(inode).len() ==> {
                    let line = #[trigger] self.listing(inode)[k];
                    &&& self.is_child(line.ino, self.record(inode).path)
                    &&& line.name == file_name(self.record(line.ino).path)
                    &&& line.kind == self.record(line.ino).attr.kind
                    &&& line.offset == k
                },
            forall|j: int, k: int|
                2 <= j < k < self.listing(inode).len() ==> self.listing(inode)[j].ino
                    < self.listing(inode)[k].ino,
            forall|child: u64|
                self.is_child(child, self.record(inode).path) ==> exists|k: int|
                    2 <= k < self.listing(inode).len() && #[trigger] self.listing(inode)[k].ino
                        == child,
    {
        let dir = self.record(inode).path;
        let kids = self.children(dir);
        let lines = self.listing(inode);
        self.lemma_children_below(dir, self.node_count() + 1);
        assert(self.dots(inode).len() == 2);
        assert forall|k: int| 2 <= k < lines.len() implies {
            let line = #[trigger] lines[k];
            &&& self.is_child(line.ino, dir)
            &&& line.name == file_name(self.record(line.ino).path)
            &&& line.kind == self.record(line.ino).attr.kind
            &&& line.offset == k
        } by {
            assert(lines[k] == self.line(kids[k - 2], k));
            assert(self.is_child(kids[k - 2], dir));
        }
        assert forall|j: int, k: int| 2 <= j < k < lines.len() implies lines[j].ino
            < lines[k].ino by {
            assert(lines[j] == self.line(kids[j - 2], j));
            assert(lines[k] == self.line(kids[k - 2], k));
        }
        assert forall|child: u64| self.is_child(child, dir) implies exists|k: int|
            2 <= k < lines.len() && #[trigger] lines[k].ino == child by {
            assert(kids.contains(child));
            let at = choose|at: int| 0 <= at < kids.len() && kids[at] == child;
            assert(lines[at + 2] == self.line(kids[at], at + 2));
        }
    }
}

} // verus!
