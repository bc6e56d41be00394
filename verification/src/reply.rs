//! What the file system answers to a request.

use crate::namespace::Listed;
use crate::node::{NodeAttr, NodeKind, Timespec};
use vstd::prelude::*;

verus! {

/// Why a request failed.
#[derive(Clone, Copy, Debug, PartialEq, Eq, Structural)]
pub enum FsError {
    /// The inode or the path names nothing, or names a directory where a
    /// file is asked for.
    NoEntry,
    /// The bytes of a member could not be decoded; the number is the error
    /// code to answer with.
    Io(i32),
}

/// The answer to a lookup: the attributes of the child, how long they may be
/// kept, and the generation of its inode.
#[derive(Clone, Copy, Debug, PartialEq, Eq, Structural)]
pub struct EntryReply {
    pub ttl: Timespec,
    pub attr: NodeAttr,
    pub generation: u64,
}

/// The answer to a request for attributes.
#[derive(Clone, Copy, Debug, PartialEq, Eq, Structural)]
pub struct AttrReply {
    pub ttl: Timespec,
    pub attr: NodeAttr,
}

/// One line of a directory listing.
#[derive(Debug, PartialEq, Eq)]
pub struct DirEntry {
    pub ino: u64,
    pub offset: u64,
    pub kind: NodeKind,
    pub name: Vec<u8>,
}

impl View for DirEntry {
    type V = Listed;

    open spec fn view(&self) -> Listed {
        Listed { ino: self.ino, offset: self.offset, kind: self.kind, name: self.name@ }
    }
}

/// The error number for "no such entry", as `libc` defines it.
pub open spec fn no_entry_code() -> i32 {
    2
}

/// The error number for an input or output error, as `libc` defines it.
pub open spec fn io_code() -> i32 {
    5
}

/// `libc::ENOENT`.
#[verifier::external_body]
fn enoent() -> (code: i32)
    ensures
        code == no_entry_code(),
{
    libc::ENOENT
}

/// `libc::EIO`.
#[verifier::external_body]
fn eio() -> (code: i32)
    ensures
        code == io_code(),
{
    libc::EIO
}

/// The error number that answers the failure `e`.
pub open spec fn errno_of(e: FsError) -> i32 {
    match e {
        FsError::NoEntry => no_entry_code(),
        FsError::Io(code) => code,
    }
}

/// The failure of a decode: an input or output error under the system's
/// number for such errors, whatever number the decoder's own failure
/// carried, if it carried one.
pub open spec fn decode_failure(code: Option<i32>) -> FsError {
    FsError::Io(io_code())
}

impl FsError {
    /// The error number to answer the request with.
    pub fn errno(&self) -> (code: i32)
        ensures
            code == errno_of(*self),
    {
        match self {
            FsError::NoEntry => enoent(),
            FsError::Io(code) => *code,
        }
    }

    /// The failure of a decode, whatever number the decoder's own failure
    /// carried.
    pub fn from_decode(code: Option<i32>) -> (e: FsError)
        ensures
            e == decode_failure(code),
    {
        FsError::Io(eio())
    }
}

/// The seconds for which an answer may be kept by the one who asked: a
/// year. The archive never changes, so an answer never grows stale.
pub const TTL_SECONDS: i64 = 31_536_000;

/// How long an answer may be kept by the one who asked.
pub open spec fn spec_ttl() -> Timespec {
    Timespec { sec: TTL_SECONDS, nsec: 0 }
}

/// How long an answer may be kept by the one who asked.
#[verifier::when_used_as_spec(spec_ttl)]
pub fn ttl() -> (t: Timespec)
    ensures
        t == spec_ttl(),
{
    Timespec { sec: TTL_SECONDS, nsec: 0 }
}

} // verus!
