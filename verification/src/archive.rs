//! The zip archive behind the file system, seen as a list of entries.
//!
//! The archive is decoded by the `zip` crate. What the file system reads of an
//! entry is held in [`ArchiveEntry`], a value of plain fields.

use std::io::Cursor;
use std::io::Read;
use vstd::prelude::*;
use zip::ZipArchive;

verus! {

#[verifier::external_type_specification]
#[verifier::external_body]
#[verifier::reject_recursive_types(R)]
pub struct ExZipArchive<R>(ZipArchive<R>);

#[verifier::external_type_specification]
#[verifier::external_body]
#[verifier::reject_recursive_types(T)]
pub struct ExCursor<T>(Cursor<T>);

/// The archive as the file system holds it: decoded from bytes in memory.
pub type Archive = ZipArchive<Cursor<Vec<u8>>>;

/// A calendar date and time of day as a zip entry stores it, without a time
/// zone.
#[derive(Clone, Copy, Debug, PartialEq, Eq, Structural)]
pub struct DosDateTime {
    pub year: u16,
    pub month: u8,
    pub day: u8,
    pub hour: u8,
    pub minute: u8,
    pub second: u8,
}

/// What the file system reads of one archive member.
#[derive(Debug, PartialEq, Eq)]
pub struct ArchiveEntry {
    /// The member's path inside the archive: its decoded name, in UTF-8.
    pub name: Vec<u8>,
    /// Its size in bytes once decoded.
    pub size: u64,
    /// When it was last modified, where the archive says so.
    pub modified: Option<DosDateTime>,
    /// Its Unix mode bits, where the archive carries them.
    pub unix_mode: Option<u32>,
}

/// The mathematical value of an [`ArchiveEntry`].
pub ghost struct EntryInfo {
    pub name: Seq<u8>,
    pub size: u64,
    pub modified: Option<DosDateTime>,
    pub unix_mode: Option<u32>,
}

impl View for ArchiveEntry {
    type V = EntryInfo;

    open spec fn view(&self) -> EntryInfo {
        EntryInfo {
            name: self.name@,
            size: self.size,
            modified: self.modified,
            unix_mode: self.unix_mode,
        }
    }
}

/// The archive that `ZipArchive::new` decodes from `bytes`, if they hold one.
pub uninterp spec fn decoded_archive(bytes: Seq<u8>) -> Option<Archive>;

/// The members of an archive, in the order in which the decoder numbers them.
pub uninterp spec fn archive_entries(archive: Archive) -> Seq<EntryInfo>;

/// What `read_exact` gives for the first `len` decoded bytes of member `index`:
/// the bytes, or the operating system's error number where the failure has one.
pub uninterp spec fn decoded_prefix(archive: Archive, index: int, len: int) -> Result<
    Seq<u8>,
    Option<i32>,
>;

/// `ZipArchive::new` over a cursor on `bytes`: finds the central directory,
/// whatever stands before the archive, and decodes it. `None` where the bytes
/// hold no archive that the decoder accepts.
#[verifier::external_body]
pub(crate) fn decode_archive(bytes: Vec<u8>) -> (archive: Option<Archive>)
    ensures
        archive == decoded_archive(bytes@),
{
    ZipArchive::new(Cursor::new(bytes)).ok()
}

/// `ZipArchive::len`: the number of members.
#[verifier::external_body]
pub(crate) fn entry_count(archive: &Archive) -> (count: usize)
    ensures
        count == archive_entries(*archive).len(),
{
    archive.len()
}

/// `ZipArchive::by_index_data`: the central-directory record of member
/// `index`, copied field by field. It reads nothing but the decoded directory.
/// The name is the one that the record's `name` decodes, as UTF-8 bytes: a
/// stored name that is UTF-8 as it stands, any other read as code page 437.
/// Should `name` ever fail, the stored bytes stand in.
#[verifier::external_body]
pub(crate) fn entry_at(archive: &Archive, index: usize) -> (entry: ArchiveEntry)
    requires
        index < archive_entries(*archive).len(),
    ensures
        entry@ == archive_entries(*archive)[index as int],
{
    let record = archive.by_index_data(index).unwrap();
    let name = match record.name() {
        Ok(text) => text.as_bytes().to_vec(),
        Err(_) => record.name_raw().to_vec(),
    };
    let modified = record.last_modified().map(
        |t| DosDateTime {
            year: t.year(), month: t.month(), day: t.day(),
            hour: t.hour(), minute: t.minute(), second: t.second(),
        },
    );
    ArchiveEntry { name, size: record.size(), modified, unix_mode: record.unix_mode() }
}

/// `ZipArchive::by_index` and `Read::read_exact` on the member: decodes the
/// first `len` bytes of member `index`. The decoder moves its cursor; the
/// members stay what they were, and so does what any later read decodes. On success the buffer is filled, so the result
/// has `len` bytes. A buffer cannot be longer than `isize::MAX`.
#[verifier::external_body]
pub(crate) fn read_prefix(archive: &mut Archive, index: usize, len: usize) -> (data: Result<
    Vec<u8>,
    Option<i32>,
>)
    requires
        index < archive_entries(*old(archive)).len(),
        len <= isize::MAX,
    ensures
        archive_entries(*final(archive)) == archive_entries(*old(archive)),
        forall|i: int, n: int|
            decoded_prefix(*final(archive), i, n) == decoded_prefix(*old(archive), i, n),
        match data {
            Ok(bytes) => decoded_prefix(*old(archive), index as int, len as int) == Ok::<
                Seq<u8>,
                Option<i32>,
            >(bytes@) && bytes@.len() == len,
            Err(code) => decoded_prefix(*old(archive), index as int, len as int) == Err::<
                Seq<u8>,
                Option<i32>,
            >(code),
        },
{
    let mut buffer = vec![0u8; len];
    match archive.by_index(index) {
        Ok(mut member) => match member.read_exact(&mut buffer) {
            Ok(()) => Ok(buffer),
            Err(failure) => Err(failure.raw_os_error()),
        },
        Err(_) => Err(None),
    }
}

} // verus!
