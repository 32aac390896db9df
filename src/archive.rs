//! Reading a zip archive held in memory: entry count and per-entry metadata,
//! in the order of the archive's central directory.
use vstd::prelude::*;
use std::io::Cursor;
use zip::result::ZipError;
use zip::ZipArchive;
use crate::text::chars_of;

verus! {

#[verifier::external_type_specification]
#[verifier::external_body]
#[verifier::reject_recursive_types(T)]
pub struct ExCursor<T>(Cursor<T>);

#[verifier::external_type_specification]
#[verifier::external_body]
#[verifier::reject_recursive_types(R)]
pub struct ExZipArchive<R>(ZipArchive<R>);

#[verifier::external_type_specification]
#[verifier::external_body]
pub struct ExZipError(ZipError);

/// The entries recorded in an opened archive's central directory, in stored
/// order: the name, the uncompressed size and the unix mode, if recorded.
pub uninterp spec fn stored_entries(z: ZipArchive<Cursor<Vec<u8>>>) -> Seq<(Seq<char>, u64, Option<u32>)>;

/// Whether entry `i` of an opened archive can be opened for reading: it exists,
/// is not encrypted, uses a supported method and has a readable local header.
pub uninterp spec fn entry_opens(z: ZipArchive<Cursor<Vec<u8>>>, i: int) -> bool;

/// Whether `bytes` parse as a zip archive.
pub uninterp spec fn zip_parses(bytes: Seq<u8>) -> bool;

/// The central directory records of the archive held in `bytes`, in stored order.
pub uninterp spec fn directory_of(bytes: Seq<u8>) -> Seq<(Seq<char>, u64, Option<u32>)>;

/// Relies on `zip::ZipArchive::new`: parses the central directory of `bytes`;
/// reading from memory, the outcome depends on the bytes alone.
#[verifier::external_body]
fn open_zip(bytes: Vec<u8>) -> (r: Result<ZipArchive<Cursor<Vec<u8>>>, ZipError>)
    ensures
        r is Ok <==> zip_parses(bytes@),
        r matches Ok(z) ==> stored_entries(z) == directory_of(bytes@),
{
    ZipArchive::new(Cursor::new(bytes))
}

/// Relies on `zip::ZipArchive::len`: the number of entries of the central directory.
#[verifier::external_body]
fn zip_len(z: &ZipArchive<Cursor<Vec<u8>>>) -> (r: usize)
    ensures
        r == stored_entries(*z).len(),
{
    z.len()
}

/// Relies on `zip::ZipArchive::name_for_index`: the stored name of entry `i`,
/// read from the central directory without opening the entry.
#[verifier::external_body]
fn zip_name(z: &ZipArchive<Cursor<Vec<u8>>>, i: usize) -> (r: Option<String>)
    ensures
        r is Some <==> i < stored_entries(*z).len(),
        r matches Some(n) ==> n@ == stored_entries(*z)[i as int].0,
{
    z.name_for_index(i).map(|n| n.to_string())
}

/// Relies on `zip::ZipArchive::by_index` and the `name`, `size` and `unix_mode`
/// getters of the entry it returns: the metadata of entry `i`, which fails for
/// an index past the end and for an entry that does not open. Only the
/// reader's position changes.
#[verifier::external_body]
fn zip_entry(z: &mut ZipArchive<Cursor<Vec<u8>>>, i: usize) -> (r: Result<
    (String, u64, Option<u32>),
    ZipError,
>)
    ensures
        stored_entries(*final(z)) == stored_entries(*old(z)),
        forall|j: int| #[trigger] entry_opens(*final(z), j) == entry_opens(*old(z), j),
        r is Ok <==> (i < stored_entries(*old(z)).len() && entry_opens(*old(z), i as int)),
        r matches Ok(t) ==> (t.0@, t.1, t.2) == stored_entries(*old(z))[i as int],
{
    let f = z.by_index(i)?;
    Ok((f.name().to_string(), f.size(), f.unix_mode()))
}

/// Why an archive could not be read.
#[derive(Clone, Debug, PartialEq, Eq)]
pub enum ReadError {
    /// The underlying reader failed.
    Io(String),
    /// The archive's structure or checksums are malformed.
    CorruptArchive(String),
    /// An entry uses encryption or a compression method that is not supported.
    UnsupportedFeature(String),
    /// An entry index past the end of the archive was asked for.
    MissingEntry,
}

/// Relies on the variants of `zip::result::ZipError`, and their `Display`
/// texts, to tell the causes apart.
#[verifier::external_body]
fn read_error_of(e: ZipError) -> (r: ReadError) {
    match e {
        ZipError::Io(err) => ReadError::Io(err.to_string()),
        ZipError::InvalidArchive(m) => ReadError::CorruptArchive(m.to_string()),
        ZipError::UnsupportedArchive(m) => ReadError::UnsupportedFeature(m.to_string()),
        ZipError::FileNotFound => ReadError::MissingEntry,
        other => ReadError::UnsupportedFeature(other.to_string()),
    }
}

#[derive(Clone, Copy, Debug, PartialEq, Eq, Structural)]
pub enum EntryKind {
    Directory,
    Symlink,
    RegularFile,
}

/// One record of an archive.
#[derive(Clone, Debug, PartialEq, Eq)]
pub struct Entry {
    /// The stored path, relative to the archive root; untrusted.
    pub name: String,
    pub kind: EntryKind,
    /// The uncompressed size in bytes.
    pub size: u64,
    /// The unix permission bits, when the archive recorded them.
    pub mode: Option<u32>,
}

/// A stored name denotes a directory when it ends in a path separator.
pub open spec fn is_dir_name(name: Seq<char>) -> bool {
    name.len() > 0 && (name.last() == '/' || name.last() == '\\')
}

/// A mode denotes a symbolic link when it holds the link type bits.
pub open spec fn is_link_mode(mode: Option<u32>) -> bool {
    match mode {
        Some(m) => m & 0xA000u32 == 0xA000u32,
        None => false,
    }
}

/// Directories first, then links; everything else is a regular file.
pub open spec fn kind_of(name: Seq<char>, mode: Option<u32>) -> EntryKind {
    if is_dir_name(name) {
        EntryKind::Directory
    } else if is_link_mode(mode) {
        EntryKind::Symlink
    } else {
        EntryKind::RegularFile
    }
}

/// `e` is the entry described by the stored record `s`.
pub open spec fn describes(e: Entry, s: (Seq<char>, u64, Option<u32>)) -> bool {
    &&& e.name@ == s.0
    &&& e.size == s.1
    &&& e.mode == s.2
    &&& e.kind == kind_of(s.0, s.2)
}

/// Classifies a stored record.
pub fn classify_entry(name: &str, mode: Option<u32>) -> (k: EntryKind)
    ensures
        k == kind_of(name@, mode),
{
    let chars = chars_of(name);
    let n = chars.len();
    if n > 0 && (chars[n - 1] == '/' || chars[n - 1] == '\\') {
        EntryKind::Directory
    } else {
        match mode {
            Some(m) => if m & 0xA000u32 == 0xA000u32 {
                EntryKind::Symlink
            } else {
                EntryKind::RegularFile
            },
            None => EntryKind::RegularFile,
        }
    }
}

/// The entries read from the start of an archive, and the failure that ended
/// the reading early, if any.
#[derive(Clone, Debug)]
pub struct EntryScan {
    pub entries: Vec<Entry>,
    pub failure: Option<ReadError>,
}

/// An opened archive.
pub struct Archive {
    pub zip: ZipArchive<Cursor<Vec<u8>>>,
}

impl Archive {
    /// The records of the central directory, in stored order.
    pub open spec fn stored(&self) -> Seq<(Seq<char>, u64, Option<u32>)> {
        stored_entries(self.zip)
    }

    /// Whether entry `i` can be opened for reading.
    pub open spec fn opens(&self, i: int) -> bool {
        entry_opens(self.zip, i)
    }

    /// The same entries, each opening as before.
    pub open spec fn same_entries(&self, other: &Archive) -> bool {
        &&& self.stored() == other.stored()
        &&& forall|j: int| #[trigger] self.opens(j) == other.opens(j)
    }

    /// Parses the archive held in `bytes`.
    pub fn open(bytes: Vec<u8>) -> (r: Result<Archive, ReadError>)
        ensures
            r is Ok <==> zip_parses(bytes@),
            r matches Ok(a) ==> a.stored() == directory_of(bytes@),
    {
        match open_zip(bytes) {
            Ok(zip) => Ok(Archive { zip }),
            Err(e) => Err(read_error_of(e)),
        }
    }

    /// The number of entries.
    pub fn len(&self) -> (r: usize)
        ensures
            r == self.stored().len(),
    {
        zip_len(&self.zip)
    }

    /// The stored name of entry `i`, without opening it.
    pub fn name_at(&self, i: usize) -> (r: Option<String>)
        ensures
            r is Some <==> i < self.stored().len(),
            r matches Some(n) ==> n@ == self.stored()[i as int].0,
    {
        zip_name(&self.zip, i)
    }

    /// The metadata of entry `i`, in stored order.
    pub fn entry_at(&mut self, i: usize) -> (r: Result<Entry, ReadError>)
        ensures
            final(self).same_entries(old(self)),
            r is Ok <==> (i < old(self).stored().len() && old(self).opens(i as int)),
            r matches Ok(e) ==> describes(e, old(self).stored()[i as int]),
    {
        match zip_entry(&mut self.zip, i) {
            Ok(t) => {
                let (name, size, mode) = t;
                let kind = classify_entry(name.as_str(), mode);
                Ok(Entry { name, kind, size, mode })
            },
            Err(e) => Err(read_error_of(e)),
        }
    }

    /// Reads the entries in stored order from index 0, stopping at the first
    /// entry that cannot be read. Without a failure every entry is there.
    pub fn scan(&mut self) -> (r: EntryScan)
        ensures
            final(self).same_entries(old(self)),
            forall|i: int| 0 <= i < r.entries@.len() ==> old(self).opens(i),
            r.failure is Some ==> !old(self).opens(r.entries@.len() as int),
            r.entries@.len() <= old(self).stored().len(),
            forall|i: int|
                0 <= i < r.entries@.len() ==> describes(#[trigger] r.entries@[i], old(self).stored()[i]),
            r.failure is None <==> r.entries@.len() == old(self).stored().len(),
    {
        let n = self.len();
        let mut entries: Vec<Entry> = Vec::new();
        let mut i: usize = 0;
        while i < n
            invariant
                n == old(self).stored().len(),
                self.same_entries(old(self)),
                forall|j: int| 0 <= j < i ==> old(self).opens(j),
                i <= n,
                entries@.len() == i,
                forall|j: int| 0 <= j < i ==> describes(#[trigger] entries@[j], old(self).stored()[j]),
            decreases n - i,
        {
            match self.entry_at(i) {
                Ok(e) => entries.push(e),
                Err(err) => {
                    return EntryScan { entries, failure: Some(err) };
                },
            }
            i = i + 1;
        }
        EntryScan { entries, failure: None }
    }
}

} // verus!
