//! Listing lines for an archive's entries, in stored order.
use vstd::prelude::*;
use crate::archive::{describes, Archive, Entry, EntryKind, ReadError};
use crate::size::{format_bytes, format_spec};
use crate::text::{chars_of, push_all, string_of};

verus! {

/// One line of a listing.
#[derive(Clone, Debug, PartialEq, Eq)]
pub enum ListLine {
    /// The notice shown for an archive without entries.
    Empty,
    /// A directory entry, shown by its name alone.
    Directory(String),
    /// A symbolic link entry, shown by its name alone.
    Symlink(String),
    /// A regular file: its name and its rendered size.
    File(String, String),
}

/// `l` is the listing line of entry `e`.
pub open spec fn line_of(l: ListLine, e: Entry) -> bool {
    match e.kind {
        EntryKind::Directory => l matches ListLine::Directory(n) && n@ == e.name@,
        EntryKind::Symlink => l matches ListLine::Symlink(n) && n@ == e.name@,
        EntryKind::RegularFile => l matches ListLine::File(n, s) && n@ == e.name@ && s@
            == format_spec(e.size as nat),
    }
}

/// The text of the notice for an empty archive.
pub open spec fn empty_notice() -> Seq<char> {
    seq!['F', 'i', 'l', 'e', ' ', 'i', 's', ' ', 'e', 'm', 'p', 't', 'y']
}

/// The plain text of a line.
pub open spec fn line_text(l: ListLine) -> Seq<char> {
    match l {
        ListLine::Empty => empty_notice(),
        ListLine::Directory(n) => n@,
        ListLine::Symlink(n) => n@,
        ListLine::File(n, s) => n@ + seq![' '] + s@,
    }
}

impl ListLine {
    /// The line as plain text: the name, followed for a regular file by a
    /// space and its size.
    pub fn text(&self) -> (r: String)
        ensures
            r@ == line_text(*self),
    {
        match self {
            ListLine::Empty => {
                let r = String::from_str("File is empty");
                proof {
                    reveal_strlit("File is empty");
                    assert(r@ =~= empty_notice());
                }
                r
            },
            ListLine::Directory(n) => n.clone(),
            ListLine::Symlink(n) => n.clone(),
            ListLine::File(n, s) => {
                let mut out = chars_of(n.as_str());
                out.push(' ');
                let sc = chars_of(s.as_str());
                push_all(&mut out, &sc);
                string_of(&out)
            },
        }
    }
}

/// The line of one entry.
pub fn entry_line(e: &Entry) -> (l: ListLine)
    ensures
        line_of(l, *e),
{
    match e.kind {
        EntryKind::Directory => ListLine::Directory(e.name.clone()),
        EntryKind::Symlink => ListLine::Symlink(e.name.clone()),
        EntryKind::RegularFile => ListLine::File(e.name.clone(), format_bytes(e.size)),
    }
}

/// One line per entry, in the given order.
pub fn entry_lines(entries: &Vec<Entry>) -> (r: Vec<ListLine>)
    ensures
        r@.len() == entries@.len(),
        forall|i: int| 0 <= i < r@.len() ==> line_of(#[trigger] r@[i], entries@[i]),
{
    let mut r: Vec<ListLine> = Vec::new();
    let mut i: usize = 0;
    while i < entries.len()
        invariant
            i <= entries@.len(),
            r@.len() == i,
            forall|j: int| 0 <= j < i ==> line_of(#[trigger] r@[j], entries@[j]),
        decreases entries@.len() - i,
    {
        r.push(entry_line(&entries[i]));
        i = i + 1;
    }
    r
}

/// The listing of a complete entry sequence: the empty-archive notice alone
/// when there are no entries, else one line per entry in the given order.
pub fn list_entries(entries: &Vec<Entry>) -> (r: Vec<ListLine>)
    ensures
        entries@.len() == 0 ==> r@ == seq![ListLine::Empty],
        entries@.len() > 0 ==> r@.len() == entries@.len() && forall|i: int|
            0 <= i < r@.len() ==> line_of(#[trigger] r@[i], entries@[i]),
{
    if entries.len() == 0 {
        let r = vec![ListLine::Empty];
        assert(r@ =~= seq![ListLine::Empty]);
        r
    } else {
        entry_lines(entries)
    }
}

/// The listing of an archive.
#[derive(Clone, Debug)]
pub struct Listing {
    /// The number of entries the archive records.
    pub count: usize,
    /// The entries that were read, from the first one on.
    pub entries: Vec<Entry>,
    pub lines: Vec<ListLine>,
    /// The read failure that cut the listing short, if any.
    pub failure: Option<ReadError>,
}

/// Lists an archive from its first entry: the empty-archive notice for an
/// archive without entries, else one line per entry in stored order, up to the
/// first entry that cannot be read.
pub fn list_zip_contents(archive: &mut Archive) -> (r: Listing)
    ensures
        final(archive).same_entries(old(archive)),
        r.count == old(archive).stored().len(),
        forall|i: int| 0 <= i < r.entries@.len() ==> old(archive).opens(i),
        r.failure is Some ==> !old(archive).opens(r.entries@.len() as int),
        r.entries@.len() <= r.count,
        forall|i: int|
            0 <= i < r.entries@.len() ==> describes(
                #[trigger] r.entries@[i],
                old(archive).stored()[i],
            ),
        r.failure is None <==> r.entries@.len() == r.count,
        r.count == 0 ==> r.lines@ == seq![ListLine::Empty],
        r.count > 0 ==> r.lines@.len() == r.entries@.len() && forall|i: int|
            0 <= i < r.lines@.len() ==> line_of(#[trigger] r.lines@[i], r.entries@[i]),
{
    let count = archive.len();
    let scan = archive.scan();
    let lines = if count == 0 {
        list_entries(&scan.entries)
    } else {
        entry_lines(&scan.entries)
    };
    Listing { count, entries: scan.entries, lines, failure: scan.failure }
}

} // verus!
