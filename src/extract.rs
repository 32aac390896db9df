//! Planning the extraction of an archive: where each entry goes, in stored
//! order, with entry names that could leave the destination refused.
use vstd::prelude::*;
use crate::archive::{kind_of, Archive, Entry, EntryKind, ReadError};
use crate::text::{chars_of, push_all, string_of};

verus! {

pub open spec fn is_sep(c: char) -> bool {
    c == '/' || c == '\\'
}

/// A `..` component of `name` starts at position `j`.
pub open spec fn parent_component_at(name: Seq<char>, j: int) -> bool {
    &&& 0 <= j
    &&& j + 1 < name.len()
    &&& name[j] == '.'
    &&& name[j + 1] == '.'
    &&& (j == 0 || is_sep(name[j - 1]))
    &&& (j + 2 == name.len() || is_sep(name[j + 2]))
}

/// A stored name stays inside the directory it is joined to: it is not
/// empty, not absolute, has no drive prefix and no `..` component.
pub open spec fn is_contained_name(name: Seq<char>) -> bool {
    &&& name.len() > 0
    &&& !is_sep(name[0])
    &&& !(name.len() >= 2 && name[1] == ':')
    &&& forall|j: int| !parent_component_at(name, j)
}

/// `name` appended to the directory `base`, with one `/` between them.
pub open spec fn join_path(base: Seq<char>, name: Seq<char>) -> Seq<char> {
    if base.len() == 0 {
        name
    } else if base.last() == '/' {
        base + name
    } else {
        base + seq!['/'] + name
    }
}

/// Decides whether a stored name stays inside the destination.
pub fn contained_name(name: &str) -> (r: bool)
    ensures
        r == is_contained_name(name@),
{
    let c = chars_of(name);
    let n = c.len();
    if n == 0 || c[0] == '/' || c[0] == '\\' || (n >= 2 && c[1] == ':') {
        return false;
    }
    let mut j: usize = 0;
    while j + 1 < n
        invariant
            n == c@.len(),
            c@ == name@,
            j < n,
            forall|k: int| 0 <= k < j ==> !parent_component_at(name@, k),
        decreases n - j,
    {
        if c[j] == '.' && c[j + 1] == '.' && (j == 0 || c[j - 1] == '/' || c[j - 1] == '\\')
            && (j + 2 == n || c[j + 2] == '/' || c[j + 2] == '\\') {
            assert(parent_component_at(name@, j as int));
            return false;
        }
        j = j + 1;
    }
    assert forall|k: int| !parent_component_at(name@, k) by {
        if 0 <= k < j {
        }
    }
    true
}

/// Joins `name` to the directory `base`.
pub fn join(base: &str, name: &str) -> (r: String)
    ensures
        r@ == join_path(base@, name@),
{
    let b = chars_of(base);
    let nm = chars_of(name);
    if b.len() == 0 {
        return string_of(&nm);
    }
    let mut out = b.clone();
    assert(out@ == b@);
    if b[b.len() - 1] != '/' {
        out.push('/');
    }
    push_all(&mut out, &nm);
    string_of(&out)
}

/// The name of the final component of `path` without its extension.
pub uninterp spec fn file_stem_of(path: Seq<char>) -> Seq<char>;

/// Relies on `std::path::Path::file_stem`: the final component without its
/// extension, a function of the path text alone; empty when there is none.
#[verifier::external_body]
fn file_stem(path: &str) -> (r: String)
    ensures
        r@ == file_stem_of(path@),
{
    std::path::Path::new(path).file_stem().unwrap_or_default().to_string_lossy().into_owned()
}

/// The directory that receives an archive's entries: the destination itself,
/// or, with nesting, its subdirectory named after the archive's stem.
pub open spec fn output_base(destination: Seq<char>, archive_path: Seq<char>, nest: bool) -> Seq<
    char,
> {
    if nest {
        join_path(destination, file_stem_of(archive_path))
    } else {
        destination
    }
}

/// Computes the directory that receives an archive's entries.
pub fn base_dir(destination: &str, archive_path: &str, nest: bool) -> (r: String)
    ensures
        r@ == output_base(destination@, archive_path@, nest),
{
    if nest {
        let stem = file_stem(archive_path);
        join(destination, stem.as_str())
    } else {
        String::from_str(destination)
    }
}

/// One entry's share of an extraction.
#[derive(Clone, Debug, PartialEq, Eq)]
pub struct Step {
    /// The entry's stored name.
    pub name: String,
    /// Where the entry goes.
    pub target: String,
    /// The entry's position in the archive.
    pub index: usize,
    /// Directories are created; everything else is written as a file.
    pub kind: EntryKind,
    /// The permission bits to set once written, when the archive recorded them.
    pub mode: Option<u32>,
}

/// `s` places entry number `i`, named `name`, under `base`.
pub open spec fn places(
    s: Step,
    base: Seq<char>,
    i: int,
    name: Seq<char>,
    kind: EntryKind,
    mode: Option<u32>,
) -> bool {
    &&& is_contained_name(name)
    &&& s.name@ == name
    &&& s.target@ == join_path(base, name)
    &&& s.index == i
    &&& s.kind == kind
    &&& s.mode == mode
}

/// Why an archive's extraction stopped.
#[derive(Clone, Debug, PartialEq, Eq)]
pub enum ExtractError {
    /// The named entry could not be read.
    Read { entry_name: String, cause: ReadError },
    /// An entry's name would lead outside the destination.
    UnsafeName(String),
}

/// The steps for `entries` under `base`, in order, up to the first entry whose
/// name would leave `base`.
pub fn plan_steps(base: &str, entries: &Vec<Entry>) -> (r: (Vec<Step>, Option<ExtractError>))
    ensures
        r.0@.len() <= entries@.len(),
        forall|i: int|
            0 <= i < r.0@.len() ==> places(
                #[trigger] r.0@[i],
                base@,
                i,
                entries@[i].name@,
                entries@[i].kind,
                entries@[i].mode,
            ),
        r.1 is None <==> r.0@.len() == entries@.len(),
        r.1 matches Some(e) ==> e matches ExtractError::UnsafeName(n) && n@ == entries@[r.0@.len()
            as int].name@ && !is_contained_name(n@),
{
    let mut steps: Vec<Step> = Vec::new();
    let mut i: usize = 0;
    while i < entries.len()
        invariant
            i <= entries@.len(),
            steps@.len() == i,
            forall|k: int|
                0 <= k < i ==> places(
                    #[trigger] steps@[k],
                    base@,
                    k,
                    entries@[k].name@,
                    entries@[k].kind,
                    entries@[k].mode,
                ),
        decreases entries@.len() - i,
    {
        let e = &entries[i];
        if !contained_name(e.name.as_str()) {
            return (steps, Some(ExtractError::UnsafeName(e.name.clone())));
        }
        let target = join(base, e.name.as_str());
        steps.push(Step { name: e.name.clone(), target, index: i, kind: e.kind, mode: e.mode });
        i = i + 1;
    }
    (steps, None)
}

/// What to do to extract one archive.
#[derive(Clone, Debug)]
pub struct ExtractionPlan {
    /// The directory that receives the entries.
    pub base: String,
    /// One step per entry, in stored order, up to the failure if any.
    pub steps: Vec<Step>,
    /// Why the steps stop before the last entry.
    pub failure: Option<ExtractError>,
}

/// Plans the extraction of `archive`, read from `archive_path`, into
/// `destination`: every entry in stored order goes to its stored name joined
/// to the output base. The plan stops at the first entry that cannot be read
/// or whose name would leave the output base.
pub fn plan_extraction(archive: &mut Archive, destination: &str, archive_path: &str, nest: bool) -> (r:
    ExtractionPlan)
    ensures
        final(archive).same_entries(old(archive)),
        r.base@ == output_base(destination@, archive_path@, nest),
        forall|i: int| 0 <= i < r.steps@.len() ==> old(archive).opens(i),
        r.steps@.len() <= old(archive).stored().len(),
        forall|i: int|
            0 <= i < r.steps@.len() ==> places(
                #[trigger] r.steps@[i],
                r.base@,
                i,
                old(archive).stored()[i].0,
                kind_of(old(archive).stored()[i].0, old(archive).stored()[i].2),
                old(archive).stored()[i].2,
            ),
        r.failure is None <==> r.steps@.len() == old(archive).stored().len(),
        r.failure matches Some(ExtractError::UnsafeName(n)) ==> n@ == old(archive).stored()[r.steps@.len() as int].0
            && !is_contained_name(n@),
        r.failure matches Some(ExtractError::Read { entry_name, cause }) ==> entry_name@ == old(
            archive,
        ).stored()[r.steps@.len() as int].0 && !old(archive).opens(r.steps@.len() as int),
{
    let base = base_dir(destination, archive_path, nest);
    let scan = archive.scan();
    let (steps, bad) = plan_steps(base.as_str(), &scan.entries);
    assert forall|i: int| 0 <= i < steps@.len() implies places(
        #[trigger] steps@[i],
        base@,
        i,
        old(archive).stored()[i].0,
        kind_of(old(archive).stored()[i].0, old(archive).stored()[i].2),
        old(archive).stored()[i].2,
    ) by {
        assert(crate::archive::describes(scan.entries@[i], old(archive).stored()[i]));
    }
    let failure = match bad {
        Some(e) => Some(e),
        None => match scan.failure {
            Some(cause) => match archive.name_at(scan.entries.len()) {
                Some(entry_name) => Some(ExtractError::Read { entry_name, cause }),
                None => None,
            },
            None => None,
        },
    };
    ExtractionPlan { base, steps, failure }
}

} // verus!
