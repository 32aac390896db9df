//! The per-archive pipeline: validate the signature, then open.
use vstd::prelude::*;
use crate::archive::{directory_of, zip_parses, Archive, ReadError};
use crate::signature::{sniffed_mime, validate, verdict, ValidationError};

verus! {

/// How many leading bytes the signature check looks at.
pub const SIGNATURE_WINDOW: usize = 8192;

/// The leading bytes of a file that the signature check looks at.
pub open spec fn header_spec(bytes: Seq<u8>) -> Seq<u8> {
    if bytes.len() <= SIGNATURE_WINDOW {
        bytes
    } else {
        bytes.take(SIGNATURE_WINDOW as int)
    }
}

/// Copies the leading bytes that the signature check looks at.
pub fn header_of(bytes: &Vec<u8>) -> (r: Vec<u8>)
    ensures
        r@ == header_spec(bytes@),
{
    let n = if bytes.len() <= SIGNATURE_WINDOW {
        bytes.len()
    } else {
        SIGNATURE_WINDOW
    };
    let mut r: Vec<u8> = Vec::new();
    let mut i: usize = 0;
    while i < n
        invariant
            n <= bytes@.len(),
            i <= n,
            r@ == bytes@.take(i as int),
        decreases n - i,
    {
        r.push(bytes[i]);
        i = i + 1;
        assert(r@ =~= bytes@.take(i as int));
    }
    assert(bytes@.take(bytes@.len() as int) =~= bytes@);
    r
}

/// Why an input file could not be opened as an archive.
#[derive(Clone, Debug, PartialEq, Eq)]
pub enum ArchiveError {
    /// The signature check refused the file; nothing was parsed.
    Invalid(ValidationError),
    /// The file passed the signature check but could not be parsed.
    Read(ReadError),
}

/// Opens the contents of an input file as an archive, after checking its
/// signature: a file that fails the check is refused before any parsing.
pub fn open_validated(bytes: Vec<u8>) -> (r: Result<Archive, ArchiveError>)
    ensures
        verdict(sniffed_mime(header_spec(bytes@))) matches Err(v) ==> r == Err::<
            Archive,
            ArchiveError,
        >(ArchiveError::Invalid(v)),
        verdict(sniffed_mime(header_spec(bytes@))) is Ok ==> !(r matches Err(
            ArchiveError::Invalid(_),
        )) && (r is Ok <==> zip_parses(bytes@)),
        r matches Ok(a) ==> a.stored() == directory_of(bytes@),
{
    let header = header_of(&bytes);
    match validate(header.as_slice()) {
        Err(v) => Err(ArchiveError::Invalid(v)),
        Ok(()) => match Archive::open(bytes) {
            Ok(a) => Ok(a),
            Err(e) => Err(ArchiveError::Read(e)),
        },
    }
}

/// Listing is done when asked for, and also when extraction is not asked for.
pub fn listing_requested(list: bool, extract: bool) -> (r: bool)
    ensures
        r == (list || !extract),
{
    list || !extract
}

} // verus!
