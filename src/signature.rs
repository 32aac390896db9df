//! Content-signature validation: an input is accepted as an archive only when
//! its leading bytes are sniffed as the zip container type.
use vstd::prelude::*;

verus! {

/// The media type that `infer` detects for a buffer of leading file bytes.
pub uninterp spec fn sniffed_mime(buf: Seq<u8>) -> Option<Seq<char>>;

/// Relies on `infer::get` and `infer::Type::mime_type`: the detected media type,
/// a function of the bytes alone (the default matchers are fixed).
#[verifier::external_body]
fn sniff_mime(buf: &[u8]) -> (r: Option<String>)
    ensures
        r matches Some(m) ==> sniffed_mime(buf@) == Some(m@),
        r is None ==> sniffed_mime(buf@) is None,
{
    infer::get(buf).map(|t| t.mime_type().to_string())
}

/// Why an input was not accepted as an archive.
#[derive(Clone, Copy, Debug, PartialEq, Eq, Structural)]
pub enum ValidationError {
    /// No known file type was recognised.
    NotAnArchive,
    /// A file type was recognised, but it is not a zip container.
    WrongArchiveType,
}

/// The media type of zip containers.
pub open spec fn zip_mime() -> Seq<char> {
    seq!['a', 'p', 'p', 'l', 'i', 'c', 'a', 't', 'i', 'o', 'n', '/', 'z', 'i', 'p']
}

/// The verdict for a detected media type.
pub open spec fn verdict(mime: Option<Seq<char>>) -> Result<(), ValidationError> {
    match mime {
        None => Err(ValidationError::NotAnArchive),
        Some(m) => if m == zip_mime() {
            Ok(())
        } else {
            Err(ValidationError::WrongArchiveType)
        },
    }
}

/// Decides on a detected media type: only the zip container type passes.
pub fn classify_mime(mime: &Option<String>) -> (r: Result<(), ValidationError>)
    ensures
        r == verdict(match mime {
            Some(m) => Some(m@),
            None => None,
        }),
{
    match mime {
        None => Err(ValidationError::NotAnArchive),
        Some(m) => {
            let expected = String::from_str("application/zip");
            proof {
                reveal_strlit("application/zip");
                assert(expected@ =~= zip_mime());
            }
            if *m == expected {
                Ok(())
            } else {
                Err(ValidationError::WrongArchiveType)
            }
        },
    }
}

/// Validates an input by the signature in its leading bytes (not by its name).
/// `header` is the start of the file; 8192 bytes are enough for every known
/// signature. Nothing is written anywhere.
pub fn validate(header: &[u8]) -> (r: Result<(), ValidationError>)
    ensures
        r == verdict(sniffed_mime(header@)),
{
    let mime = sniff_mime(header);
    classify_mime(&mime)
}

} // verus!
