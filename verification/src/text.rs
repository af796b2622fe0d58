//! Text primitives borrowed from the standard library: debug quoting, lossy
//! decoding and strict decoding of bytes.

use vstd::prelude::*;
use vstd::utf8::{decode_utf8, encode_utf8, valid_utf8};

verus! {

/// The debug rendering of a text: the text between double quotes, with the
/// characters that need it escaped.
pub uninterp spec fn debug_text(s: Seq<char>) -> Seq<char>;

/// The lossy decoding of bytes: each invalid sequence gives one replacement
/// character.
pub uninterp spec fn lossy_text(bytes: Seq<u8>) -> Seq<char>;

/// What the standard library says of bytes that are not valid UTF-8: where the
/// first invalid sequence stands and how long it is.
pub uninterp spec fn decode_error_text(bytes: Seq<u8>) -> Seq<char>;

/// Calls the standard `Debug` formatting of `str`. Trusted: the result is a
/// function of the text alone, named `debug_text`.
#[verifier::external_body]
pub(crate) fn debug_quoted(s: &str) -> (r: String)
    ensures
        r@ == debug_text(s@),
{
    format!("{:?}", s)
}

/// Calls `String::from_utf8_lossy`. Trusted: the result is a function of the
/// bytes alone, named `lossy_text`, and valid UTF-8 comes back as the text it
/// encodes.
#[verifier::external_body]
pub(crate) fn lossy_decoded(bytes: &[u8]) -> (r: String)
    ensures
        r@ == lossy_text(bytes@),
        valid_utf8(bytes@) ==> r@ == decode_utf8(bytes@),
{
    String::from_utf8_lossy(bytes).into_owned()
}

/// Calls `String::from_utf8`. Trusted: it succeeds exactly on valid UTF-8, and
/// the text then encodes to the very bytes given; on failure the bytes come
/// back unchanged, with the text of the error, which is a function of the
/// bytes alone, named `decode_error_text`.
#[verifier::external_body]
pub(crate) fn strict_decoded(bytes: Vec<u8>) -> (r: Result<String, (Vec<u8>, String)>)
    ensures
        match r {
            Ok(s) => valid_utf8(bytes@) && encode_utf8(s@) == bytes@,
            Err(e) => !valid_utf8(bytes@) && e.0@ == bytes@ && e.1@ == decode_error_text(bytes@),
        },
{
    String::from_utf8(bytes).map_err(|e| {
        let why = e.to_string();
        (e.into_bytes(), why)
    })
}

} // verus!
