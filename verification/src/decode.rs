//! Decoding a single entry's payload: decompression according to the
//! declared method, then validation and canonical rendering of the
//! structured content.

use vstd::prelude::*;

verus! {

/// Compression method for a payload stored verbatim.
pub const METHOD_STORED: u16 = 0;

/// Compression method for a payload compressed with DEFLATE.
pub const METHOD_DEFLATE: u16 = 8;

/// The bytes that DEFLATE decompression yields for a compressed stream:
/// the decoded bytes when the stream is well formed, nothing when
/// decompression fails. The outcome depends on the input bytes alone.
pub uninterp spec fn inflate_of(compressed: Seq<u8>) -> Option<Seq<u8>>;

/// The canonical text of the structured value the given bytes encode:
/// the value's canonical serialization when the bytes are a well-formed
/// document, nothing when they are not. The outcome depends on the input
/// bytes alone.
pub uninterp spec fn json_canon_of(bytes: Seq<u8>) -> Option<Seq<char>>;

/// Relies on miniz_oxide::inflate::decompress_to_vec: decompresses a raw
/// DEFLATE stream, a pure function of the input bytes; it returns the
/// decompressed bytes, or an error for a malformed stream.
#[verifier::external_body]
fn inflate(compressed: &[u8]) -> (r: Option<Vec<u8>>)
    ensures
        r is Some <==> inflate_of(compressed@) is Some,
        r matches Some(v) ==> inflate_of(compressed@) == Some(v@),
{
    miniz_oxide::inflate::decompress_to_vec(compressed).ok()
}

/// Relies on serde_json::from_slice::<Value>, which decides whether the
/// bytes are one well-formed JSON document and parses it, and on
/// serde_json::to_string, which renders the parsed value canonically;
/// both are pure functions of the input bytes.
#[verifier::external_body]
fn json_canonical(bytes: &[u8]) -> (r: Option<String>)
    ensures
        r is Some <==> json_canon_of(bytes@) is Some,
        r matches Some(s) ==> json_canon_of(bytes@) == Some(s@),
{
    match serde_json::from_slice::<serde_json::Value>(bytes) {
        Ok(value) => serde_json::to_string(&value).ok(),
        Err(_) => None,
    }
}

/// The view of an optional owned string.
pub open spec fn opt_string_view(o: Option<String>) -> Option<Seq<char>> {
    match o {
        Some(s) => Some(s@),
        None => None,
    }
}

/// The value a payload region yields under a compression method: the
/// canonical text of the region itself when stored, of the inflated
/// bytes when compressed with DEFLATE, and nothing for an unsupported
/// method, a failed decompression, or malformed content.
pub open spec fn spec_payload_value(method: int, region: Seq<u8>) -> Option<Seq<char>> {
    if method == METHOD_STORED as int {
        json_canon_of(region)
    } else if method == METHOD_DEFLATE as int {
        match inflate_of(region) {
            Some(d) => json_canon_of(d),
            None => None,
        }
    } else {
        None
    }
}

/// Decodes one payload region under the declared compression method and
/// renders its structured content canonically, or yields nothing when
/// the method is unsupported, the stream is corrupt, or the content is
/// not well formed.
pub fn decode_payload(method: u16, region: &[u8]) -> (r: Option<String>)
    ensures
        opt_string_view(r) == spec_payload_value(method as int, region@),
{
    if method == METHOD_STORED {
        json_canonical(region)
    } else if method == METHOD_DEFLATE {
        match inflate(region) {
            Some(d) => json_canonical(d.as_slice()),
            None => None,
        }
    } else {
        None
    }
}

} // verus!
