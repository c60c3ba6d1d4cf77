use vstd::prelude::*;
use vstd::slice::slice_to_vec;
use vstd::utf8::{decode_utf8, encode_utf8, encode_utf8_decode_utf8, encode_utf8_valid_utf8, valid_utf8};
use crate::codec::{ContentType, Decodes, Encodes, RoundTrip};

verus! {

/// Encodes a `String` as its UTF-8 bytes.
pub struct Text;

/// Passes a body of bytes through as it is.
pub struct Octets;

impl ContentType for Text {
    open spec fn spec_content_type() -> Seq<char> {
        "text/plain; charset=utf-8"@
    }

    fn content_type() -> (r: &'static str) {
        "text/plain; charset=utf-8"
    }
}

impl ContentType for Octets {
    open spec fn spec_content_type() -> Seq<char> {
        "application/octet-stream"@
    }

    fn content_type() -> (r: &'static str) {
        "application/octet-stream"
    }
}

/// The description with which `String::from_utf8` rejects `bytes`.
pub uninterp spec fn utf8_error_text(bytes: Seq<u8>) -> Seq<char>;

/// Relies on `String::from_utf8`: it accepts exactly the well-formed UTF-8 byte
/// sequences and then holds the characters they encode; on a rejection, the
/// text of its error (where the bad sequence starts) depends on the bytes alone.
#[verifier::external_body]
fn string_from_utf8(bytes: Vec<u8>) -> (r: Result<String, String>)
    ensures
        match r {
            Ok(s) => valid_utf8(bytes@) && s@ == decode_utf8(bytes@),
            Err(d) => !valid_utf8(bytes@) && d@ == utf8_error_text(bytes@),
        },
{
    String::from_utf8(bytes).map_err(|e| e.to_string())
}

impl Encodes<String> for Text {
    open spec fn spec_encode(value: Seq<char>) -> Result<Seq<u8>, Seq<char>> {
        Ok(encode_utf8(value))
    }

    fn encode(value: String) -> (r: Result<Vec<u8>, String>) {
        Ok(slice_to_vec(value.as_str().as_bytes()))
    }
}

impl Decodes<String> for Text {
    open spec fn spec_decode(bytes: Seq<u8>) -> Result<Seq<char>, Seq<char>> {
        if valid_utf8(bytes) {
            Ok(decode_utf8(bytes))
        } else {
            Err(utf8_error_text(bytes))
        }
    }

    fn decode(bytes: Vec<u8>) -> (r: Result<String, String>) {
        string_from_utf8(bytes)
    }
}

impl RoundTrip<String> for Text {
    proof fn lemma_decode_encode(value: Seq<char>) {
        encode_utf8_valid_utf8(value);
        encode_utf8_decode_utf8(value);
    }
}

impl Encodes<Vec<u8>> for Octets {
    open spec fn spec_encode(value: Seq<u8>) -> Result<Seq<u8>, Seq<char>> {
        Ok(value)
    }

    fn encode(value: Vec<u8>) -> (r: Result<Vec<u8>, String>) {
        Ok(value)
    }
}

impl Decodes<Vec<u8>> for Octets {
    open spec fn spec_decode(bytes: Seq<u8>) -> Result<Seq<u8>, Seq<char>> {
        Ok(bytes)
    }

    fn decode(bytes: Vec<u8>) -> (r: Result<Vec<u8>, String>) {
        Ok(bytes)
    }
}

impl RoundTrip<Vec<u8>> for Octets {
    proof fn lemma_decode_encode(value: Seq<u8>) {
    }
}

} // verus!
