//! The encoding of names in the identifiers of menu items: base64 with the
//! standard alphabet and padding, as the `base64` crate computes it.

use vstd::prelude::*;
use vstd::string::StringSliceAdditionalSpecFns;
use vstd::utf8::{decode_utf8, valid_utf8};
use base64::engine::general_purpose::STANDARD;
use base64::{DecodeError, Engine};

verus! {

/// The error of the `base64` crate's decoding. Nothing of its inside is
/// known here.
#[verifier::external_type_specification]
#[verifier::external_body]
pub struct ExDecodeError(DecodeError);

/// The longest input that is encoded, in bytes. The encoding of an input
/// within this bound is within the size of an allocation on every machine.
pub const MAX_NAME_BYTES: usize = 0x3fff_ffff;

/// The text that `STANDARD.encode` gives for these bytes.
pub uninterp spec fn base64_text(input: Seq<u8>) -> Seq<char>;

/// The bytes that `STANDARD.decode` gives for these bytes of text, or
/// nothing where it gives an error.
pub uninterp spec fn base64_bytes(input: Seq<u8>) -> Option<Seq<u8>>;

pub open spec fn decoded_view(decoded: Result<Vec<u8>, DecodeError>) -> Option<Seq<u8>> {
    match decoded {
        Ok(bytes) => Some(bytes@),
        Err(_) => None,
    }
}

/// The text that valid UTF-8 stands for; nothing for other bytes.
pub open spec fn spec_text_of(bytes: Seq<u8>) -> Option<Seq<char>> {
    if valid_utf8(bytes) {
        Some(decode_utf8(bytes))
    } else {
        None
    }
}

/// `Engine::encode` of `STANDARD` on the bytes of a text. The input is
/// bounded because the crate panics where the length of the encoding, four
/// bytes for every three of the input, cannot be computed or allocated.
#[verifier::external_body]
pub(crate) fn encode(text: &str) -> (code: String)
    requires
        text.spec_bytes().len() <= MAX_NAME_BYTES,
    ensures
        code@ == base64_text(text.spec_bytes()),
{
    STANDARD.encode(text)
}

/// `Engine::decode` of `STANDARD`.
#[verifier::external_body]
pub(crate) fn decode(code: &[u8]) -> (decoded: Result<Vec<u8>, DecodeError>)
    ensures
        decoded_view(decoded) == base64_bytes(code@),
{
    STANDARD.decode(code)
}

/// `String::from_utf8`: the text of bytes that are valid UTF-8, and nothing
/// for bytes that are not.
#[verifier::external_body]
pub(crate) fn text_of(bytes: Vec<u8>) -> (text: Option<String>)
    ensures
        crate::text::text_option(text) == spec_text_of(bytes@),
{
    String::from_utf8(bytes).ok()
}

} // verus!
