use vstd::prelude::*;
use vstd::string::StrSliceExecFns;

use crate::error::SaveError;

verus! {

#[verifier::external_type_specification]
#[verifier::external_body]
pub struct ExDecodeError(base64::DecodeError);

/// The bytes that base64's standard engine (standard alphabet, canonical
/// padding) decodes from `input`, or `None` where it refuses the input.
pub uninterp spec fn standard_decoded(input: Seq<u8>) -> Option<Seq<u8>>;

/// Relies on `base64::Engine::decode` with `base64::engine::general_purpose::STANDARD`:
/// whether it succeeds, and what it returns, depend on the input bytes alone.
#[verifier::external_body]
fn decode_standard(data: &str) -> (r: Result<Vec<u8>, base64::DecodeError>)
    ensures
        match r {
            Ok(v) => standard_decoded(vstd::utf8::encode_utf8(data@)) == Some(v@),
            Err(_) => standard_decoded(vstd::utf8::encode_utf8(data@)) is None,
        },
{
    base64::Engine::decode(&base64::engine::general_purpose::STANDARD, data.as_bytes())
}

/// The bytes to write for a payload: the text's UTF-8 bytes, or, for a base64
/// payload, what it decodes to (`None` where it does not decode).
pub open spec fn payload_bytes(data: Seq<char>, is_base64: bool) -> Option<Seq<u8>> {
    if is_base64 {
        standard_decoded(vstd::utf8::encode_utf8(data))
    } else {
        Some(vstd::utf8::encode_utf8(data))
    }
}

/// The bytes to write for a payload, or `Encoding` with the decoder's
/// diagnostic where a base64 payload does not decode.
pub fn materialize(data: &str, is_base64: bool) -> (r: Result<Vec<u8>, SaveError>)
    ensures
        match r {
            Ok(v) => payload_bytes(data@, is_base64) == Some(v@),
            Err(e) => payload_bytes(data@, is_base64) is None && e is Encoding,
        },
{
    if is_base64 {
        match decode_standard(data) {
            Ok(v) => Ok(v),
            Err(e) => Err(SaveError::Encoding(e.to_string())),
        }
    } else {
        Ok(data.as_bytes_vec())
    }
}

} // verus!
