//! Trusted boundary to the base64 codec.

use vstd::prelude::*;

verus! {

/// What the standard base64 alphabet (with padding) makes of a text's bytes;
/// a function of the text alone.
pub uninterp spec fn b64_of(s: Seq<char>) -> Seq<char>;

/// What standard base64 decoding reads out of a text, or nothing when the
/// text is not valid base64; a function of the text alone.
pub uninterp spec fn b64_decoded(s: Seq<char>) -> Option<Seq<u8>>;

/// Relies on base64's standard engine `encode`: the output is determined by
/// the input alone.
#[verifier::external_body]
pub(crate) fn b64_encode_str(s: &str) -> (r: String)
    ensures
        r@ == b64_of(s@),
{
    base64::engine::Engine::encode(&base64::engine::general_purpose::STANDARD, s)
}

/// Relies on base64's standard engine `decode`: success and the decoded bytes
/// are determined by the input alone.
#[verifier::external_body]
pub(crate) fn b64_decode_str(s: &str) -> (r: Result<Vec<u8>, base64::DecodeError>)
    ensures
        (r matches Ok(v) ==> b64_decoded(s@) == Some(v@)),
        (r matches Err(_) ==> b64_decoded(s@) is None),
{
    base64::engine::Engine::decode(&base64::engine::general_purpose::STANDARD, s)
}

#[verifier::external_type_specification]
#[verifier::external_body]
pub struct ExB64DecodeError(base64::DecodeError);

} // verus!
