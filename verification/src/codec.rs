//! The transport encoding of payloads: base64 text, produced and read by the
//! `base64` crate. What that crate computes is not proved here; the
//! contracts of the two calls below are what the rest of the library takes
//! on trust about it.

use vstd::prelude::*;

verus! {

/// The error `base64::decode` reports. Its variants are not inspected here.
#[verifier::external_type_specification]
#[verifier::external_body]
pub struct ExDecodeError(base64::DecodeError);

/// The bytes that `base64::decode` yields for `text`, or `None` where it
/// reports an error. Decoding reads nothing but its input, so one text always
/// has one result.
pub uninterp spec fn base64_decoding(text: Seq<char>) -> Option<Seq<u8>>;

/// The text that `base64::encode` yields for `bytes`.
pub uninterp spec fn base64_encoding(bytes: Seq<u8>) -> Seq<char>;

/// The length of the padded base64 text for `len` bytes: four symbols for
/// every three bytes or part thereof.
pub open spec fn encoded_len(len: nat) -> nat {
    4 * ((len + 2) / 3)
}

/// A payload of `len` bytes can be encoded: its text fits in one allocation.
pub open spec fn encodable(len: nat) -> bool {
    encoded_len(len) <= isize::MAX
}

/// Whether a payload of `len` bytes can be encoded.
pub fn is_encodable(len: usize) -> (ok: bool)
    ensures
        ok == encodable(len as nat),
{
    len <= (isize::MAX as usize / 4) * 3
}

/// Calls `base64::decode` (standard alphabet). Claims only that the outcome
/// is the one named by [`base64_decoding`]: `Ok` with those bytes, or `Err`
/// exactly when there are none. The crate's length computations cannot
/// overflow for a text that is in memory.
#[verifier::external_body]
pub(crate) fn decode_base64(text: &str) -> (decoded: Result<Vec<u8>, base64::DecodeError>)
    ensures
        match decoded {
            Ok(bytes) => base64_decoding(text@) == Some(bytes@),
            Err(_) => base64_decoding(text@) is None,
        },
{
    base64::decode(text)
}

/// Calls `base64::encode` (standard alphabet, padded). Claims only that the
/// text is the one named by [`base64_encoding`]. The crate allocates the
/// whole text at once and panics where that is more than an allocation can
/// hold, so such payloads are left out.
#[verifier::external_body]
pub(crate) fn encode_base64(bytes: &[u8]) -> (text: String)
    requires
        encodable(bytes@.len()),
    ensures
        text@ == base64_encoding(bytes@),
{
    base64::encode(bytes)
}

} // verus!
