//! The digest and Base64 functions that fingerprints and passwords are
//! made of, provided by `sha2` and `base64`.
use vstd::prelude::*;

use base64::Engine as _;
use sha2::Digest as _;

verus! {

/// The SHA-256 digest of a byte string.
pub uninterp spec fn sha256(data: Seq<u8>) -> Seq<u8>;

/// Base64 with the standard alphabet and `=` padding.
pub uninterp spec fn base64_standard(data: Seq<u8>) -> Seq<char>;

/// What Base64 decoding with the standard alphabet yields, if the text is
/// well formed.
pub uninterp spec fn base64_standard_decoded(text: Seq<char>) -> Option<Seq<u8>>;

/// Base64 with the URL-safe alphabet and no padding.
pub uninterp spec fn base64_url_safe_no_pad(data: Seq<u8>) -> Seq<char>;

/// `sha2::Sha256::digest`: the digest of `data`, which is 32 bytes long
/// (its output type is `GenericArray<u8, U32>`).
#[verifier::external_body]
pub(crate) fn sha256_digest(data: &[u8]) -> (r: Vec<u8>)
    ensures
        r@ == sha256(data@),
        r@.len() == 32,
{
    sha2::Sha256::digest(data).to_vec()
}

/// `base64::engine::general_purpose::STANDARD.encode`. The text it writes
/// decodes back to the same bytes with the same engine: the crate's
/// round-trip tests and fuzz targets check exactly this.
#[verifier::external_body]
pub(crate) fn encode_base64_standard(data: &[u8]) -> (r: String)
    ensures
        r@ == base64_standard(data@),
        base64_standard_decoded(r@) == Some(data@),
{
    base64::engine::general_purpose::STANDARD.encode(data)
}

/// `base64::engine::general_purpose::STANDARD.decode`; on failure the
/// error's `Display` text, of which nothing is stated.
#[verifier::external_body]
pub(crate) fn decode_base64_standard(text: &str) -> (r: Result<Vec<u8>, String>)
    ensures
        r is Ok <==> base64_standard_decoded(text@) is Some,
        r matches Ok(v) ==> base64_standard_decoded(text@) == Some(v@),
{
    match base64::engine::general_purpose::STANDARD.decode(text) {
        Ok(v) => Ok(v),
        Err(e) => Err(e.to_string()),
    }
}

/// `base64::engine::general_purpose::URL_SAFE_NO_PAD.encode`.
#[verifier::external_body]
pub(crate) fn encode_base64_url_safe_no_pad(data: &[u8]) -> (r: String)
    ensures
        r@ == base64_url_safe_no_pad(data@),
{
    base64::engine::general_purpose::URL_SAFE_NO_PAD.encode(data)
}

} // verus!
