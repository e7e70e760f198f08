//! SHA-256 digests of artifact contents (the `sha2` crate).
use vstd::prelude::*;
use sha2::Digest;
use crate::hex::{hex_lower, is_lower_hex_char, to_hex_lower};

verus! {

/// The SHA-256 digest of a byte string, as the `sha2` crate computes it.
pub uninterp spec fn sha256(data: Seq<u8>) -> Seq<u8>;

/// Calls `<sha2::Sha256 as Digest>::digest` on `data`. Trusted: the result is
/// the SHA-256 digest of `data` (named `sha256`), 32 bytes long, since the
/// output type of `Sha256` is a 32-byte array.
#[verifier::external_body]
fn sha256_digest(data: &[u8]) -> (res: Vec<u8>)
    ensures
        res@ == sha256(data@),
        res@.len() == 32,
{
    sha2::Sha256::digest(data).to_vec()
}

/// The digest text recorded for an artifact: the SHA-256 digest of its bytes
/// in lower-case hex.
pub open spec fn digest_text(data: Seq<u8>) -> Seq<char> {
    hex_lower(sha256(data))
}

/// Computes the lower-case hex SHA-256 digest of `data`.
pub fn sha256_hex(data: &[u8]) -> (res: String)
    ensures
        res@ == digest_text(data@),
        res@.len() == 64,
        forall|i: int| 0 <= i < 64 ==> is_lower_hex_char(#[trigger] res@[i]),
{
    let d = sha256_digest(data);
    proof {
        crate::hex::lemma_hex_shape(d@);
    }
    to_hex_lower(d.as_slice())
}

} // verus!
