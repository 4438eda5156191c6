//! The double hash by which the host chain names its data.

use vstd::prelude::*;
use sha2::Digest;

verus! {

/// The SHA-256 digest of `data`.
pub uninterp spec fn sha256_digest(data: Seq<u8>) -> Seq<u8>;

/// `sha2::Sha256::digest`: a fresh hasher is fed `data` and finalised.
/// The result is the SHA-256 digest of `data`, which is not proved here.
#[verifier::external_body]
fn sha256(data: &[u8]) -> (digest: [u8; 32])
    ensures
        digest@ == sha256_digest(data@),
{
    sha2::Sha256::digest(data).into()
}

/// The digest of the digest of `data`.
pub open spec fn sha256d_spec(data: Seq<u8>) -> Seq<u8> {
    sha256_digest(sha256_digest(data))
}

/// Hashes `data`, then hashes the 32 bytes that came out.
pub fn sha256d(data: &[u8]) -> (digest: [u8; 32])
    ensures
        digest@ == sha256d_spec(data@),
{
    let data_sha256_hash = sha256(data);
    sha256(data_sha256_hash.as_slice())
}

} // verus!
