//! SHA-256 digests in lower-case hex, as the plugin names projects and
//! fingerprints transcripts.
use vstd::prelude::*;
use sha2::{Digest, Sha256};
use crate::text::{hex_lower, to_hex_lower, utf8};

verus! {

/// The SHA-256 digest of `data` (a name for what `sha2` computes).
pub uninterp spec fn sha256_digest(data: Seq<u8>) -> Seq<u8>;

/// Calls `Sha256::new`, `update` and `finalize` of the `sha2` crate. Trusted to
/// return the digest of `data`, named [`sha256_digest`], and to be 32 bytes long.
#[verifier::external_body]
fn sha256(data: &[u8]) -> (r: Vec<u8>)
    ensures
        r@ == sha256_digest(data@),
        r@.len() == 32,
{
    let mut h = Sha256::new();
    h.update(data);
    h.finalize().to_vec()
}

/// The lower-case hex SHA-256 digest of `data` (64 ASCII bytes).
pub fn sha256_hex(data: &[u8]) -> (r: Vec<u8>)
    ensures
        r@ == hex_lower(sha256_digest(data@)),
        r@.len() == 64,
{
    let d = sha256(data);
    to_hex_lower(d.as_slice())
}

/// The name of a project: the hex SHA-256 digest of its canonical root path.
pub fn root_hash(root: &str) -> (r: Vec<u8>)
    ensures
        r@ == hex_lower(sha256_digest(utf8(root@))),
        r@.len() == 64,
{
    sha256_hex(root.as_bytes())
}

} // verus!
