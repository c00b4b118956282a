//! Flash-integrity checking: byte-for-byte comparison of read-back data
//! against expected contents, and a SHA-256 digest of the whole image for a
//! final check against a build-embedded hash. The driver that reads flash
//! over the debug link retries outside this module; everything it computes on
//! the bytes it read lives here.

use vstd::prelude::*;
use sha2::Digest;

verus! {

/// SHA-256 of a byte sequence, as the digest crate computes it: a pure
/// function of the input bytes alone.
pub uninterp spec fn sha256_of(data: Seq<u8>) -> Seq<u8>;

/// Relies on sha2::Sha256::digest: the SHA-256 of the input bytes, 32 bytes,
/// depending on the input alone.
#[verifier::external_body]
fn sha256(data: &Vec<u8>) -> (r: Vec<u8>)
    ensures
        r@ == sha256_of(data@),
        r@.len() == 32,
{
    sha2::Sha256::digest(data.as_slice()).to_vec()
}

/// First mismatch between two equal-length byte slices: the index together
/// with the differing bytes from each side, or nothing when they agree
/// everywhere.
pub fn cmp(a: &[u8], b: &[u8]) -> (r: Option<(usize, u8, u8)>)
    requires
        a@.len() == b@.len(),
    ensures
        r is None ==> a@ == b@,
        r matches Some((i, x, y)) ==> {
            &&& i < a@.len()
            &&& a@[i as int] == x
            &&& b@[i as int] == y
            &&& x != y
            &&& forall|j: int| 0 <= j < i ==> a@[j] == b@[j]
        },
{
    let mut i: usize = 0;
    while i < a.len()
        invariant
            i <= a@.len(),
            a@.len() == b@.len(),
            forall|j: int| 0 <= j < i ==> a@[j] == b@[j],
        decreases a@.len() - i,
    {
        if a[i] != b[i] {
            return Some((i, a[i], b[i]));
        }
        i = i + 1;
    }
    proof {
        assert(a@ =~= b@);
    }
    None
}

/// The SHA-256 digest of a full image, for publication in a diagnostic
/// record once a pass over flash completes.
pub fn image_digest(image: &Vec<u8>) -> (r: Vec<u8>)
    ensures
        r@ == sha256_of(image@),
        r@.len() == 32,
{
    sha256(image)
}

/// Whether the image hashes to exactly the expected digest.
pub fn verify_image(image: &Vec<u8>, expected: &[u8]) -> (ok: bool)
    ensures
        ok == (sha256_of(image@) == expected@),
{
    let d = sha256(image);
    if d.len() != expected.len() {
        proof {
            assert(sha256_of(image@).len() != expected@.len());
        }
        return false;
    }
    match cmp(d.as_slice(), expected) {
        None => true,
        Some((i, x, y)) => {
            proof {
                assert(sha256_of(image@)[i as int] == x && expected@[i as int] == y);
            }
            false
        }
    }
}

} // verus!
