//! SHA-256, in one piece and in steps.

use sha2::Digest;
use vstd::prelude::*;

verus! {

/// The SHA-256 digest of a byte sequence.
pub uninterp spec fn sha256_digest(data: Seq<u8>) -> Seq<u8>;

/// A SHA-256 hasher that collects bytes piece by piece. Its inner type,
/// `sha2::Sha256`, is an alias of a type with parameters that cannot be
/// declared on their own.
#[verifier::external_body]
pub struct Hasher {
    inner: sha2::Sha256,
}

/// The bytes that a hasher has taken in so far.
pub uninterp spec fn absorbed(hasher: Hasher) -> Seq<u8>;

/// `Sha256::digest` hashes `data` in one go.
#[verifier::external_body]
pub(crate) fn sha256(data: &[u8]) -> (digest: [u8; 32])
    ensures
        digest@ == sha256_digest(data@),
{
    sha2::Sha256::digest(data).into()
}

/// `Sha256::new` makes a hasher that has taken in nothing.
#[verifier::external_body]
pub(crate) fn hasher_new() -> (hasher: Hasher)
    ensures
        absorbed(hasher) == Seq::<u8>::empty(),
{
    Hasher { inner: sha2::Sha256::new() }
}

/// `Digest::update` appends `data` to what the hasher has taken in.
#[verifier::external_body]
pub(crate) fn hasher_update(hasher: &mut Hasher, data: &[u8])
    ensures
        absorbed(*final(hasher)) == absorbed(*old(hasher)) + data@,
{
    hasher.inner.update(data);
}

/// `Digest::finalize` gives the digest of everything that was taken in.
#[verifier::external_body]
pub(crate) fn hasher_finish(hasher: Hasher) -> (digest: [u8; 32])
    ensures
        digest@ == sha256_digest(absorbed(hasher)),
{
    hasher.inner.finalize().into()
}

/// Whether two 32-byte arrays are equal. Every byte is looked at.
pub fn constant_time_eq(a: &[u8; 32], b: &[u8; 32]) -> (r: bool)
    ensures
        r == (a@ == b@),
{
    let mut acc: u8 = 0;
    let mut i: usize = 0;
    while i < 32
        invariant
            i <= 32,
            acc == 0 <==> (forall|k: int| 0 <= k < i ==> a@[k] == b@[k]),
        decreases 32 - i,
    {
        let x: u8 = a[i];
        let y: u8 = b[i];
        let before: u8 = acc;
        acc = acc | (x ^ y);
        assert((before | (x ^ y)) == 0 <==> (before == 0 && x == y)) by (bit_vector);
        i += 1;
    }
    if acc == 0 {
        assert(a@ =~= b@);
    }
    acc == 0
}

/// Two keys are the same where they agree in every byte.
pub proof fn keys_are_compared_whole(a: [u8; 32], b: [u8; 32], r: bool)
    requires
        call_ensures(constant_time_eq, (&a, &b), r),
    ensures
        r <==> forall|i: int| 0 <= i < 32 ==> #[trigger] a@[i] == b@[i],
{
    if forall|i: int| 0 <= i < 32 ==> #[trigger] a@[i] == b@[i] {
        assert(a@ =~= b@);
    }
}

} // verus!
