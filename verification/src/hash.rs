//! The content hash that tells the instantiations of one definition apart.
use vstd::prelude::*;

verus! {

/// The 64-bit stable hash of a byte string: what `rustc_stable_hash`'s
/// `StableSipHasher128` returns from `Hasher::finish` once it has been fed
/// those bytes. It depends on the bytes alone.
pub uninterp spec fn stable_hash64(bytes: Seq<u8>) -> u64;

/// Feeds `bytes` to a fresh `rustc_stable_hash::StableSipHasher128`
/// (`StableHasher::new`, `Hasher::write`) and takes its 64-bit result
/// (`Hasher::finish`). The hasher starts from fixed keys, so the result is the
/// same for the same bytes in every run.
#[verifier::external_body]
pub(crate) fn hash_bytes(bytes: &Vec<u8>) -> (h: u64)
    ensures
        h == stable_hash64(bytes@),
{
    let mut hasher = rustc_stable_hash::StableSipHasher128::new();
    std::hash::Hasher::write(&mut hasher, bytes.as_slice());
    std::hash::Hasher::finish(&hasher)
}

} // verus!
