//! The running BLAKE3 digest that checkpoints are made of.
//!
//! BLAKE3 itself is the `blake3` crate's; nothing of it is proved here. This
//! file gives the crate's incremental hasher the contracts that the writer
//! and the reader are verified against.

use vstd::prelude::*;

verus! {

/// Number of bytes in a digest.
pub const HASH_LEN: usize = 32;

/// A BLAKE3 digest.
pub type Hash = [u8; 32];

/// `blake3::Hasher`, the incremental hash state. Verus sees nothing inside.
#[verifier::external_type_specification]
#[verifier::external_body]
pub struct ExHasher(blake3::Hasher);

/// The BLAKE3 hash of `data`: what `blake3::Hasher::finalize` returns once
/// a hasher of the regular hash function has been fed these bytes, in any
/// number of pieces.
pub uninterp spec fn blake3_digest(data: Seq<u8>) -> Hash;

/// The bytes that `h` has been fed since it was made or last reset.
pub uninterp spec fn hasher_input(h: blake3::Hasher) -> Seq<u8>;

/// Whether `h` computes the regular hash function from the start of its
/// input: made by `blake3::Hasher::new`, with no key, no key derivation
/// context and no input offset.
pub uninterp spec fn hasher_regular(h: blake3::Hasher) -> bool;

/// Calls `blake3::Hasher::new`, which makes a hasher of the regular hash
/// function that has been fed nothing.
#[verifier::external_body]
pub(crate) fn hasher_new() -> (h: blake3::Hasher)
    ensures
        hasher_regular(h),
        hasher_input(h) == Seq::<u8>::empty(),
{
    blake3::Hasher::new()
}

/// Calls `blake3::Hasher::update`, which adds `data` to what the hasher has
/// been fed and leaves its kind as it was. With a hasher that has an input
/// offset the outside function may panic, so only regular ones are taken.
#[verifier::external_body]
pub(crate) fn hasher_update(h: &mut blake3::Hasher, data: &[u8])
    requires
        hasher_regular(*old(h)),
    ensures
        hasher_regular(*final(h)),
        hasher_input(*final(h)) == hasher_input(*old(h)) + data@,
{
    h.update(data);
}

/// Calls `blake3::Hasher::finalize`, which returns the hash of everything
/// the hasher has been fed and leaves the hasher as it is. The outside
/// function panics on a hasher with an input offset, and a keyed hasher
/// computes another function: only regular ones are taken.
#[verifier::external_body]
pub(crate) fn hasher_finalize(h: &blake3::Hasher) -> (digest: Hash)
    requires
        hasher_regular(*h),
    ensures
        digest == blake3_digest(hasher_input(*h)),
{
    *h.finalize().as_bytes()
}

/// Calls `blake3::Hasher::reset`, which puts the hasher back into its
/// initial state, as if newly made with the same key (here: none).
#[verifier::external_body]
pub(crate) fn hasher_reset(h: &mut blake3::Hasher)
    requires
        hasher_regular(*old(h)),
    ensures
        hasher_regular(*final(h)),
        hasher_input(*final(h)) == Seq::<u8>::empty(),
{
    h.reset();
}

} // verus!
