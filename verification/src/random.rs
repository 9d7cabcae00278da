//! Chance: the only sources of randomness the decision logic uses.

use vstd::prelude::*;
use rand::seq::IteratorRandom;

verus! {

/// `rand::random_ratio`: true with probability numerator / denominator.
/// Its documentation guarantees `false` for a zero numerator and `true` when
/// the numerator equals the denominator; it panics for a zero denominator or
/// a numerator above the denominator, which `requires` excludes.
#[verifier::external_body]
pub(crate) fn chance(numerator: u32, denominator: u32) -> (r: bool)
    requires
        0 < denominator,
        numerator <= denominator,
    ensures
        numerator == 0 ==> !r,
        numerator == denominator ==> r,
{
    rand::random_ratio(numerator, denominator)
}

/// `rand::random_range` over `0..n`: an index drawn uniformly below `n`. It
/// panics on an empty range, which `requires` excludes. Which index comes
/// out is not stated.
#[verifier::external_body]
pub(crate) fn random_index(n: usize) -> (r: usize)
    requires n > 0,
    ensures r < n,
{
    rand::random_range(0..n)
}

/// A version-4 (random) identifier in the RFC 4122 variant, read as a
/// big-endian 128-bit value: version nibble 4, variant bits `10`.
pub open spec fn is_v4_id(r: u128) -> bool {
    &&& (r >> 76u128) & 0xfu128 == 4
    &&& (r >> 62u128) & 0x3u128 == 2
}

/// `uuid::Uuid::new_v4`: a fresh random identifier, as its 128-bit value.
/// uuid's source masks a random number so that the version nibble is 4 and
/// the variant bits are `10`; that is all that is stated, the other 122
/// bits are random.
#[verifier::external_body]
pub(crate) fn new_uuid() -> (r: u128)
    ensures is_v4_id(r),
{
    uuid::Uuid::new_v4().as_u128()
}

/// `IteratorRandom::choose_multiple` over the positions `0..n`: `amount`
/// distinct positions drawn at random, or all of them when there are
/// fewer. rand's documentation and source give the length and that each
/// position is taken at most once; which positions come out, and in what
/// order, is not stated.
#[verifier::external_body]
pub(crate) fn sample_positions(n: usize, amount: usize) -> (r: Vec<usize>)
    ensures
        r@.len() == if amount < n { amount } else { n },
        forall|i: int| 0 <= i < r@.len() ==> #[trigger] r@[i] < n,
        r@.no_duplicates(),
{
    (0..n).choose_multiple(&mut rand::rng(), amount)
}

} // verus!
