//! Deterministic source generator: a reproducible sequence of 32-bit words
//! drawn from a ChaCha8 stream cipher seeded with a fixed 64-bit seed.

use vstd::prelude::*;
use rand::Rng;
use rand_core::SeedableRng;

verus! {

/// The sequence of `n` 32-bit words that a ChaCha8 generator seeded from
/// `seed` produces. ChaCha8 is a stream cipher, so this sequence is a
/// bit-reproducible function of the seed alone, on every platform and run.
pub uninterp spec fn chacha8_stream(seed: u64, n: int) -> Seq<u32>;

/// Relies on rand_chacha's `ChaCha8Rng`, seeded through rand_core's
/// `SeedableRng::seed_from_u64` and drawn through rand's `Rng::gen::<u32>`
/// (one `next_u32` of the cipher per word): ChaCha8 is a deterministic
/// stream cipher, so the words drawn are a function of the seed and of how
/// many were drawn before.
#[verifier::external_body]
fn chacha8_words(seed: u64, n: usize) -> (r: Vec<u32>)
    ensures
        r@.len() == n,
        r@ == chacha8_stream(seed, n as int),
{
    let mut rng = rand_chacha::ChaCha8Rng::seed_from_u64(seed);
    let mut out: Vec<u32> = Vec::with_capacity(n);
    for _ in 0..n {
        out.push(rng.gen());
    }
    out
}

/// Produce the input array for one run: `len` pseudo-random 32-bit words,
/// fully determined by `seed`.
pub fn generate_input(seed: u64, len: usize) -> (r: Vec<u32>)
    ensures
        r@.len() == len,
        r@ == chacha8_stream(seed, len as int),
{
    chacha8_words(seed, len)
}

/// Law: the source generator is deterministic. Two sequences drawn with the
/// same seed and the same length are equal, because each is the same
/// function of the seed.
pub proof fn lemma_source_deterministic(a: Seq<u32>, b: Seq<u32>, seed: u64, n: int)
    requires
        a == chacha8_stream(seed, n),
        b == chacha8_stream(seed, n),
    ensures
        a == b,
{
}

} // verus!
