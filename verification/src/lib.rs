//! Correctness harness for a bucket-offset compute primitive.
//!
//! Given an array of unsigned 32-bit integers, each element's bucket is its
//! low 6 bits (one of 64 buckets). The bucket-offset primitive maps every
//! element to the starting offset its value's bucket would occupy in a stable
//! counting-sort ordering. This crate holds the verified host side of the
//! harness: the deterministic input generator, the reference computation
//! (histogram, exclusive prefix sum, offset lookup), and the verifier that
//! compares the reference result against the bytes read back from an
//! accelerator device.

use vstd::prelude::*;

pub mod compare;
pub mod generator;
pub mod harness;
pub mod reference;

verus! {

/// The bucket a value falls in: its low 6 bits.
pub open spec fn bucket_of(x: u32) -> int {
    (x & 63) as int
}

/// Every bucket index lies in `0..64`.
pub proof fn lemma_bucket_in_range(x: u32)
    ensures
        0 <= bucket_of(x) < 64,
{
    assert(x & 63 < 64) by (bit_vector);
}

} // verus!
