//! Verifier: the index-aligned comparison of the reference result against
//! the result read back from the accelerator, reporting every disagreement.

use vstd::prelude::*;

verus! {

/// One disagreement between the reference result and the device result:
/// the index, the expected (reference) value, and the observed (device)
/// value.
#[derive(Clone, Copy, Debug, PartialEq, Eq, Structural)]
pub struct Mismatch {
    /// The position at which the two results differ.
    pub index: usize,
    /// The reference computer's value at that position.
    pub expected: u32,
    /// The accelerator's value at that position.
    pub observed: u32,
}

/// The mismatches among the first `n` positions, in index order: one entry
/// for each position where the two sequences differ, and no other.
pub open spec fn spec_mismatches(expected: Seq<u32>, observed: Seq<u32>, n: int) -> Seq<Mismatch>
    decreases n,
{
    if n <= 0 {
        Seq::empty()
    } else if expected[n - 1] != observed[n - 1] {
        spec_mismatches(expected, observed, n - 1).push(
            Mismatch { index: (n - 1) as usize, expected: expected[n - 1], observed: observed[n - 1] },
        )
    } else {
        spec_mismatches(expected, observed, n - 1)
    }
}

/// Compare the two results element by element and collect every
/// disagreement, in index order.
pub fn verify(expected: &Vec<u32>, observed: &Vec<u32>) -> (r: Vec<Mismatch>)
    requires
        expected@.len() == observed@.len(),
    ensures
        r@ == spec_mismatches(expected@, observed@, expected@.len() as int),
{
    let mut out: Vec<Mismatch> = Vec::new();
    let mut i: usize = 0;
    while i < expected.len()
        invariant
            expected@.len() == observed@.len(),
            i <= expected@.len(),
            out@ == spec_mismatches(expected@, observed@, i as int),
        decreases expected@.len() - i,
    {
        let e = expected[i];
        let o = observed[i];
        if e != o {
            out.push(Mismatch { index: i, expected: e, observed: o });
        }
        i += 1;
    }
    out
}

/// Law: the mismatch list is empty exactly when the two results agree at
/// every position it covers.
pub proof fn lemma_no_mismatches_iff_equal(expected: Seq<u32>, observed: Seq<u32>, n: int)
    requires
        0 <= n,
    ensures
        spec_mismatches(expected, observed, n).len() == 0 <==> (forall|i: int|
            0 <= i < n ==> expected[i] == observed[i]),
    decreases n,
{
    if n > 0 {
        lemma_no_mismatches_iff_equal(expected, observed, n - 1);
    }
}

} // verus!
