//! Reference computer: the host-side ground truth for the bucket-offset
//! primitive. A histogram over the 64 buckets, its exclusive prefix sum
//! (the offset table), and the per-element offset lookup.

use vstd::prelude::*;
use crate::bucket_of;
use crate::lemma_bucket_in_range;

verus! {

/// How many elements of `input` fall in bucket `k`.
pub open spec fn count_bucket(input: Seq<u32>, k: int) -> nat
    decreases input.len(),
{
    if input.len() == 0 {
        0
    } else {
        count_bucket(input.drop_last(), k) + if bucket_of(input.last()) == k {
            1nat
        } else {
            0nat
        }
    }
}

/// The sum of the bucket counts of `input` over buckets `0..k`: the number
/// of elements that fall in a bucket strictly below `k`.
pub open spec fn sum_counts(input: Seq<u32>, k: int) -> nat
    decreases k,
{
    if k <= 0 {
        0
    } else {
        sum_counts(input, k - 1) + count_bucket(input, k - 1)
    }
}

/// The sum of the first `k` entries of a sequence: entry `k` of the
/// exclusive prefix sum of `s`.
pub open spec fn prefix_sum(s: Seq<u32>, k: int) -> int
    decreases k,
{
    if k <= 0 {
        0
    } else {
        prefix_sum(s, k - 1) + s[k - 1]
    }
}

/// The reference offset of element `i`: the number of input elements that
/// fall in a strictly smaller bucket than `input[i]` does.
pub open spec fn reference_result(input: Seq<u32>, i: int) -> nat {
    sum_counts(input, bucket_of(input[i]))
}

/// A bucket's count never exceeds the input length.
pub proof fn lemma_count_le_len(input: Seq<u32>, k: int)
    ensures
        count_bucket(input, k) <= input.len(),
    decreases input.len(),
{
    if input.len() > 0 {
        lemma_count_le_len(input.drop_last(), k);
    }
}

/// Appending one element raises exactly its own bucket's count by one.
proof fn lemma_count_push(input: Seq<u32>, x: u32, k: int)
    ensures
        count_bucket(input.push(x), k) == count_bucket(input, k) + if bucket_of(x) == k {
            1int
        } else {
            0int
        },
{
    assert(input.push(x).drop_last() =~= input);
}

/// Appending one element raises the partial sum over buckets `0..k` by one
/// exactly when its bucket lies below `k`.
proof fn lemma_sum_counts_push(input: Seq<u32>, x: u32, k: int)
    ensures
        sum_counts(input.push(x), k) == sum_counts(input, k) + if bucket_of(x) < k {
            1int
        } else {
            0int
        },
    decreases k,
{
    if k > 0 {
        lemma_sum_counts_push(input, x, k - 1);
        lemma_count_push(input, x, k - 1);
    }
}

proof fn lemma_sum_counts_empty(k: int)
    ensures
        sum_counts(Seq::<u32>::empty(), k) == 0,
    decreases k,
{
    if k > 0 {
        lemma_sum_counts_empty(k - 1);
    }
}

/// Law: histogram conservation. The 64 bucket counts of an input sum to its
/// length: every element lands in exactly one bucket.
pub proof fn lemma_histogram_conservation(input: Seq<u32>)
    ensures
        sum_counts(input, 64) == input.len(),
    decreases input.len(),
{
    if input.len() == 0 {
        assert(input =~= Seq::<u32>::empty());
        lemma_sum_counts_empty(64);
    } else {
        let prefix = input.drop_last();
        let x = input.last();
        lemma_histogram_conservation(prefix);
        lemma_sum_counts_push(prefix, x, 64);
        lemma_bucket_in_range(x);
        assert(prefix.push(x) =~= input);
    }
}

/// Law: offset-table monotonicity. The exclusive prefix sum starts at zero
/// and never decreases from one entry to the next.
pub proof fn lemma_offsets_monotone(hist: Seq<u32>, k: int)
    requires
        0 <= k,
        k + 1 <= hist.len(),
    ensures
        prefix_sum(hist, 0) == 0,
        prefix_sum(hist, k) <= prefix_sum(hist, k + 1),
{
}

/// Partial sums of a sequence of unsigned entries are non-decreasing.
proof fn lemma_prefix_sum_le(s: Seq<u32>, j: int, k: int)
    requires
        0 <= j <= k <= s.len(),
    ensures
        prefix_sum(s, j) <= prefix_sum(s, k),
    decreases k,
{
    if j < k {
        lemma_prefix_sum_le(s, j, k - 1);
    }
}

/// When `hist` holds the bucket counts of `input`, the prefix sums of the
/// two presentations agree.
proof fn lemma_prefix_sum_matches(input: Seq<u32>, hist: Seq<u32>, k: int)
    requires
        0 <= k <= 64,
        hist.len() == 64,
        forall|j: int| 0 <= j < 64 ==> hist[j] == count_bucket(input, j),
    ensures
        prefix_sum(hist, k) == sum_counts(input, k),
    decreases k,
{
    if k > 0 {
        lemma_prefix_sum_matches(input, hist, k - 1);
    }
}

/// Build the histogram: one pass over the input, incrementing the bucket
/// counter selected by the low 6 bits of each element.
pub fn histogram(input: &Vec<u32>) -> (r: Vec<u32>)
    requires
        input@.len() <= u32::MAX,
    ensures
        r@.len() == 64,
        forall|k: int| 0 <= k < 64 ==> r@[k] == count_bucket(input@, k),
{
    let mut hist: Vec<u32> = Vec::new();
    let mut j: usize = 0;
    while j < 64
        invariant
            j <= 64,
            hist@.len() == j,
            forall|k: int| 0 <= k < j ==> hist@[k] == 0,
        decreases 64 - j,
    {
        hist.push(0);
        j += 1;
    }
    let mut i: usize = 0;
    while i < input.len()
        invariant
            input@.len() <= u32::MAX,
            i <= input@.len(),
            hist@.len() == 64,
            forall|k: int| 0 <= k < 64 ==> hist@[k] == count_bucket(input@.subrange(0, i as int), k),
        decreases input@.len() - i,
    {
        let x = input[i];
        proof {
            lemma_bucket_in_range(x);
            lemma_count_le_len(input@.subrange(0, i as int), bucket_of(x));
            assert(input@.subrange(0, i as int + 1).drop_last() =~= input@.subrange(0, i as int));
        }
        let b = (x & 63) as usize;
        let hb = hist[b];
        hist.set(b, hb + 1);
        i += 1;
        proof {
            assert forall|k: int| 0 <= k < 64 implies hist@[k] == count_bucket(
                input@.subrange(0, i as int),
                k,
            ) by {
                assert(input@.subrange(0, i as int).drop_last() =~= input@.subrange(
                    0,
                    i as int - 1,
                ));
            };
        }
    }
    proof {
        assert(input@.subrange(0, input@.len() as int) =~= input@);
    }
    hist
}

/// Exclusive prefix sum of the histogram: the offset table. Entry `k` is
/// the sum of all strictly-prior histogram entries; entry 0 is zero.
pub fn exclusive_scan(hist: &Vec<u32>) -> (r: Vec<u32>)
    requires
        prefix_sum(hist@, hist@.len() as int) <= u32::MAX,
    ensures
        r@.len() == hist@.len(),
        forall|k: int| 0 <= k < hist@.len() ==> r@[k] == prefix_sum(hist@, k),
{
    let mut out: Vec<u32> = Vec::new();
    let mut total: u32 = 0;
    let mut k: usize = 0;
    while k < hist.len()
        invariant
            prefix_sum(hist@, hist@.len() as int) <= u32::MAX,
            k <= hist@.len(),
            out@.len() == k,
            total == prefix_sum(hist@, k as int),
            forall|j: int| 0 <= j < k ==> out@[j] == prefix_sum(hist@, j),
        decreases hist@.len() - k,
    {
        out.push(total);
        proof {
            lemma_prefix_sum_le(hist@, k as int + 1, hist@.len() as int);
            lemma_prefix_sum_le(hist@, 0, k as int + 1);
        }
        total = total + hist[k];
        k += 1;
    }
    out
}

/// Per-element lookup: each element's result is its bucket's entry in the
/// offset table. A pure function of the input and the offset table.
pub fn apply_offsets(input: &Vec<u32>, offsets: &Vec<u32>) -> (r: Vec<u32>)
    requires
        offsets@.len() == 64,
    ensures
        r@.len() == input@.len(),
        forall|i: int| 0 <= i < input@.len() ==> r@[i] == offsets@[bucket_of(input@[i])],
{
    let mut out: Vec<u32> = Vec::new();
    let mut i: usize = 0;
    while i < input.len()
        invariant
            offsets@.len() == 64,
            i <= input@.len(),
            out@.len() == i,
            forall|j: int| 0 <= j < i ==> out@[j] == offsets@[bucket_of(input@[j])],
        decreases input@.len() - i,
    {
        let x = input[i];
        proof {
            lemma_bucket_in_range(x);
        }
        let b = (x & 63) as usize;
        out.push(offsets[b]);
        i += 1;
    }
    out
}

/// The whole reference computation: histogram, exclusive scan, lookup.
/// Element `i` of the result is the number of input elements whose bucket
/// is strictly smaller than the bucket of `input[i]`.
pub fn reference_results(input: &Vec<u32>) -> (r: Vec<u32>)
    requires
        input@.len() <= u32::MAX,
    ensures
        r@.len() == input@.len(),
        forall|i: int| 0 <= i < input@.len() ==> r@[i] == reference_result(input@, i),
{
    let hist = histogram(input);
    proof {
        lemma_histogram_conservation(input@);
        lemma_prefix_sum_matches(input@, hist@, 64);
    }
    let offsets = exclusive_scan(&hist);
    let r = apply_offsets(input, &offsets);
    proof {
        assert forall|i: int| 0 <= i < input@.len() implies r@[i] == reference_result(
            input@,
            i,
        ) by {
            lemma_bucket_in_range(input@[i]);
            lemma_prefix_sum_matches(input@, hist@, bucket_of(input@[i]));
        };
    }
    r
}

} // verus!
