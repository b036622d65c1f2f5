use bucket_offset::compare::verify;
use bucket_offset::compare::Mismatch;
use bucket_offset::generator::generate_input;
use bucket_offset::harness::interpret_readback;
use bucket_offset::harness::prepare_run;
use bucket_offset::harness::FatalError;
use bucket_offset::harness::ReadbackEvent;
use bucket_offset::reference::apply_offsets;
use bucket_offset::reference::exclusive_scan;
use bucket_offset::reference::histogram;
use bucket_offset::reference::reference_results;

#[test]
fn generator_is_deterministic() {
    let a = generate_input(2, 256);
    let b = generate_input(2, 256);
    assert_eq!(a.len(), 256);
    assert_eq!(a, b);
}

#[test]
fn generator_varies_with_seed() {
    let a = generate_input(2, 256);
    let b = generate_input(3, 256);
    assert_ne!(a, b);
}

#[test]
fn histogram_conserves_total() {
    let input = generate_input(2, 256);
    let hist = histogram(&input);
    assert_eq!(hist.len(), 64);
    let total: u64 = hist.iter().map(|c| *c as u64).sum();
    assert_eq!(total, 256);
}

#[test]
fn histogram_conserves_total_small() {
    let input: Vec<u32> = vec![1, 0, 1, 64];
    let hist = histogram(&input);
    let total: u64 = hist.iter().map(|c| *c as u64).sum();
    assert_eq!(total, 4);
}

#[test]
fn offsets_start_at_zero_and_are_monotone() {
    let input = generate_input(2, 256);
    let hist = histogram(&input);
    let offsets = exclusive_scan(&hist);
    assert_eq!(offsets.len(), 64);
    assert_eq!(offsets[0], 0);
    for k in 0..63 {
        assert!(offsets[k] <= offsets[k + 1]);
    }
    assert!(offsets[63] as u64 + hist[63] as u64 == 256);
}

#[test]
fn offset_lookup_matches_table() {
    let input = generate_input(2, 256);
    let hist = histogram(&input);
    let offsets = exclusive_scan(&hist);
    let result = apply_offsets(&input, &offsets);
    assert_eq!(result.len(), 256);
    for i in 0..256 {
        assert_eq!(result[i], offsets[(input[i] & 63) as usize]);
    }
}

#[test]
fn exact_small_case() {
    // Buckets: 1, 0, 1, 0. Histogram: two in bucket 0, two in bucket 1.
    // Offsets: 0, 2, then 4 for every later bucket.
    let input: Vec<u32> = vec![1, 0, 1, 64];
    let hist = histogram(&input);
    assert_eq!(hist[0], 2);
    assert_eq!(hist[1], 2);
    for k in 2..64 {
        assert_eq!(hist[k], 0);
    }
    let offsets = exclusive_scan(&hist);
    assert_eq!(offsets[0], 0);
    assert_eq!(offsets[1], 2);
    for k in 2..64 {
        assert_eq!(offsets[k], 4);
    }
    let result = apply_offsets(&input, &offsets);
    assert_eq!(result, vec![2, 0, 2, 0]);
}

#[test]
fn round_trip_agreement() {
    // A conformant accelerator returns exactly the reference result; the
    // mismatch list of such a run is empty.
    let (input, expected) = prepare_run(2, 256);
    assert_eq!(input.len(), 256);
    assert_eq!(expected.len(), 256);
    let observed = expected.clone();
    let outcome = interpret_readback(ReadbackEvent::Mapped(observed), &expected);
    assert_eq!(outcome, Ok(Vec::new()));
}

#[test]
fn all_elements_in_bucket_zero() {
    // Every element a multiple of 64: histogram is 256 followed by zeros.
    // Bucket 0's offset is zero, so every element's result is zero; the
    // later entries of the offset table each hold the whole count.
    let input: Vec<u32> = (0..256u32).map(|i| i * 64).collect();
    let hist = histogram(&input);
    assert_eq!(hist[0], 256);
    for k in 1..64 {
        assert_eq!(hist[k], 0);
    }
    let offsets = exclusive_scan(&hist);
    assert_eq!(offsets[0], 0);
    for k in 1..64 {
        assert_eq!(offsets[k], 256);
    }
    let result = reference_results(&input);
    for i in 0..256 {
        assert_eq!(result[i], 0);
    }
}

#[test]
fn one_element_per_bucket() {
    // One element per bucket, already sorted by bucket: the offset table is
    // the identity, and so is the result.
    let input: Vec<u32> = (0..64u32).collect();
    let hist = histogram(&input);
    for k in 0..64 {
        assert_eq!(hist[k], 1);
    }
    let offsets = exclusive_scan(&hist);
    for k in 0..64u32 {
        assert_eq!(offsets[k as usize], k);
    }
    let result = reference_results(&input);
    for i in 0..64u32 {
        assert_eq!(result[i as usize], i);
    }
}

#[test]
fn map_failure_reports_fatal_io() {
    // A failed map request is the fatal readback error, and no comparison
    // is derived from the unread bytes.
    let (_input, expected) = prepare_run(2, 256);
    let outcome = interpret_readback(ReadbackEvent::MapFailed, &expected);
    assert_eq!(outcome, Err(FatalError::ReadbackMap));
}

#[test]
fn verifier_reports_each_disagreement() {
    let expected: Vec<u32> = vec![1, 2, 3, 4];
    let observed: Vec<u32> = vec![1, 5, 3, 0];
    let mismatches = verify(&expected, &observed);
    assert_eq!(
        mismatches,
        vec![
            Mismatch { index: 1, expected: 2, observed: 5 },
            Mismatch { index: 3, expected: 4, observed: 0 },
        ]
    );
}

#[test]
fn verifier_reports_nothing_on_agreement() {
    let expected: Vec<u32> = vec![7, 8, 9];
    let observed: Vec<u32> = vec![7, 8, 9];
    assert_eq!(verify(&expected, &observed), Vec::new());
}

#[test]
fn reference_matches_pipeline_stages() {
    let input = generate_input(2, 256);
    let hist = histogram(&input);
    let offsets = exclusive_scan(&hist);
    let staged = apply_offsets(&input, &offsets);
    let combined = reference_results(&input);
    assert_eq!(staged, combined);
}
