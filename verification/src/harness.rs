//! Harness-level outcomes: the fatal error taxonomy, the readback event at
//! the one asynchronous boundary, and the decision of what a run reports.

use vstd::prelude::*;
use crate::generator::chacha8_stream;
use crate::generator::generate_input;
use crate::reference::reference_result;
use crate::reference::reference_results;
use crate::compare::Mismatch;
use crate::compare::spec_mismatches;
use crate::compare::verify;

verus! {

/// The fatal error categories of the harness. Every one of them is
/// unrecoverable: the run stops and nothing after the fault is reported.
#[derive(Clone, Copy, Debug, PartialEq, Eq, Structural)]
pub enum FatalError {
    /// No compatible accelerator device could be acquired.
    DeviceAcquisition,
    /// The device reported an asynchronous fault after acquisition
    /// (validation error, loss, out-of-memory).
    DeviceFault,
    /// A buffer or pipeline could not be constructed.
    ResourceAllocation,
    /// The readback map request itself reported failure; the mapped bytes
    /// were never read.
    ReadbackMap,
}

/// What the readback synchronizer observed at the one asynchronous
/// boundary of a run.
pub enum ReadbackEvent {
    /// The map request completed and the device bytes were read back as
    /// 32-bit words.
    Mapped(Vec<u32>),
    /// The map request itself reported failure; no bytes may be read.
    MapFailed,
}

/// Everything of a run that the host computes before the accelerator is
/// touched: the input array drawn from `seed`, and the reference result
/// for that input.
pub fn prepare_run(seed: u64, len: usize) -> (r: (Vec<u32>, Vec<u32>))
    requires
        len <= u32::MAX,
    ensures
        r.0@ == chacha8_stream(seed, len as int),
        r.0@.len() == len,
        r.1@.len() == len,
        forall|i: int| 0 <= i < len ==> r.1@[i] == reference_result(r.0@, i),
{
    let input = generate_input(seed, len);
    let expected = reference_results(&input);
    (input, expected)
}

/// Decide what a run reports once the readback completes. A successful map
/// yields the full mismatch list against the reference result; a failed
/// map is the fatal readback error, and no comparison is derived from the
/// unread bytes.
pub fn interpret_readback(event: ReadbackEvent, expected: &Vec<u32>) -> (r: Result<
    Vec<Mismatch>,
    FatalError,
>)
    requires
        event matches ReadbackEvent::Mapped(d) ==> d@.len() == expected@.len(),
    ensures
        event matches ReadbackEvent::MapFailed ==> r == Result::<
            Vec<Mismatch>,
            FatalError,
        >::Err(FatalError::ReadbackMap),
        event matches ReadbackEvent::Mapped(d) ==> (r matches Ok(m) && m@ == spec_mismatches(
            expected@,
            d@,
            expected@.len() as int,
        )),
{
    match event {
        ReadbackEvent::Mapped(data) => Ok(verify(expected, &data)),
        ReadbackEvent::MapFailed => Err(FatalError::ReadbackMap),
    }
}

} // verus!
