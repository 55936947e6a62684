//! The ingestion handler: counts a batch of readings into the store and
//! reports how long that took.

use crate::counter::bounded_sum;
use crate::counter::CounterStore;
use crate::error::ServiceError;
use crate::reading::TelemetryData;
use crate::throughput::throughput_of;
use crate::throughput::Throughput;
use std::time::Instant;
use vstd::prelude::*;

verus! {

/// What one ingestion request reports back. It lives for the response only.
#[derive(Debug)]
pub struct ProcessingResult {
    /// Number of readings in the batch.
    pub processed: usize,
    /// Time the batch took, in whole milliseconds.
    pub duration_ms: u128,
    /// Rate at which the batch was processed.
    pub throughput: Throughput,
    /// Outcome tag; always `"success"`.
    pub status: String,
}

/// `result` is the report of a successful batch of `count` readings that took
/// `duration_ms` milliseconds.
pub open spec fn is_success_report(result: ProcessingResult, count: nat, duration_ms: nat) -> bool {
    &&& result.processed == count
    &&& result.duration_ms == duration_ms
    &&& result.throughput == throughput_of(result.processed, result.duration_ms)
    &&& result.status@ == "success"@
}

impl ProcessingResult {
    /// The report of a successful batch of `count` readings that took
    /// `duration_ms` milliseconds.
    pub fn success(count: usize, duration_ms: u128) -> (result: Self)
        ensures
            is_success_report(result, count as nat, duration_ms as nat),
    {
        ProcessingResult {
            processed: count,
            duration_ms,
            throughput: Throughput::of(count, duration_ms),
            status: "success".to_string(),
        }
    }
}

/// Accepts a batch of readings for a request whose clock was started at
/// `start`: adds its size to the store and reports the size, the time taken
/// and the throughput.
///
/// An empty batch is valid and adds nothing. Every call counts its batch: one
/// that is submitted again is counted again. The time taken is what the
/// monotonic clock shows since `start`, so the report is fixed by the batch
/// up to `duration_ms`.
pub fn record_batch(
    store: &mut CounterStore,
    readings: &Vec<TelemetryData>,
    start: &Instant,
) -> (result: ProcessingResult)
    ensures
        final(store)@ == bounded_sum(old(store)@, readings@.len()),
        is_success_report(result, readings@.len(), result.duration_ms as nat),
{
    let count = readings.len();
    store.increment_by(count);
    let duration = start.elapsed();
    ProcessingResult::success(count, duration.as_millis())
}

/// Handles the body of an ingestion request as it came out of decoding, on a
/// store that the caller holds alone: either the batch of readings the body
/// held, or the reason it could not be read as one.
///
/// A batch is accepted as `record_batch` does, on a clock that starts with
/// the call. A body that could not be decoded is answered with a validation
/// error that carries the reason, and the store is left as it was.
pub fn process_submission(
    store: &mut CounterStore,
    body: Result<Vec<TelemetryData>, String>,
) -> (outcome: Result<ProcessingResult, ServiceError>)
    ensures
        match body {
            Ok(readings) => {
                &&& outcome matches Ok(result)
                &&& is_success_report(result, readings@.len(), result.duration_ms as nat)
                &&& final(store)@ == bounded_sum(old(store)@, readings@.len())
            },
            Err(reason) => {
                &&& outcome matches Err(ServiceError::Validation { reason: given })
                &&& given@ == reason@
                &&& final(store)@ == old(store)@
            },
        },
{
    match body {
        Ok(readings) => {
            let start = Instant::now();
            Ok(record_batch(store, &readings, &start))
        },
        Err(reason) => Err(ServiceError::Validation { reason }),
    }
}

} // verus!
