//! The service state: one counter store behind a lock, shared by all the
//! requests that are served at the same time.
//!
//! Each method of `AppState` serves one request. It takes the lock and hands
//! the outcome to the function that serves the request under it; the lock is
//! let go when the guard is dropped. The functions under the lock state which
//! total they report and how they change it, over the total behind the held
//! lock. Which total a request finds behind the lock depends on the requests
//! served before it, so a method of `AppState` states only what holds
//! whatever total it found.

use crate::clock::is_utc_stamp;
use crate::clock::utc_timestamp;
use crate::counter::bounded_sum;
use crate::counter::CounterStore;
use crate::error::ServiceError;
use crate::ingest::is_success_report;
use crate::ingest::record_batch;
use crate::ingest::ProcessingResult;
use crate::reading::TelemetryData;
use crate::report::has_health_texts;
use crate::report::has_performance_texts;
use crate::report::health;
use crate::report::is_health_report;
use crate::report::is_metrics_report;
use crate::report::metrics;
use crate::report::HealthResponse;
use crate::report::MetricsResponse;
use std::ops::Deref;
use std::ops::DerefMut;
use std::sync::Mutex;
use std::sync::MutexGuard;
use std::sync::PoisonError;
use std::time::Instant;
use vstd::prelude::*;

verus! {

/// `std::sync::Mutex`, the lock around the shared store. It is only ever
/// made, held in a field and locked.
#[verifier::external_type_specification]
#[verifier::external_body]
#[verifier::reject_recursive_types(T)]
pub struct ExMutex<T: ?Sized>(std::sync::Mutex<T>);

/// `std::sync::MutexGuard`, the proof that the lock is held. The lock is let
/// go when the guard is dropped.
#[verifier::external_type_specification]
#[verifier::external_body]
#[verifier::reject_recursive_types(T)]
pub struct ExMutexGuard<'a, T: ?Sized + 'a>(std::sync::MutexGuard<'a, T>);

/// `std::sync::PoisonError`, the failure to take a lock whose holder
/// panicked.
#[verifier::external_type_specification]
#[verifier::external_body]
#[verifier::reject_recursive_types(T)]
pub struct ExPoisonError<T>(std::sync::PoisonError<T>);

/// What taking the lock around a store gives: the guard, or the failure that
/// a panic of an earlier holder left behind.
pub type Locked<'a> = Result<
    MutexGuard<'a, CounterStore>,
    PoisonError<MutexGuard<'a, CounterStore>>,
>;

/// The total of the store that a lock was made around. It is fixed when the
/// lock is made and says nothing of the total behind the lock later on, which
/// is as the last holder left it.
pub uninterp spec fn total_at_start(lock: Mutex<CounterStore>) -> nat;

/// `std::sync::Mutex::new` puts a store behind a new, unlocked lock. The one
/// claim is that the lock is made around the store it was given.
#[verifier::external_body]
fn new_lock(store: CounterStore) -> (lock: Mutex<CounterStore>)
    ensures
        total_at_start(lock) == store@,
{
    Mutex::new(store)
}

/// `std::sync::Mutex::lock` waits until the lock is free and takes it. It
/// fails when a thread panicked while holding the lock. Nothing is claimed of
/// the outcome. `lock` may panic or never return when the calling thread
/// holds the lock already: this is called on the private lock of an
/// `AppState` alone, by methods that hold no guard, and what serves a request
/// under the lock cannot reach it.
#[verifier::external_body]
fn acquire<'a>(lock: &'a Mutex<CounterStore>) -> (locked: Locked<'a>) {
    lock.lock()
}

/// The total of the store behind a held lock. While the lock is held nothing
/// but its guard reaches the store, so the total is the guard's to tell.
pub uninterp spec fn held_total(guard: MutexGuard<CounterStore>) -> nat;

/// The `Deref` of `std::sync::MutexGuard` gives the store that the held lock
/// protects, to be read: its total is the total behind the lock.
#[verifier::external_body]
fn held_store<'a, 'b>(guard: &'a MutexGuard<'b, CounterStore>) -> (store: &'a CounterStore)
    ensures
        store@ == held_total(*guard),
{
    guard.deref()
}

/// The `DerefMut` of `std::sync::MutexGuard` gives the store that the held
/// lock protects, to be changed: its total is the total behind the lock, and
/// what it is changed to is the total behind the lock from then on.
#[verifier::external_body]
fn held_store_mut<'a, 'b>(guard: &'a mut MutexGuard<'b, CounterStore>) -> (store:
    &'a mut CounterStore)
    ensures
        store@ == held_total(*old(guard)),
        held_total(*final(guard)) == final(store)@,
{
    guard.deref_mut()
}

/// Serves a health check from the outcome of taking the lock, with a report
/// stamped `timestamp`: the report of the total behind the lock. A lock that
/// could not be taken is an internal error; it is never answered with a
/// report.
pub fn health_under_lock<'a>(locked: Locked<'a>, timestamp: String) -> (outcome: Result<
    HealthResponse,
    ServiceError,
>)
    ensures
        locked is Err ==> outcome matches Err(ServiceError::Internal),
        locked matches Ok(guard) ==> (outcome matches Ok(response) && is_health_report(
            response,
            held_total(guard),
            timestamp@,
        )),
{
    match locked {
        Ok(guard) => Ok(health(held_store(&guard), timestamp)),
        Err(_) => Err(ServiceError::Internal),
    }
}

/// Serves an ingestion request from the outcome of taking the lock, for a
/// request whose clock was started at `start`: the batch is counted into the
/// store behind the lock. A lock that could not be taken is an internal
/// error, and then the outcome is left as it was.
pub fn process_under_lock<'a>(
    locked: &mut Locked<'a>,
    readings: &Vec<TelemetryData>,
    start: &Instant,
) -> (outcome: Result<ProcessingResult, ServiceError>)
    ensures
        *old(locked) is Err ==> {
            &&& outcome matches Err(ServiceError::Internal)
            &&& *final(locked) == *old(locked)
        },
        *old(locked) matches Ok(before) ==> {
            &&& *final(locked) matches Ok(after)
            &&& held_total(after) == bounded_sum(held_total(before), readings@.len())
            &&& outcome matches Ok(result)
            &&& is_success_report(result, readings@.len(), result.duration_ms as nat)
        },
{
    match locked {
        Ok(guard) => Ok(record_batch(held_store_mut(guard), readings, start)),
        Err(_) => Err(ServiceError::Internal),
    }
}

/// Serves a metrics request from the outcome of taking the lock: the report
/// of the total behind the lock. A lock that could not be taken is an
/// internal error; it is never answered with a report.
pub fn metrics_under_lock<'a>(locked: Locked<'a>) -> (outcome: Result<
    MetricsResponse,
    ServiceError,
>)
    ensures
        locked is Err ==> outcome matches Err(ServiceError::Internal),
        locked matches Ok(guard) ==> (outcome matches Ok(response) && is_metrics_report(
            response,
            held_total(guard),
        )),
{
    match locked {
        Ok(guard) => Ok(metrics(held_store(&guard))),
        Err(_) => Err(ServiceError::Internal),
    }
}

/// The state shared by every request: the counter store behind its lock.
///
/// It is created once, with a total of zero, and lives as long as the
/// service. Requests reach the store one at a time, so every addition is
/// applied whole: no update is lost and none is seen in part.
pub struct AppState {
    processed_count: Mutex<CounterStore>,
}

impl AppState {
    /// The total that the service started from, before it served any request.
    pub closed spec fn initial_total(&self) -> nat {
        total_at_start(self.processed_count)
    }

    /// The state of a service that has accepted nothing yet: its store starts
    /// from a total of zero.
    pub fn new() -> (state: Self)
        ensures
            state.initial_total() == 0,
    {
        AppState { processed_count: new_lock(CounterStore::new()) }
    }

    /// Serves a health check. The wall clock is read before the lock is
    /// taken. It fails only if the lock cannot be taken.
    pub fn health(&self) -> (outcome: Result<HealthResponse, ServiceError>)
        ensures
            outcome matches Ok(response) ==> has_health_texts(response) && is_utc_stamp(
                response.timestamp@,
            ),
            outcome matches Err(error) ==> error is Internal,
    {
        let timestamp = utc_timestamp();
        health_under_lock(acquire(&self.processed_count), timestamp)
    }

    /// Serves an ingestion request for a batch of readings. The clock of the
    /// request starts before it waits for the store. It fails only if the
    /// lock cannot be taken, and then nothing was counted.
    pub fn process_telemetry(&self, readings: &Vec<TelemetryData>) -> (outcome: Result<
        ProcessingResult,
        ServiceError,
    >)
        ensures
            outcome matches Ok(result) ==> is_success_report(
                result,
                readings@.len(),
                result.duration_ms as nat,
            ),
            outcome matches Err(error) ==> error is Internal,
    {
        let start = Instant::now();
        let mut locked = acquire(&self.processed_count);
        process_under_lock(&mut locked, readings, &start)
    }

    /// Serves an ingestion request from the body as it came out of decoding:
    /// the batch of readings it held, or the reason it could not be read as
    /// one. A body that could not be decoded is turned down before the store
    /// is reached.
    pub fn process_submission(&self, body: Result<Vec<TelemetryData>, String>) -> (outcome: Result<
        ProcessingResult,
        ServiceError,
    >)
        ensures
            match body {
                Ok(readings) => {
                    &&& outcome matches Ok(result) ==> is_success_report(
                        result,
                        readings@.len(),
                        result.duration_ms as nat,
                    )
                    &&& outcome matches Err(error) ==> error is Internal
                },
                Err(reason) => {
                    &&& outcome matches Err(ServiceError::Validation { reason: given })
                    &&& given@ == reason@
                },
            },
    {
        match body {
            Ok(readings) => self.process_telemetry(&readings),
            Err(reason) => Err(ServiceError::Validation { reason }),
        }
    }

    /// Serves a metrics request. It fails only if the lock cannot be taken.
    pub fn metrics(&self) -> (outcome: Result<MetricsResponse, ServiceError>)
        ensures
            outcome matches Ok(response) ==> has_performance_texts(response),
            outcome matches Err(error) ==> error is Internal,
    {
        metrics_under_lock(acquire(&self.processed_count))
    }
}

} // verus!
