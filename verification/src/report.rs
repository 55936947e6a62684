//! The health and metrics reports: read-only snapshots of the counter store
//! beside fixed descriptive fields.

use crate::counter::CounterStore;
use vstd::prelude::*;

verus! {

/// The counter snapshot inside a health report.
#[derive(Debug)]
pub struct Metrics {
    pub total_processed: usize,
    pub uptime: String,
    pub throughput_target: String,
}

/// Answer to a health check.
#[derive(Debug)]
pub struct HealthResponse {
    pub status: String,
    pub version: String,
    /// UTC time at which the report was made, as an RFC 3339 date and time.
    pub timestamp: String,
    pub metrics: Metrics,
}

/// The fixed performance descriptors inside a metrics report.
#[derive(Debug)]
pub struct Performance {
    pub target_throughput: String,
    pub actual_latency: String,
    pub optimization: String,
}

/// Answer to a metrics request.
#[derive(Debug)]
pub struct MetricsResponse {
    pub total_processed: usize,
    pub performance: Performance,
}

/// `response` holds the fixed texts of a health report, whatever its total
/// and its stamp.
pub open spec fn has_health_texts(response: HealthResponse) -> bool {
    &&& response.status@ == "healthy"@
    &&& response.version@ == "3.0.0"@
    &&& response.metrics.uptime@ == "operational"@
    &&& response.metrics.throughput_target@ == "100,000 readings/second"@
}

/// `response` is the health report of a service that has accepted `total`
/// readings, stamped with `timestamp`.
pub open spec fn is_health_report(response: HealthResponse, total: nat, timestamp: Seq<char>) -> bool {
    &&& has_health_texts(response)
    &&& response.timestamp@ == timestamp
    &&& response.metrics.total_processed == total
}

/// `response` holds the fixed performance descriptors of a metrics report,
/// whatever its total.
pub open spec fn has_performance_texts(response: MetricsResponse) -> bool {
    &&& response.performance.target_throughput@ == "100,000 readings/second"@
    &&& response.performance.actual_latency@ == "< 1ms per reading"@
    &&& response.performance.optimization@ == "Rust zero-cost abstractions"@
}

/// `response` is the metrics report of a service that has accepted `total`
/// readings.
pub open spec fn is_metrics_report(response: MetricsResponse, total: nat) -> bool {
    &&& has_performance_texts(response)
    &&& response.total_processed == total
}

/// Reports that the service is alive, with the store's current total, stamped
/// with `timestamp`. It always succeeds and only reads the store.
pub fn health(store: &CounterStore, timestamp: String) -> (response: HealthResponse)
    ensures
        is_health_report(response, store@, timestamp@),
{
    HealthResponse {
        status: "healthy".to_string(),
        version: "3.0.0".to_string(),
        timestamp,
        metrics: Metrics {
            total_processed: store.read(),
            uptime: "operational".to_string(),
            throughput_target: "100,000 readings/second".to_string(),
        },
    }
}

/// Reports the store's current total beside the fixed performance
/// descriptors. It always succeeds and only reads the store.
pub fn metrics(store: &CounterStore) -> (response: MetricsResponse)
    ensures
        is_metrics_report(response, store@),
{
    MetricsResponse {
        total_processed: store.read(),
        performance: Performance {
            target_throughput: "100,000 readings/second".to_string(),
            actual_latency: "< 1ms per reading".to_string(),
            optimization: "Rust zero-cost abstractions".to_string(),
        },
    }
}

} // verus!
