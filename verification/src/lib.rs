//! Telemetry ingestion core: a counter of accepted well-sensor readings, the
//! handler that feeds it, and the health and metrics reports that read it.

pub mod clock;
pub mod counter;
pub mod error;
pub mod ingest;
pub mod reading;
pub mod report;
pub mod state;
pub mod throughput;
