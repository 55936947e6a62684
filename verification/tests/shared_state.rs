use std::sync::Arc;
use telemetry_engine::error::ServiceError;
use telemetry_engine::reading::FlowRate;
use telemetry_engine::reading::TelemetryData;
use telemetry_engine::state::AppState;

fn batch(size: usize) -> Vec<TelemetryData> {
    let mut readings = Vec::new();
    for i in 0..size {
        readings.push(TelemetryData::new(
            i as i32,
            String::from("2024-01-15T10:30:00Z"),
            FlowRate::from_bits(1.0f64.to_bits()),
            FlowRate::from_bits(2.0f64.to_bits()),
            FlowRate::from_bits(3.0f64.to_bits()),
        ));
    }
    readings
}

fn total(state: &AppState) -> usize {
    match state.metrics() {
        Ok(response) => response.total_processed,
        Err(error) => panic!("metrics failed: {:?}", error),
    }
}

#[test]
fn a_fresh_service_reports_zero() {
    let state = AppState::new();
    match state.health() {
        Ok(response) => {
            assert_eq!(response.status, "healthy");
            assert_eq!(response.version, "3.0.0");
            assert_eq!(response.metrics.total_processed, 0);
            assert_eq!(response.metrics.uptime, "operational");
            assert_eq!(response.metrics.throughput_target, "100,000 readings/second");
            assert!(chrono::DateTime::parse_from_rfc3339(&response.timestamp).is_ok());
            assert!(response.timestamp.chars().count() >= 25);
            assert!(response.timestamp.ends_with("+00:00"));
        }
        Err(error) => panic!("health failed: {:?}", error),
    }
    match state.metrics() {
        Ok(response) => {
            assert_eq!(response.total_processed, 0);
            assert_eq!(response.performance.target_throughput, "100,000 readings/second");
            assert_eq!(response.performance.actual_latency, "< 1ms per reading");
            assert_eq!(response.performance.optimization, "Rust zero-cost abstractions");
        }
        Err(error) => panic!("metrics failed: {:?}", error),
    }
}

#[test]
fn service_stamps_health_with_the_current_utc_time() {
    let state = AppState::new();
    let before = chrono::Utc::now();
    let response = match state.health() {
        Ok(response) => response,
        Err(error) => panic!("health failed: {:?}", error),
    };
    let after = chrono::Utc::now();
    let stamp = match chrono::DateTime::parse_from_rfc3339(&response.timestamp) {
        Ok(stamp) => stamp,
        Err(error) => panic!("{} is no RFC 3339 time: {}", response.timestamp, error),
    };
    assert_eq!(stamp.offset().local_minus_utc(), 0);
    assert!(before <= stamp && stamp <= after);
    assert!(response.timestamp.chars().count() >= 25);
    assert!(response.timestamp.ends_with("+00:00"));
}

#[test]
fn service_counts_three_then_two() {
    let state = AppState::new();
    assert_eq!(total(&state), 0);

    match state.process_telemetry(&batch(3)) {
        Ok(result) => {
            assert_eq!(result.processed, 3);
            assert_eq!(result.status, "success");
        }
        Err(error) => panic!("process failed: {:?}", error),
    }
    assert_eq!(total(&state), 3);

    match state.process_telemetry(&batch(2)) {
        Ok(result) => {
            assert_eq!(result.processed, 2);
            assert_eq!(result.status, "success");
        }
        Err(error) => panic!("process failed: {:?}", error),
    }
    assert_eq!(total(&state), 5);

    match state.health() {
        Ok(response) => assert_eq!(response.metrics.total_processed, 5),
        Err(error) => panic!("health failed: {:?}", error),
    }
}

#[test]
fn service_counts_an_empty_batch_as_nothing() {
    let state = AppState::new();
    assert!(state.process_telemetry(&batch(4)).is_ok());
    match state.process_submission(Ok(Vec::new())) {
        Ok(result) => {
            assert_eq!(result.processed, 0);
            assert_eq!(result.status, "success");
        }
        Err(error) => panic!("an empty batch was turned down: {:?}", error),
    }
    assert_eq!(total(&state), 4);
}

#[test]
fn service_counts_a_resubmitted_batch_again() {
    let state = AppState::new();
    let readings = batch(6);
    assert!(state.process_telemetry(&readings).is_ok());
    assert_eq!(total(&state), 6);
    assert!(state.process_telemetry(&readings).is_ok());
    assert_eq!(total(&state), 12);
}

#[test]
fn service_turns_down_a_malformed_body() {
    let state = AppState::new();
    assert!(state.process_submission(Ok(batch(2))).is_ok());
    let before = total(&state);
    match state.process_submission(Err(String::from("invalid type: map, expected a sequence"))) {
        Ok(result) => panic!("a malformed body was accepted: {:?}", result),
        Err(error) => {
            assert!(matches!(error, ServiceError::Validation { .. }));
            assert_eq!(error.status_code(), 400);
            assert_eq!(error.kind(), "validation_error");
            assert_eq!(error.message(), "invalid type: map, expected a sequence");
        }
    }
    assert_eq!(total(&state), before);
    assert_eq!(before, 2);
}

#[test]
fn service_times_a_request_from_its_arrival() {
    let state = AppState::new();
    match state.process_telemetry(&batch(1)) {
        Ok(result) => {
            assert_eq!(
                result.throughput,
                telemetry_engine::throughput::Throughput::of(1, result.duration_ms)
            );
        }
        Err(error) => panic!("process failed: {:?}", error),
    }
}

#[test]
fn interleaved_batches_through_shared_handles_add_up_exactly() {
    let state = Arc::new(AppState::new());
    assert!(state.process_telemetry(&batch(5)).is_ok());
    let sizes: [usize; 8] = [1, 2, 3, 4, 5, 6, 7, 8];
    let mut handles = Vec::new();
    for _ in sizes {
        handles.push(Arc::clone(&state));
    }
    let rounds = 50;
    for round in 0..rounds {
        for step in 0..sizes.len() {
            // Every other round goes through the handles backwards.
            let turn = if round % 2 == 0 { step } else { sizes.len() - 1 - step };
            match handles[turn].process_telemetry(&batch(sizes[turn])) {
                Ok(result) => assert_eq!(result.processed, sizes[turn]),
                Err(error) => panic!("process failed: {:?}", error),
            }
        }
    }
    assert_eq!(total(&state), 5 + rounds * 36);
}
