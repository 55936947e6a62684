use telemetry_engine::error::ServiceError;
use telemetry_engine::reading::FlowRate;
use telemetry_engine::reading::TelemetryData;

#[test]
fn a_reading_holds_its_fields() {
    let reading = TelemetryData::new(
        17,
        String::from("2024-01-15T10:30:00Z"),
        FlowRate::from_bits(150.5f64.to_bits()),
        FlowRate::from_bits(2300.0f64.to_bits()),
        FlowRate::from_bits(45.25f64.to_bits()),
    );
    assert_eq!(reading.well_id, 17);
    assert_eq!(reading.timestamp, "2024-01-15T10:30:00Z");
    assert_eq!(f64::from_bits(reading.oil_rate.to_bits()), 150.5);
    assert_eq!(f64::from_bits(reading.gas_rate.to_bits()), 2300.0);
    assert_eq!(f64::from_bits(reading.water_rate.to_bits()), 45.25);
}

#[test]
fn rates_are_not_validated() {
    let negative = FlowRate::from_bits((-3.5f64).to_bits());
    assert_eq!(f64::from_bits(negative.to_bits()), -3.5);
    let infinite = FlowRate::from_bits(f64::INFINITY.to_bits());
    assert_eq!(f64::from_bits(infinite.to_bits()), f64::INFINITY);
    let not_a_number = FlowRate::from_bits(f64::NAN.to_bits());
    assert!(f64::from_bits(not_a_number.to_bits()).is_nan());
    assert_eq!(FlowRate::from_bits(0x4062_D000_0000_0000).bits, 0x4062_D000_0000_0000);
}

#[test]
fn a_validation_error_is_a_client_error() {
    let error = ServiceError::Validation { reason: String::from("missing field `well_id`") };
    assert_eq!(error.status_code(), 400);
    assert_eq!(error.kind(), "validation_error");
    assert_eq!(error.message(), "missing field `well_id`");
}

#[test]
fn an_internal_error_is_a_server_error() {
    let error = ServiceError::Internal;
    assert_eq!(error.status_code(), 500);
    assert!(error.status_code() >= 500 && error.status_code() < 600);
    assert_eq!(error.kind(), "internal_error");
    assert_eq!(error.message(), "the shared counter could not be acquired");
}
