//! One telemetry sample from a well sensor.

use vstd::prelude::*;

verus! {

/// A flow rate as it was reported, held as the bit pattern of its IEEE 754
/// double. The service does no arithmetic on rates and rejects none: any
/// pattern is carried through unchanged, negative and non-finite ones too.
#[derive(Clone, Copy, Debug, PartialEq, Eq, Structural)]
pub struct FlowRate {
    pub bits: u64,
}

impl FlowRate {
    /// The rate with the given bit pattern.
    pub fn from_bits(bits: u64) -> (rate: Self)
        ensures
            rate.bits == bits,
    {
        FlowRate { bits }
    }

    /// The bit pattern of the rate.
    pub fn to_bits(&self) -> (bits: u64)
        ensures
            bits == self.bits,
    {
        self.bits
    }
}

/// One reading: which well it came from, when it was taken, and the oil, gas
/// and water flow rates at that moment. Beyond their types the fields are not
/// validated.
#[derive(Debug)]
pub struct TelemetryData {
    pub well_id: i32,
    pub timestamp: String,
    pub oil_rate: FlowRate,
    pub gas_rate: FlowRate,
    pub water_rate: FlowRate,
}

impl TelemetryData {
    /// A reading with the given fields.
    pub fn new(
        well_id: i32,
        timestamp: String,
        oil_rate: FlowRate,
        gas_rate: FlowRate,
        water_rate: FlowRate,
    ) -> (reading: Self)
        ensures
            reading.well_id == well_id,
            reading.timestamp == timestamp,
            reading.oil_rate == oil_rate,
            reading.gas_rate == gas_rate,
            reading.water_rate == water_rate,
    {
        TelemetryData { well_id, timestamp, oil_rate, gas_rate, water_rate }
    }
}

} // verus!
