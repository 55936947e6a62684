//! Throughput of one batch: readings per second, kept exact.

use vstd::prelude::*;

verus! {

/// The rate at which one batch was processed.
///
/// A rate is kept as the two measurements it was derived from, so that no
/// precision is lost; `per_second` gives it as a fraction.
#[derive(Clone, Copy, Debug, PartialEq, Eq, Structural)]
pub enum Throughput {
    /// The batch took less than a millisecond. It is treated as instantaneous
    /// and its rate is reported as the batch size itself.
    Instantaneous { readings: usize },
    /// The batch of `readings` took `millis` milliseconds, at least one.
    Measured { readings: usize, millis: u128 },
}

/// The throughput of a batch of `count` readings that took `duration_ms`
/// milliseconds.
pub open spec fn throughput_of(count: usize, duration_ms: u128) -> Throughput {
    if duration_ms == 0 {
        Throughput::Instantaneous { readings: count }
    } else {
        Throughput::Measured { readings: count, millis: duration_ms }
    }
}

impl Throughput {
    /// A measured rate rests on a duration that is not zero.
    pub open spec fn wf(self) -> bool {
        self matches Throughput::Measured { millis, .. } ==> millis > 0
    }

    /// The rate in readings per second, as numerator and denominator of a
    /// fraction: the batch size over one for an instantaneous batch, and the
    /// batch size over the duration in seconds for a measured one.
    pub open spec fn rate(self) -> (nat, nat) {
        match self {
            Throughput::Instantaneous { readings } => (readings as nat, 1),
            Throughput::Measured { readings, millis } => (readings as nat * 1000, millis as nat),
        }
    }

    /// The throughput of a batch of `count` readings that took `duration_ms`
    /// milliseconds.
    pub fn of(count: usize, duration_ms: u128) -> (throughput: Self)
        ensures
            throughput == throughput_of(count, duration_ms),
            throughput.wf(),
    {
        if duration_ms > 0 {
            Throughput::Measured { readings: count, millis: duration_ms }
        } else {
            Throughput::Instantaneous { readings: count }
        }
    }

    /// The rate in readings per second as an exact fraction, numerator first.
    pub fn per_second(&self) -> (fraction: (u128, u128))
        ensures
            fraction.0 == self.rate().0,
            fraction.1 == self.rate().1,
            self.wf() ==> fraction.1 > 0,
    {
        match *self {
            Throughput::Instantaneous { readings } => (readings as u128, 1),
            Throughput::Measured { readings, millis } => (readings as u128 * 1000, millis),
        }
    }
}

} // verus!
