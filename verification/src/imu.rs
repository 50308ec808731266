//! The decision step of the inertial-measurement sampling task.
//!
//! The sampling task reads the accelerometer at millisecond cadence, folds
//! each magnitude into the moving-average filter, and forwards the averaged
//! jolt to the coordinator — but only when it has moved by more than a fixed
//! noise threshold since the last forwarded value. This event coalescing
//! bounds bus traffic: without it a bounded channel would either block the
//! sampler or silently drop sensor data under load. The hardware loop that
//! reads the sensor lives with the application; the whole decision of what
//! to emit is made here.

use vstd::prelude::*;

use crate::frame::InternalMessage;
use crate::moving_average::{average_centi, jolt_delta, MovingAverage};

verus! {

/// The noise threshold, in hundredths: an average jolt is forwarded only
/// when it differs from the last forwarded one by more than 0.02.
pub const EMISSION_THRESHOLD: u32 = 2;

/// Whether a new average jolt passes the emission gate, measured against the
/// last emitted value.
pub open spec fn gate_emits(last_emitted: u32, average: u32) -> bool {
    jolt_delta(average, last_emitted) > EMISSION_THRESHOLD
}

/// LAW (jolt emission gating): emission is judged against the last emitted
/// average, so a following average within the noise threshold of it is not
/// emitted again, and one beyond the threshold is.
pub proof fn lemma_jolt_emission_gating(emitted_average: u32, next_average: u32)
    ensures
        jolt_delta(next_average, emitted_average) <= EMISSION_THRESHOLD
            ==> !gate_emits(emitted_average, next_average),
        jolt_delta(next_average, emitted_average) > EMISSION_THRESHOLD
            ==> gate_emits(emitted_average, next_average),
{
}

/// The emission gate: the last average jolt that was forwarded to the
/// coordinator.
pub struct JoltGate {
    pub last_emitted: u32,
}

impl JoltGate {
    pub fn new() -> (gate: Self)
        ensures
            gate.last_emitted == 0,
    {
        Self { last_emitted: 0 }
    }

    /// Judge one average jolt: it is forwarded, and kept as the new
    /// reference, exactly when it moved by more than the noise threshold.
    pub fn step(&mut self, average: u32) -> (emitted: Option<u32>)
        ensures
            gate_emits(old(self).last_emitted, average) ==> {
                &&& emitted == Some(average)
                &&& final(self).last_emitted == average
            },
            !gate_emits(old(self).last_emitted, average) ==> {
                &&& emitted is None
                &&& final(self).last_emitted == old(self).last_emitted
            },
    {
        let diff = if average >= self.last_emitted {
            average - self.last_emitted
        } else {
            self.last_emitted - average
        };
        if diff > EMISSION_THRESHOLD {
            self.last_emitted = average;
            Some(average)
        } else {
            None
        }
    }
}

/// One iteration of the sampling task, from a fresh magnitude reading (in
/// thousandths) to the event to put on the bus, if any: fold the magnitude
/// into the filter, average, and pass the average through the emission gate.
pub fn sample_step(filter: &mut MovingAverage, gate: &mut JoltGate, magnitude: u32) -> (event: Option<
    InternalMessage,
>)
    requires
        old(filter).wf(),
    ensures
        final(filter).wf(),
        final(filter).buffer@ == old(filter).buffer@.update(
            old(filter).index as int,
            jolt_delta(magnitude, old(filter).previous_magnitude),
        ),
        final(filter).index == (old(filter).index + 1) % 20,
        final(filter).previous_magnitude == magnitude,
        final(filter).current_magnitude == magnitude,
        ({
            let average = average_centi(final(filter).buffer@) as u32;
            &&& gate_emits(old(gate).last_emitted, average) ==> {
                &&& event == Some(InternalMessage::AccelerometerJoltDelta(average))
                &&& final(gate).last_emitted == average
            }
            &&& !gate_emits(old(gate).last_emitted, average) ==> {
                &&& event is None
                &&& final(gate).last_emitted == old(gate).last_emitted
            }
        }),
{
    filter.add(magnitude);
    let average = filter.get_average_delta();
    match gate.step(average) {
        Some(delta) => Some(InternalMessage::AccelerometerJoltDelta(delta)),
        None => None,
    }
}

} // verus!
