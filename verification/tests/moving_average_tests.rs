use ledswarm::frame::InternalMessage;
use ledswarm::imu::{sample_step, JoltGate};
use ledswarm::moving_average::MovingAverage;

#[test]
fn fresh_filter_reads_zero() {
    let filter = MovingAverage::new();
    assert_eq!(filter.get_average_delta(), 0);
}

#[test]
fn constant_stream_settles_to_zero() {
    // One sample more than the twenty-slot window: the transient of the very
    // first sample (against the zero the filter starts from) is overwritten.
    let mut filter = MovingAverage::new();
    for _ in 0..21 {
        filter.add(5000);
    }
    assert_eq!(filter.get_average_delta(), 0);
}

#[test]
fn first_sample_transient_is_averaged() {
    // A single 1.000g step from rest: one slot holds 1000 thousandths, the
    // mean over twenty slots is 50 thousandths = 0.05, reported as 5
    // hundredths.
    let mut filter = MovingAverage::new();
    filter.add(1000);
    assert_eq!(filter.get_average_delta(), 5);
}

#[test]
fn average_rounds_to_nearest_hundredth() {
    // Two changes of 950 each: mean 95 thousandths = 0.095, rounds up to 10
    // hundredths.
    let mut filter = MovingAverage::new();
    filter.add(950);
    filter.add(1900);
    assert_eq!(filter.get_average_delta(), 10);
}

#[test]
fn gate_swallows_small_changes() {
    let mut gate = JoltGate::new();
    // 0.02 away from the last emitted value: not an event.
    assert_eq!(gate.step(2), None);
    // beyond the threshold: emitted and remembered.
    assert_eq!(gate.step(3), Some(3));
    // within 0.02 of the emitted 3: no second event.
    assert_eq!(gate.step(5), None);
    assert_eq!(gate.step(1), None);
    // beyond 0.02 of the emitted 3 again.
    assert_eq!(gate.step(6), Some(6));
}

#[test]
fn sample_step_emits_the_average() {
    let mut filter = MovingAverage::new();
    let mut gate = JoltGate::new();
    // A 1.000g step averages to 0.05, which is beyond the 0.02 gate.
    let event = sample_step(&mut filter, &mut gate, 1000);
    match event {
        Some(InternalMessage::AccelerometerJoltDelta(delta)) => assert_eq!(delta, 5),
        other => panic!("expected a jolt event, got {:?}", other),
    }
    // Holding still: the average moves by less than the threshold.
    let event = sample_step(&mut filter, &mut gate, 1000);
    assert!(event.is_none());
}
