//! Core logic of a mesh-networked interactive LED game controller.
//!
//! Each unit is a battery-powered ring of addressable LEDs with an
//! accelerometer and a short-range radio. Units discover each other, form a
//! single-hop master/client mesh, and play motion-driven group games. This
//! crate holds the verified core: the wire-frame codec, the sensor-filter
//! pipeline, the time-indexed LED animation engine, and the mesh coordinator
//! state machine. Hardware drivers and the task loops that poll them live in
//! the surrounding application.

use vstd::prelude::*;

pub mod configuration;
pub mod controller;
pub mod frame;
pub mod imu;
pub mod led;
pub mod moving_average;
pub mod timeline;

verus! {

/// The brightness a request settles to: clamped into `[0, 1000]` thousandths.
pub open spec fn spec_clamped(requested: i32) -> u16 {
    if requested < 0 {
        0u16
    } else if requested > 1000 {
        1000u16
    } else {
        requested as u16
    }
}

/// Clamp a requested brightness, given in thousandths of full scale, into the
/// accepted range `[0, 1]` (that is, `[0, 1000]` thousandths). Out-of-range
/// requests are clamped, never rejected.
pub fn clamp_brightness(requested: i32) -> (r: u16)
    ensures
        r == spec_clamped(requested),
{
    if requested < 0 {
        0
    } else if requested > 1000 {
        1000
    } else {
        requested as u16
    }
}

} // verus!
