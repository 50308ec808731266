//! Various data structures used to configure the controller.

use vstd::prelude::*;

verus! {

/// The externally configured parameters the core consumes.
pub struct ControllerConfig {
    /// The initial brightness of the LEDs, in thousandths of full scale
    /// (0 to 1000).
    pub initial_brightness: u16,
    /// How long to wait for a Wi-Fi connection to the master node before
    /// going into server meditation, in milliseconds.
    pub wifi_join_timeout_ms: u32,
}

impl ControllerConfig {
    /// A configuration is valid when its brightness is a fraction of full
    /// scale.
    pub open spec fn wf(self) -> bool {
        self.initial_brightness <= 1000
    }
}

} // verus!
