//! The LED engine around the ring of seven RGBW diodes.
//!
//! This module owns the controller-mode → timeline mapping with its
//! memoization, the global intensity scaling applied to every channel, and
//! the white-balance arithmetic of the meditation animation. The pixel-write
//! primitive itself (the RMT strip driver) is hardware-bound and lives with
//! the application; the engine hands it ready-scaled RGBW values.

use vstd::prelude::*;

use crate::controller::{spec_kind, ControllerMode, ModeKind};
use crate::timeline::{lemma_table_cycle, spec_timeline_for_kind, timeline_color, LedTimeline};

verus! {

/// Intensity is a fraction of full scale in thousandths: 1000 is full on.
pub const FULL_INTENSITY: u16 = 1000;

/// Desired total intensity of the meditation animation; the white channel
/// tops the rotating hue up to this level so perceived brightness stays
/// approximately constant.
pub const MEDITATION_INTENSITY: u16 = 120;

/// Static configuration of the LED ring.
pub struct LedConfig {
    /// The GPIO pin the strip driver is attached to.
    pub pin: u32,
    /// The global LED intensity, in thousandths of full scale.
    pub intensity: u16,
}

/// State of the LED ring: the cached timeline for the last seen controller
/// mode, and the configuration it is rendered with.
pub struct Led {
    pub last_controller_mode: Option<ModeKind>,
    pub timeline: LedTimeline,
    pub config: LedConfig,
}

impl Led {
    /// The memoization cache is consistent: whatever mode variant was cached,
    /// the stored timeline is that variant's table, and intensity is a valid
    /// fraction. A fresh `Led` caches the `Discovery` table.
    pub open spec fn wf(self) -> bool {
        &&& self.config.intensity <= FULL_INTENSITY
        &&& match self.last_controller_mode {
            Some(kind) => self.timeline@ == spec_timeline_for_kind(kind),
            None => self.timeline@ == spec_timeline_for_kind(ModeKind::Discovery),
        }
    }

    pub fn new(config: LedConfig) -> (led: Self)
        requires
            config.intensity <= FULL_INTENSITY,
        ensures
            led.wf(),
            led.config == config,
    {
        let timeline = LedTimeline::from_mode(&ControllerMode::Discovery);
        Self { last_controller_mode: None, timeline, config }
    }

    /// Compute the color the ring shows at tick `time` in mode `state`.
    ///
    /// The timeline is regenerated only when the mode's variant changes
    /// (payload changes never change the table), yet the result always equals
    /// a fresh lookup in that variant's table. `ServerMeditation` has no
    /// table (its color is analytic) and is excluded.
    pub fn pattern(&mut self, state: &ControllerMode, time: u16) -> (color: (u8, u8, u8, u8))
        requires
            old(self).wf(),
            spec_kind(*state) != ModeKind::ServerMeditation,
        ensures
            final(self).wf(),
            final(self).config == old(self).config,
            color == timeline_color(spec_timeline_for_kind(spec_kind(*state)), time as int),
    {
        let kind = state.kind();
        let regenerate = match self.last_controller_mode {
            Some(last) => last != kind,
            None => true,
        };
        if regenerate {
            self.last_controller_mode = Some(kind);
            self.timeline = LedTimeline::from_mode(state);
        }
        proof {
            lemma_table_cycle(kind);
        }
        self.timeline.get_current_color(time)
    }

    /// Scale an RGBW color by the configured global intensity: every channel
    /// is multiplied by `intensity / 1000`, rounding down.
    pub fn scale_rgbw(&self, red: u8, green: u8, blue: u8, white: u8) -> (scaled: (u8, u8, u8, u8))
        requires
            self.config.intensity <= FULL_INTENSITY,
        ensures
            scaled.0 == red * self.config.intensity / 1000,
            scaled.1 == green * self.config.intensity / 1000,
            scaled.2 == blue * self.config.intensity / 1000,
            scaled.3 == white * self.config.intensity / 1000,
    {
        (
            scale_channel(red, self.config.intensity),
            scale_channel(green, self.config.intensity),
            scale_channel(blue, self.config.intensity),
            scale_channel(white, self.config.intensity),
        )
    }
}

/// One channel of the intensity scaling: `value * intensity / 1000` fits in a
/// byte because the intensity fraction is at most 1.
fn scale_channel(value: u8, intensity: u16) -> (scaled: u8)
    requires
        intensity <= FULL_INTENSITY,
    ensures
        scaled == value * intensity / 1000,
{
    proof {
        assert(value * intensity <= 255000 && value * intensity / 1000 <= 255)
            by (nonlinear_arith)
            requires
                0 <= value <= 255,
                0 <= intensity <= 1000,
        ;
    }
    let wide: u32 = (value as u32) * (intensity as u32) / 1000;
    wide as u8
}

/// The white channel of the meditation animation: top the mean of the three
/// sine-driven color channels up to the desired total intensity, and emit no
/// white at all once the hue alone is bright enough.
pub fn meditation_white(red: u8, green: u8, blue: u8) -> (white: u8)
    ensures
        (red + green + blue) / 3 > MEDITATION_INTENSITY ==> white == 0,
        (red + green + blue) / 3 <= MEDITATION_INTENSITY
            ==> white == MEDITATION_INTENSITY - (red + green + blue) / 3,
{
    let combined_intensity: u16 = (red as u16 + green as u16 + blue as u16) / 3;
    if combined_intensity > MEDITATION_INTENSITY {
        0
    } else {
        (MEDITATION_INTENSITY - combined_intensity) as u8
    }
}

} // verus!
