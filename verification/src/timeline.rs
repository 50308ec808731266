//! The possible states of the LED ring along with utilities to compose them
//! into a cyclic timeline, replayed by the coordinator once per tick.
//!
//! A timeline is a finite ordered sequence of `(duration, color)` segments.
//! The color shown at tick `t` is the color of the segment containing
//! `t mod cycle_length`, where the cycle length is the sum of all segment
//! durations, so the animation is periodic and cheap to re-evaluate.

use vstd::prelude::*;
use vstd::arithmetic::div_mod::{
    lemma_mod_division_less_than_divisor, lemma_mod_multiples_vanish, lemma_mod_twice,
};

use crate::controller::{spec_kind, ControllerMode, ModeKind};

verus! {

/// Reserved marker for user-feedback blink patterns (error and status codes
/// shown on the ring); the codes themselves are composed as timelines.
pub struct BlinkCode {}

/// A single color for all diodes, or an array individually addressing the
/// seven LEDs of the ring.
#[derive(Debug, Clone, Copy, PartialEq, Eq)]
pub enum LedMode {
    /// All of the LEDs are set to the same RGBW color.
    Simultaneous((u8, u8, u8, u8)),
    /// The RGBW color of each of the seven LEDs is set individually.
    Individual([(u8, u8, u8, u8); 7]),
    /// The color of the LEDs is controlled by messages from elsewhere.
    DirectDrive,
}

/// The color values of the LEDs during one segment of a timeline.
#[derive(Debug, Clone, Copy, PartialEq, Eq)]
pub struct LedState {
    /// How many ticks this segment lasts.
    pub duration: u32,
    /// How the LEDs are addressed during this segment.
    pub mode: LedMode,
}

impl LedState {
    /// The single color that this segment shows: the simultaneous color, the
    /// first individually addressed color, or black for direct drive.
    pub open spec fn spec_single_color(self) -> (u8, u8, u8, u8) {
        match self.mode {
            LedMode::Simultaneous(color) => color,
            LedMode::Individual(colors) => colors@[0],
            LedMode::DirectDrive => (0u8, 0u8, 0u8, 0u8),
        }
    }

    /// Request a single color from the LED state.
    ///
    /// For simultaneous mode, this will just return the color, and if
    /// mistakenly used in individual mode, the first color in the buffer will
    /// be used.
    pub fn get_single_color(&self, time: u32) -> (color: (u8, u8, u8, u8))
        ensures
            color == self.spec_single_color(),
    {
        match &self.mode {
            LedMode::Simultaneous(color) => *color,
            LedMode::Individual(colors) => colors[0],
            LedMode::DirectDrive => (0, 0, 0, 0),
        }
    }

    /// Request a buffer of seven individual colors from the LED state.
    ///
    /// This will simply return the buffer in individual mode, or create a
    /// buffer with seven identical colors from the color of the simultaneous
    /// mode.
    pub fn get_color_array(&self) -> (colors: [(u8, u8, u8, u8); 7])
        ensures
            match self.mode {
                LedMode::Simultaneous(color) => forall|i: int|
                    0 <= i < 7 ==> colors@[i] == color,
                LedMode::Individual(own) => colors@ == own@,
                LedMode::DirectDrive => forall|i: int|
                    0 <= i < 7 ==> colors@[i] == (0u8, 0u8, 0u8, 0u8),
            },
    {
        match &self.mode {
            LedMode::Simultaneous(color) => {
                let c = *color;
                [c, c, c, c, c, c, c]
            },
            LedMode::Individual(colors) => *colors,
            LedMode::DirectDrive => {
                let c = (0, 0, 0, 0);
                [c, c, c, c, c, c, c]
            },
        }
    }

    /// Create a new LED state with a single color for all LEDs.
    pub fn all(duration: u32, color: (u8, u8, u8, u8)) -> (state: Self)
        ensures
            state == (LedState { duration, mode: LedMode::Simultaneous(color) }),
    {
        Self { duration, mode: LedMode::Simultaneous(color) }
    }

    /// Create a new LED state with a different color for each LED.
    pub fn each(duration: u32, colors: [(u8, u8, u8, u8); 7]) -> (state: Self)
        ensures
            state == (LedState { duration, mode: LedMode::Individual(colors) }),
    {
        Self { duration, mode: LedMode::Individual(colors) }
    }
}

/// The length of one full animation cycle: the sum of all segment durations.
pub open spec fn total_duration(states: Seq<LedState>) -> int
    decreases states.len(),
{
    if states.len() == 0 {
        0
    } else {
        states[0].duration + total_duration(states.drop_first())
    }
}

/// The color shown `t` ticks into one cycle: the single color of the segment
/// containing `t`, or dim white if `t` lies past every segment.
pub open spec fn color_in_cycle(states: Seq<LedState>, t: int) -> (u8, u8, u8, u8)
    decreases states.len(),
{
    if states.len() == 0 {
        (0u8, 0u8, 0u8, 30u8)
    } else if t < states[0].duration {
        states[0].spec_single_color()
    } else {
        color_in_cycle(states.drop_first(), t - states[0].duration)
    }
}

/// The color a timeline shows at absolute tick `t`: the animation repeats
/// with period `total_duration(states)`.
pub open spec fn timeline_color(states: Seq<LedState>, t: int) -> (u8, u8, u8, u8) {
    color_in_cycle(states, t % total_duration(states))
}

/// A cycle length is never negative: every segment duration is non-negative.
pub proof fn lemma_total_duration_nonneg(states: Seq<LedState>)
    ensures
        total_duration(states) >= 0,
    decreases states.len(),
{
    if states.len() > 0 {
        lemma_total_duration_nonneg(states.drop_first());
    }
}

/// Splitting a timeline at index `i` splits its cycle length.
pub proof fn lemma_total_duration_split(states: Seq<LedState>, i: int)
    requires
        0 <= i <= states.len(),
    ensures
        total_duration(states) == total_duration(states.take(i)) + total_duration(states.skip(i)),
    decreases i,
{
    if i == 0 {
        assert(states.take(0) =~= Seq::<LedState>::empty());
        assert(states.skip(0) =~= states);
    } else {
        lemma_total_duration_split(states.drop_first(), i - 1);
        assert(states.take(i).drop_first() =~= states.drop_first().take(i - 1));
        assert(states.skip(i) =~= states.drop_first().skip(i - 1));
        assert(states.take(i)[0] == states[0]);
        assert(total_duration(states.take(i)) == states[0].duration
            + total_duration(states.drop_first().take(i - 1)));
    }
}

/// LAW (timeline determinism): for a fixed timeline the displayed color is
/// periodic with the timeline's cycle length, and depends only on
/// `t mod cycle_length`.
pub proof fn lemma_timeline_periodic(states: Seq<LedState>, t: int)
    requires
        total_duration(states) > 0,
    ensures
        timeline_color(states, t + total_duration(states)) == timeline_color(states, t),
        timeline_color(states, t) == timeline_color(states, t % total_duration(states)),
{
    let cycle = total_duration(states);
    lemma_mod_multiples_vanish(1, t, cycle);
    lemma_mod_twice(t, cycle);
}

/// A sequence of color changes, replayed cyclically.
#[derive(Debug)]
pub struct LedTimeline {
    states: Vec<LedState>,
}

impl View for LedTimeline {
    type V = Seq<LedState>;

    closed spec fn view(&self) -> Seq<LedState> {
        self.states@
    }
}

impl LedTimeline {
    pub fn new(states: Vec<LedState>) -> (timeline: Self)
        ensures
            timeline@ == states@,
    {
        Self { states }
    }

    /// The color this timeline shows at tick `time`.
    ///
    /// The timeline must have a positive cycle length (an empty timeline has
    /// nothing to show and its period would be zero).
    pub fn get_current_color(&self, time: u16) -> (color: (u8, u8, u8, u8))
        requires
            0 < total_duration(self@) <= u32::MAX,
        ensures
            color == timeline_color(self@, time as int),
    {
        let ghost s = self@;
        let n = self.states.len();

        let mut total: u32 = 0;
        let mut i: usize = 0;
        while i < n
            invariant
                n == s.len(),
                s == self@,
                0 <= i <= n,
                0 < total_duration(s) <= u32::MAX,
                total == total_duration(s.take(i as int)),
            decreases n - i,
        {
            proof {
                lemma_total_duration_split(s, i as int);
                lemma_total_duration_split(s.skip(i as int), 1);
                lemma_total_duration_nonneg(s.skip(i as int).skip(1));
                assert(s.skip(i as int).take(1) =~= seq![s[i as int]]);
                assert(total_duration(seq![s[i as int]]) == s[i as int].duration) by {
                    assert(seq![s[i as int]].drop_first() =~= Seq::<LedState>::empty());
                }
                assert(s.take(i as int + 1) =~= s.take(i as int).push(s[i as int]));
                lemma_total_duration_split(s.take(i as int + 1), i as int);
                assert(s.take(i as int + 1).take(i as int) =~= s.take(i as int));
                assert(s.take(i as int + 1).skip(i as int) =~= seq![s[i as int]]);
            }
            total = total + self.states[i].duration;
            i += 1;
        }
        proof {
            assert(s.take(n as int) =~= s);
        }

        let time_in_cycle: u32 = (time as u32) % total;
        proof {
            lemma_mod_division_less_than_divisor(time as int, total as int);
        }

        let mut elapsed: u32 = 0;
        let mut i: usize = 0;
        while i < n
            invariant
                n == s.len(),
                s == self@,
                0 <= i <= n,
                0 < total_duration(s) <= u32::MAX,
                total == total_duration(s),
                elapsed == total_duration(s.take(i as int)),
                elapsed <= time_in_cycle,
                time_in_cycle < total_duration(s),
                time_in_cycle == (time as int) % total_duration(s),
                color_in_cycle(s, time_in_cycle as int)
                    == color_in_cycle(s.skip(i as int), time_in_cycle - elapsed),
            decreases n - i,
        {
            proof {
                lemma_total_duration_split(s, i as int);
                lemma_total_duration_split(s.skip(i as int), 1);
                lemma_total_duration_nonneg(s.skip(i as int).skip(1));
                assert(s.skip(i as int).take(1) =~= seq![s[i as int]]);
                assert(total_duration(seq![s[i as int]]) == s[i as int].duration) by {
                    assert(seq![s[i as int]].drop_first() =~= Seq::<LedState>::empty());
                }
                assert(s.take(i as int + 1) =~= s.take(i as int).push(s[i as int]));
                lemma_total_duration_split(s.take(i as int + 1), i as int);
                assert(s.take(i as int + 1).take(i as int) =~= s.take(i as int));
                assert(s.take(i as int + 1).skip(i as int) =~= seq![s[i as int]]);
                assert(s.skip(i as int)[0] == s[i as int]);
                assert(s.skip(i as int).drop_first() =~= s.skip(i as int + 1));
            }
            let d = self.states[i].duration;
            if time_in_cycle < elapsed + d {
                proof {
                    assert(time_in_cycle - elapsed < s.skip(i as int)[0].duration);
                    assert(color_in_cycle(s.skip(i as int), time_in_cycle - elapsed)
                        == s[i as int].spec_single_color());
                }
                return self.states[i].get_single_color(time as u32);
            }
            elapsed = elapsed + d;
            i += 1;
        }
        proof {
            assert(s.take(n as int) =~= s);
            assert(false);
        }

        (0, 0, 0, 30)
    }

    /// Build the blink timeline that a controller mode maps to. The tables
    /// depend only on the mode's variant, never on its payload.
    ///
    /// `ServerMeditation` maps to the empty timeline: its color is computed
    /// analytically (phase-shifted sine waves), not from a segment table.
    pub fn from_mode(mode: &ControllerMode) -> (timeline: Self)
        ensures
            timeline@ == spec_timeline_for_kind(spec_kind(*mode)),
    {
        let mut states: Vec<LedState> = Vec::new();
        match mode {
            ControllerMode::Discovery => {
                states.push(LedState::all(1000, (0, 255, 255, 0)));
                states.push(LedState::all(1000, (0, 0, 0, 0)));
            },
            ControllerMode::Connecting => {
                states.push(LedState::all(500, (0, 255, 255, 0)));
                states.push(LedState::all(500, (0, 0, 0, 0)));
            },
            ControllerMode::Client { .. } | ControllerMode::Master { .. } => {
                states.push(LedState::all(50, (0, 100, 0, 0)));
                states.push(LedState::all(50, (0, 0, 0, 0)));
                states.push(LedState::all(50, (0, 100, 0, 0)));
                states.push(LedState::all(850, (0, 0, 0, 0)));
            },
            ControllerMode::ServerMeditation => {},
            ControllerMode::Game(..) => {
                states.push(LedState::all(1000, (0, 0, 0, 0)));
                states.push(LedState::all(1000, (0, 0, 0, 100)));
            },
        }
        proof {
            assert(states@ =~= spec_timeline_for_kind(spec_kind(*mode)));
        }
        LedTimeline::new(states)
    }
}

/// LAW (LED timeline determinism, by mode): every mode that renders from a
/// segment table shows a color that is periodic in the tick counter with
/// that mode's declared cycle length, and depends only on the tick modulo
/// that length.
pub proof fn lemma_mode_color_periodic(mode: ControllerMode, t: int)
    requires
        spec_kind(mode) != ModeKind::ServerMeditation,
    ensures
        ({
            let table = spec_timeline_for_kind(spec_kind(mode));
            &&& timeline_color(table, t + total_duration(table)) == timeline_color(table, t)
            &&& timeline_color(table, t) == timeline_color(table, t % total_duration(table))
        }),
{
    lemma_table_cycle(spec_kind(mode));
    lemma_timeline_periodic(spec_timeline_for_kind(spec_kind(mode)), t);
}

/// A simultaneous-color segment: the spec-level counterpart of `LedState::all`.
pub open spec fn seg(duration: u32, color: (u8, u8, u8, u8)) -> LedState {
    LedState { duration, mode: LedMode::Simultaneous(color) }
}

/// The fixed segment table for each mode variant.
pub open spec fn spec_timeline_for_kind(kind: ModeKind) -> Seq<LedState> {
    match kind {
        ModeKind::Discovery => seq![
            seg(1000, (0u8, 255u8, 255u8, 0u8)),
            seg(1000, (0u8, 0u8, 0u8, 0u8)),
        ],
        ModeKind::Connecting => seq![
            seg(500, (0u8, 255u8, 255u8, 0u8)),
            seg(500, (0u8, 0u8, 0u8, 0u8)),
        ],
        ModeKind::Client | ModeKind::Master => seq![
            seg(50, (0u8, 100u8, 0u8, 0u8)),
            seg(50, (0u8, 0u8, 0u8, 0u8)),
            seg(50, (0u8, 100u8, 0u8, 0u8)),
            seg(850, (0u8, 0u8, 0u8, 0u8)),
        ],
        ModeKind::ServerMeditation => Seq::empty(),
        ModeKind::Game => seq![
            seg(1000, (0u8, 0u8, 0u8, 0u8)),
            seg(1000, (0u8, 0u8, 0u8, 100u8)),
        ],
    }
}

/// Cycle lengths of the fixed tables: every variant except `ServerMeditation`
/// has a period of 1000 or 2000 ticks; the meditation table is empty.
pub proof fn lemma_table_cycle(kind: ModeKind)
    ensures
        kind != ModeKind::ServerMeditation ==> 0 < total_duration(spec_timeline_for_kind(kind)) <= u32::MAX,
        kind == ModeKind::ServerMeditation ==> total_duration(spec_timeline_for_kind(kind)) == 0,
{
    reveal_with_fuel(total_duration, 6);
    let t = spec_timeline_for_kind(kind);
    match kind {
        ModeKind::Discovery | ModeKind::Connecting | ModeKind::Game => {
            assert(t.drop_first() =~= seq![t[1]]);
            assert(t.drop_first().drop_first() =~= Seq::<LedState>::empty());
        },
        ModeKind::Client | ModeKind::Master => {
            assert(t.drop_first() =~= seq![t[1], t[2], t[3]]);
            assert(t.drop_first().drop_first() =~= seq![t[2], t[3]]);
            assert(t.drop_first().drop_first().drop_first() =~= seq![t[3]]);
            assert(t.drop_first().drop_first().drop_first().drop_first()
                =~= Seq::<LedState>::empty());
        },
        ModeKind::ServerMeditation => {},
    }
}

} // verus!
