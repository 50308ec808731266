use ledswarm::controller::ControllerMode;
use ledswarm::led::{meditation_white, Led, LedConfig};
use ledswarm::timeline::{LedMode, LedState, LedTimeline};

const CYAN: (u8, u8, u8, u8) = (0, 255, 255, 0);
const BLACK: (u8, u8, u8, u8) = (0, 0, 0, 0);

#[test]
fn single_color_of_each_mode() {
    let all = LedState::all(10, (1, 2, 3, 4));
    assert_eq!(all.get_single_color(0), (1, 2, 3, 4));

    let colors = [(9, 8, 7, 6); 7];
    let each = LedState::each(10, colors);
    assert_eq!(each.get_single_color(0), (9, 8, 7, 6));

    let direct = LedState { duration: 10, mode: LedMode::DirectDrive };
    assert_eq!(direct.get_single_color(0), (0, 0, 0, 0));
}

#[test]
fn color_array_of_each_mode() {
    let all = LedState::all(10, (1, 2, 3, 4));
    assert_eq!(all.get_color_array(), [(1, 2, 3, 4); 7]);

    let mut colors = [(0, 0, 0, 0); 7];
    colors[3] = (5, 5, 5, 5);
    let each = LedState::each(10, colors);
    assert_eq!(each.get_color_array(), colors);

    let direct = LedState { duration: 10, mode: LedMode::DirectDrive };
    assert_eq!(direct.get_color_array(), [(0, 0, 0, 0); 7]);
}

#[test]
fn current_color_follows_the_segments() {
    let timeline = LedTimeline::new(vec![
        LedState::all(2, CYAN),
        LedState::all(3, BLACK),
    ]);
    assert_eq!(timeline.get_current_color(0), CYAN);
    assert_eq!(timeline.get_current_color(1), CYAN);
    assert_eq!(timeline.get_current_color(2), BLACK);
    assert_eq!(timeline.get_current_color(4), BLACK);
    // the cycle repeats with period 5
    assert_eq!(timeline.get_current_color(5), CYAN);
    assert_eq!(timeline.get_current_color(7), BLACK);
}

#[test]
fn current_color_is_periodic() {
    let timeline = LedTimeline::new(vec![
        LedState::all(2, CYAN),
        LedState::all(3, BLACK),
    ]);
    for t in 0u16..40 {
        assert_eq!(timeline.get_current_color(t), timeline.get_current_color(t % 5));
        assert_eq!(timeline.get_current_color(t), timeline.get_current_color(t + 5));
    }
}

#[test]
fn discovery_blinks_cyan_seconds() {
    let timeline = LedTimeline::from_mode(&ControllerMode::Discovery);
    assert_eq!(timeline.get_current_color(0), CYAN);
    assert_eq!(timeline.get_current_color(999), CYAN);
    assert_eq!(timeline.get_current_color(1000), BLACK);
    assert_eq!(timeline.get_current_color(1999), BLACK);
    assert_eq!(timeline.get_current_color(2000), CYAN);
}

#[test]
fn connecting_blinks_twice_as_fast() {
    let timeline = LedTimeline::from_mode(&ControllerMode::Connecting);
    assert_eq!(timeline.get_current_color(0), CYAN);
    assert_eq!(timeline.get_current_color(499), CYAN);
    assert_eq!(timeline.get_current_color(500), BLACK);
    assert_eq!(timeline.get_current_color(1000), CYAN);
}

#[test]
fn client_timeline_double_blinks() {
    let timeline = LedTimeline::from_mode(&ControllerMode::Client { id: 1, game: None });
    let green = (0, 100, 0, 0);
    assert_eq!(timeline.get_current_color(0), green);
    assert_eq!(timeline.get_current_color(50), BLACK);
    assert_eq!(timeline.get_current_color(100), green);
    assert_eq!(timeline.get_current_color(150), BLACK);
    assert_eq!(timeline.get_current_color(999), BLACK);
    assert_eq!(timeline.get_current_color(1000), green);
}

#[test]
fn pattern_memoizes_across_mode_changes() {
    let mut led = Led::new(LedConfig { pin: 0, intensity: 1000 });
    // Fresh cache, discovery.
    assert_eq!(led.pattern(&ControllerMode::Discovery, 0), CYAN);
    // Same mode, later tick: cached timeline, same table.
    assert_eq!(led.pattern(&ControllerMode::Discovery, 1500), BLACK);
    // Mode change regenerates; 1500 lies in connecting's second half-cycle.
    assert_eq!(led.pattern(&ControllerMode::Connecting, 1500), BLACK);
    assert_eq!(led.pattern(&ControllerMode::Connecting, 2249), CYAN);
    // And back.
    assert_eq!(led.pattern(&ControllerMode::Discovery, 500), CYAN);
}

#[test]
fn intensity_scales_every_channel() {
    let led = Led::new(LedConfig { pin: 0, intensity: 500 });
    assert_eq!(led.scale_rgbw(200, 100, 50, 255), (100, 50, 25, 127));

    let full = Led::new(LedConfig { pin: 0, intensity: 1000 });
    assert_eq!(full.scale_rgbw(200, 100, 50, 255), (200, 100, 50, 255));

    let off = Led::new(LedConfig { pin: 0, intensity: 0 });
    assert_eq!(off.scale_rgbw(200, 100, 50, 255), (0, 0, 0, 0));
}

#[test]
fn meditation_white_balances_the_hue() {
    // Dark hue: white tops up to the desired intensity of 120.
    assert_eq!(meditation_white(0, 0, 0), 120);
    // Mean 60: half the desired intensity comes from white.
    assert_eq!(meditation_white(30, 60, 90), 60);
    // Bright hue: no white at all.
    assert_eq!(meditation_white(200, 200, 200), 0);
}
