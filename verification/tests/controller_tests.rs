use ledswarm::controller::{
    discovery_transition, ClientGameState, Controller, ControllerMode, GameState, LedCommand,
    RemoteController, DELTA_THRESHOLD,
};
use ledswarm::frame::{
    ClientMessage, ControllerMessage, Frame, FramePayload, GameMode, InternalMessage,
};

fn join_request(time: u16) -> Frame {
    Frame::join_request(time)
}

#[test]
fn first_join_bootstraps_a_master() {
    let mut unit = Controller::new();
    unit.mode = ControllerMode::ServerMeditation;

    let out = unit.handle_uwb_frame(10, join_request(10));

    match &unit.mode {
        ControllerMode::Master { controllers, id_counter, game } => {
            assert_eq!(controllers.len(), 1);
            assert_eq!(controllers[0].id, 1);
            assert_eq!(*id_counter, 2);
            assert!(game.is_none());
        }
        other => panic!("expected master mode, got {:?}", other),
    }
    assert_eq!(out, vec![Frame::join_response(10, 1)]);
}

#[test]
fn second_join_gets_the_next_id() {
    let mut unit = Controller::new();
    unit.mode = ControllerMode::ServerMeditation;
    unit.handle_uwb_frame(10, join_request(10));

    let out = unit.handle_uwb_frame(11, join_request(11));

    match &unit.mode {
        ControllerMode::Master { controllers, id_counter, .. } => {
            assert_eq!(controllers.len(), 2);
            assert_eq!(controllers[0].id, 1);
            assert_eq!(controllers[1].id, 2);
            assert_eq!(*id_counter, 3);
        }
        other => panic!("expected master mode, got {:?}", other),
    }
    assert_eq!(out, vec![Frame::join_response(11, 2)]);
}

#[test]
fn join_request_out_of_context_is_ignored() {
    let mut unit = Controller::new();
    assert!(matches!(unit.mode, ControllerMode::Discovery));

    let out = unit.handle_uwb_frame(0, join_request(0));

    assert!(matches!(unit.mode, ControllerMode::Discovery));
    assert!(out.is_empty());
}

#[test]
fn join_response_makes_a_client() {
    let mut unit = Controller::new();
    let frame = Frame::join_response(3, 7);

    let out = unit.handle_uwb_frame(3, frame);

    match &unit.mode {
        ControllerMode::Client { id, game } => {
            assert_eq!(*id, 7);
            assert!(game.is_none());
        }
        other => panic!("expected client mode, got {:?}", other),
    }
    assert!(out.is_empty());
}

#[test]
fn join_response_does_not_demote_a_master() {
    let mut unit = Controller::new();
    unit.mode = ControllerMode::ServerMeditation;
    unit.handle_uwb_frame(0, join_request(0));

    let out = unit.handle_uwb_frame(1, Frame::join_response(1, 9));

    assert!(matches!(unit.mode, ControllerMode::Master { .. }));
    assert!(out.is_empty());
}

#[test]
fn master_rebroadcasts_brightness() {
    let mut unit = Controller::new();
    unit.mode = ControllerMode::ServerMeditation;
    unit.handle_uwb_frame(0, join_request(0));

    let out = unit.handle_client_msg(ClientMessage::SetBrightness(700));

    assert_eq!(unit.led.config.intensity, 700);
    assert_eq!(out.len(), 1);
    assert_eq!(
        out[0].payload,
        FramePayload::ClientMessage(ClientMessage::SetBrightness(700))
    );
}

#[test]
fn client_applies_brightness_without_echo() {
    let mut unit = Controller::new();
    unit.handle_uwb_frame(0, Frame::join_response(0, 2));

    let out = unit.handle_client_msg(ClientMessage::SetBrightness(700));

    assert_eq!(unit.led.config.intensity, 700);
    assert!(out.is_empty());
}

#[test]
fn brightness_is_clamped_not_rejected() {
    let mut unit = Controller::new();

    unit.handle_client_msg(ClientMessage::SetBrightness(1500));
    assert_eq!(unit.led.config.intensity, 1000);

    unit.handle_client_msg(ClientMessage::SetBrightness(-5));
    assert_eq!(unit.led.config.intensity, 0);

    unit.handle_client_msg(ClientMessage::SetBrightness(250));
    assert_eq!(unit.led.config.intensity, 250);
}

#[test]
fn master_round_start_arms_and_broadcasts() {
    let mut unit = Controller::new();
    unit.mode = ControllerMode::ServerMeditation;
    unit.handle_uwb_frame(0, join_request(0));
    unit.handle_uwb_frame(1, join_request(1));

    let out = unit.handle_client_msg(ClientMessage::StartRound(GameMode::LastOneStanding));

    match &unit.mode {
        ControllerMode::Master { game, .. } => match game {
            Some(GameState::LastOneStanding { active_controller_ids, exited_controller_ids }) => {
                assert_eq!(active_controller_ids, &vec![1, 2]);
                assert!(exited_controller_ids.is_empty());
            }
            other => panic!("expected an armed round, got {:?}", other),
        },
        other => panic!("expected master mode, got {:?}", other),
    }
    assert_eq!(out.len(), 1);
    assert_eq!(
        out[0].payload,
        FramePayload::ClientMessage(ClientMessage::StartRound(GameMode::LastOneStanding))
    );
}

#[test]
fn client_round_start_arms_locally() {
    let mut unit = Controller::new();
    unit.handle_uwb_frame(0, Frame::join_response(0, 4));

    let out = unit.handle_client_msg(ClientMessage::StartRound(GameMode::LastOneStanding));

    match &unit.mode {
        ControllerMode::Client { game, .. } => {
            assert_eq!(
                game,
                &Some(ClientGameState::LastOneStanding { is_active: true })
            );
        }
        other => panic!("expected client mode, got {:?}", other),
    }
    assert!(out.is_empty());
}

#[test]
fn round_start_out_of_context_is_ignored() {
    let mut unit = Controller::new();

    let out = unit.handle_client_msg(ClientMessage::StartRound(GameMode::LastOneStanding));

    assert!(matches!(unit.mode, ControllerMode::Discovery));
    assert!(out.is_empty());
}

#[test]
fn internal_jolt_updates_the_sensors() {
    let mut unit = Controller::new();

    let out = unit.handle_internal_msg(0, InternalMessage::AccelerometerJoltDelta(37));

    assert_eq!(unit.sensors.accelerometer_jolt, 37);
    assert!(out.is_empty());
}

#[test]
fn internal_frame_is_dispatched() {
    let mut unit = Controller::new();
    unit.mode = ControllerMode::ServerMeditation;

    let frame = Box::new(join_request(5));
    let out = unit.handle_internal_msg(5, InternalMessage::Frame(frame));

    assert!(matches!(unit.mode, ControllerMode::Master { .. }));
    assert_eq!(out, vec![Frame::join_response(5, 1)]);
}

#[test]
fn elimination_latch_is_sticky() {
    let mut unit = Controller::new();
    unit.mode = ControllerMode::Game(GameMode::LastOneStanding);

    // A jolt at the threshold: full red, and the latch sets.
    let cmd = unit.led_pattern(0, DELTA_THRESHOLD, DELTA_THRESHOLD);
    assert_eq!(
        cmd,
        Some(LedCommand::Solid { red: 255, green: 0, blue: 0, white: 0 })
    );
    assert!(unit.stay_red);

    // Holding perfectly still afterwards: still full red.
    let cmd = unit.led_pattern(1, DELTA_THRESHOLD, 0);
    assert_eq!(
        cmd,
        Some(LedCommand::Solid { red: 255, green: 0, blue: 0, white: 0 })
    );
    assert!(unit.stay_red);
}

#[test]
fn game_color_fades_green_to_red() {
    let mut unit = Controller::new();
    unit.mode = ControllerMode::Game(GameMode::LastOneStanding);

    // Half the threshold: half red.
    let cmd = unit.led_pattern(0, 40, 20);
    assert_eq!(
        cmd,
        Some(LedCommand::Solid { red: 127, green: 128, blue: 0, white: 0 })
    );
    assert!(!unit.stay_red);
}

#[test]
fn idle_game_modes_show_nothing() {
    let mut unit = Controller::new();
    unit.mode = ControllerMode::Game(GameMode::Idle);
    assert_eq!(unit.led_pattern(0, 40, 0), None);
    unit.mode = ControllerMode::Game(GameMode::Territory);
    assert_eq!(unit.led_pattern(0, 40, 0), None);
}

#[test]
fn pairing_indicators() {
    let mut unit = Controller::new();
    unit.mode = ControllerMode::ServerMeditation;
    unit.handle_uwb_frame(0, join_request(0));

    // Master without a round: static blue.
    let cmd = unit.led_pattern(0, 40, 0);
    assert_eq!(
        cmd,
        Some(LedCommand::Solid { red: 0, green: 30, blue: 255, white: 0 })
    );

    // Client without a round: orange.
    let mut unit = Controller::new();
    unit.handle_uwb_frame(0, Frame::join_response(0, 2));
    let cmd = unit.led_pattern(0, 40, 0);
    assert_eq!(
        cmd,
        Some(LedCommand::Solid { red: 250, green: 80, blue: 0, white: 0 })
    );
}

#[test]
fn meditation_reports_its_phase() {
    let mut unit = Controller::new();
    unit.mode = ControllerMode::ServerMeditation;

    assert_eq!(
        unit.led_pattern(5000, 40, 0),
        Some(LedCommand::Meditation { phase: 5000 % 4096 })
    );
}

#[test]
fn tick_applies_override_then_message_then_advances() {
    let mut unit = Controller::new();

    let (out, cmd) = unit.tick(
        Some(ControllerMode::ServerMeditation),
        Some(InternalMessage::Frame(Box::new(join_request(0)))),
    );

    assert!(matches!(unit.mode, ControllerMode::Master { .. }));
    assert_eq!(out, vec![Frame::join_response(0, 1)]);
    // A fresh master shows the static pairing blue.
    assert_eq!(
        cmd,
        Some(LedCommand::Solid { red: 0, green: 30, blue: 255, white: 0 })
    );
    assert_eq!(unit.time, 1);
}

#[test]
fn tick_rebroadcasts_brightness_for_a_master() {
    let mut unit = Controller::new();
    unit.mode = ControllerMode::ServerMeditation;
    unit.tick(None, Some(InternalMessage::Frame(Box::new(join_request(0)))));

    let (out, _) = unit.tick(
        None,
        Some(InternalMessage::ClientMessage(ClientMessage::SetBrightness(400))),
    );

    assert_eq!(unit.led.config.intensity, 400);
    assert_eq!(out.len(), 1);
    assert_eq!(
        out[0].payload,
        FramePayload::ClientMessage(ClientMessage::SetBrightness(400))
    );
    assert_eq!(unit.time, 2);
}

#[test]
fn tick_counter_wraps() {
    let mut unit = Controller::new();
    unit.time = u16::MAX;
    unit.tick(None, None);
    assert_eq!(unit.time, 0);
}

#[test]
fn discovery_resolves_to_connecting_or_hosting() {
    assert!(matches!(discovery_transition(true), ControllerMode::Connecting));
    assert!(matches!(
        discovery_transition(false),
        ControllerMode::ServerMeditation
    ));
}

#[test]
fn remote_controllers_get_collision_resistant_ids() {
    let a = RemoteController::new(1);
    let b = RemoteController::new(1);
    assert_eq!(a.unique_id.len(), 10);
    assert_eq!(b.unique_id.len(), 10);
    // Ten random characters from a 64-symbol alphabet: a collision here
    // means the generator handed something constant back.
    assert_ne!(a.unique_id, b.unique_id);
}
