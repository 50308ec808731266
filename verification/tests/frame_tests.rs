use ledswarm::frame::{ClientMessage, ControllerMessage, Frame, FrameError, FramePayload, GameMode};

fn round_trips(frame: Frame) {
    let bytes = frame.encode();
    let decoded = Frame::decode(bytes.as_slice()).expect("encoded frame must decode");
    assert_eq!(decoded, frame);
}

#[test]
fn join_request_round_trip() {
    round_trips(Frame::join_request(0));
    round_trips(Frame::join_request(1));
    round_trips(Frame::join_request(65535));
}

#[test]
fn join_response_round_trip() {
    round_trips(Frame::join_response(0, 1));
    round_trips(Frame::join_response(513, 2));
    round_trips(Frame::join_response(65535, 65535));
}

#[test]
fn set_brightness_round_trip() {
    round_trips(Frame::new().client_message(ClientMessage::SetBrightness(0)));
    round_trips(Frame::new().client_message(ClientMessage::SetBrightness(700)));
    round_trips(Frame::new().client_message(ClientMessage::SetBrightness(-1)));
    round_trips(Frame::new().client_message(ClientMessage::SetBrightness(i32::MAX)));
    round_trips(Frame::new().client_message(ClientMessage::SetBrightness(i32::MIN)));
}

#[test]
fn start_round_round_trip() {
    round_trips(Frame::new().client_message(ClientMessage::StartRound(GameMode::Idle)));
    round_trips(Frame::new().client_message(ClientMessage::StartRound(GameMode::LastOneStanding)));
    round_trips(Frame::new().client_message(ClientMessage::StartRound(GameMode::Territory)));
}

#[test]
fn jolt_delta_round_trip() {
    let frame = Frame {
        time: 42,
        payload: FramePayload::AccelerometerJoltDelta(123456),
    };
    round_trips(frame);
}

#[test]
fn exact_wire_layout() {
    // time 0x0102 little endian, tag 1, assigned id 0x0304 little endian.
    let bytes = Frame::join_response(0x0102, 0x0304).encode();
    assert_eq!(bytes, vec![0x02, 0x01, 1, 0x04, 0x03]);

    let bytes = Frame::join_request(5).encode();
    assert_eq!(bytes, vec![5, 0, 0]);
}

#[test]
fn malformed_bytes_are_rejected() {
    assert_eq!(Frame::decode(&[]), Err(FrameError::MalformedFrame));
    assert_eq!(Frame::decode(&[1, 2]), Err(FrameError::MalformedFrame));
    // unknown payload tag
    assert_eq!(Frame::decode(&[0, 0, 9]), Err(FrameError::MalformedFrame));
    // truncated join response
    assert_eq!(Frame::decode(&[0, 0, 1, 7]), Err(FrameError::MalformedFrame));
    // trailing bytes after a join request
    assert_eq!(Frame::decode(&[0, 0, 0, 0]), Err(FrameError::MalformedFrame));
    // a round start naming no game
    assert_eq!(Frame::decode(&[0, 0, 3, 3]), Err(FrameError::MalformedFrame));
}

#[test]
fn decode_accepts_the_documented_layout() {
    let decoded = Frame::decode(&[7, 0, 1, 2, 0]).expect("well-formed bytes");
    assert_eq!(decoded.time, 7);
    assert_eq!(
        decoded.payload,
        FramePayload::ControllerMessage(ControllerMessage::JoinResponse { assigned_id: 2 })
    );
}
