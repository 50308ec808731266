//! The wire message taxonomy exchanged between units, and its binary codec.
//!
//! A `Frame` is the unit of exchange both over the radio and across the
//! internal channels. Encoding is total and deterministic; decoding rejects
//! malformed or truncated bytes with `MalformedFrame` and never panics, and
//! the two are exact inverses: `decode(encode(f)) == Ok(f)` for every
//! constructible frame.
//!
//! Layout: two little-endian time bytes, one payload tag byte, then the
//! fixed-size payload of that tag. Fractional quantities travel as
//! fixed-point integers: brightness in thousandths of full scale (signed, so
//! out-of-range requests survive the trip and are clamped only by the
//! receiving handler), jolt deltas in hundredths.

use vstd::prelude::*;
use vstd::arithmetic::div_mod::{
    lemma_div_denominator, lemma_fundamental_div_mod, lemma_small_mod,
};

verus! {

/// Offline/standalone game selection; also names the game a round start asks
/// for.
#[derive(Debug, Clone, Copy, PartialEq, Eq, Structural)]
pub enum GameMode {
    Idle,
    LastOneStanding,
    Territory,
}

/// Join-handshake messages, spoken only between a would-be client and a
/// master.
#[derive(Debug, Clone, Copy, PartialEq, Eq, Structural)]
pub enum ControllerMessage {
    /// "Is anyone mastering a mesh; if so, admit me."
    JoinRequest,
    /// The master's admission reply.
    JoinResponse { assigned_id: u16 },
}

/// Commands addressed to every unit of the mesh.
#[derive(Debug, Clone, Copy, PartialEq, Eq, Structural)]
pub enum ClientMessage {
    /// Requested global LED intensity, in thousandths of full scale. Values
    /// outside `[0, 1000]` are clamped by the handler, never rejected.
    SetBrightness(i32),
    /// Master-initiated round start for the named game.
    StartRound(GameMode),
}

/// One frame's payload.
#[derive(Debug, Clone, Copy, PartialEq, Eq, Structural)]
pub enum FramePayload {
    ControllerMessage(ControllerMessage),
    ClientMessage(ClientMessage),
    /// The latest filtered jolt magnitude, in hundredths. Locally produced by
    /// the sensor filter and routed over the internal bus, never the radio.
    AccelerometerJoltDelta(u32),
}

/// The unit of exchange over the radio and across internal channels.
#[derive(Debug, Clone, Copy, PartialEq, Eq, Structural)]
pub struct Frame {
    /// The sender's tick counter when the frame was produced.
    pub time: u16,
    pub payload: FramePayload,
}

/// An event on the internal bus between the coordinator and its peripheral
/// tasks.
#[derive(Debug, Clone)]
pub enum InternalMessage {
    /// A client command, arriving from the ingress server.
    ClientMessage(ClientMessage),
    /// The latest filtered jolt magnitude, in hundredths, from the sensor
    /// filter task.
    AccelerometerJoltDelta(u32),
    /// A frame received over the radio.
    Frame(Box<Frame>),
}

/// Decoding failure: the bytes are not the encoding of any frame.
#[derive(Debug, Clone, Copy, PartialEq, Eq, Structural)]
pub enum FrameError {
    MalformedFrame,
}

/// The payload tag byte of each variant.
pub open spec fn payload_tag(payload: FramePayload) -> u8 {
    match payload {
        FramePayload::ControllerMessage(ControllerMessage::JoinRequest) => 0u8,
        FramePayload::ControllerMessage(ControllerMessage::JoinResponse { .. }) => 1u8,
        FramePayload::ClientMessage(ClientMessage::SetBrightness(..)) => 2u8,
        FramePayload::ClientMessage(ClientMessage::StartRound(..)) => 3u8,
        FramePayload::AccelerometerJoltDelta(..) => 4u8,
    }
}

/// The tag byte of a game mode.
pub open spec fn game_mode_tag(game: GameMode) -> u8 {
    match game {
        GameMode::Idle => 0u8,
        GameMode::LastOneStanding => 1u8,
        GameMode::Territory => 2u8,
    }
}

/// The game mode a tag byte names (tags above 2 are rejected by decoding).
pub open spec fn game_mode_of_tag(tag: u8) -> GameMode {
    if tag == 0 {
        GameMode::Idle
    } else if tag == 1 {
        GameMode::LastOneStanding
    } else {
        GameMode::Territory
    }
}

/// A brightness request as its 32 wire bits (two's complement).
pub open spec fn brightness_bits(brightness: i32) -> u32 {
    if brightness >= 0 {
        brightness as u32
    } else {
        (brightness + 0x1_0000_0000) as u32
    }
}

/// The brightness request that 32 wire bits carry (two's complement).
pub open spec fn brightness_of_bits(bits: u32) -> i32 {
    if bits < 0x8000_0000 {
        bits as i32
    } else {
        (bits - 0x1_0000_0000) as i32
    }
}

/// The two's-complement wire form is lossless.
pub proof fn lemma_brightness_bits_round_trip(brightness: i32)
    ensures
        brightness_of_bits(brightness_bits(brightness)) == brightness,
{
}

/// A `u16` recomposed from its two little-endian bytes.
pub open spec fn u16_of_le(lo: u8, hi: u8) -> u16 {
    (lo + 256 * hi) as u16
}

/// A `u32` recomposed from its four little-endian bytes.
pub open spec fn u32_of_le(b0: u8, b1: u8, b2: u8, b3: u8) -> u32 {
    (b0 + 256 * b1 + 65536 * b2 + 16777216 * b3) as u32
}

/// Splitting a `u16` into little-endian bytes is lossless.
pub proof fn lemma_u16_le_round_trip(x: u16)
    ensures
        u16_of_le((x % 256) as u8, (x / 256) as u8) == x,
{
    lemma_fundamental_div_mod(x as int, 256);
}

/// Splitting a `u32` into little-endian bytes is lossless.
pub proof fn lemma_u32_le_round_trip(x: u32)
    ensures
        u32_of_le(
            (x % 256) as u8,
            ((x / 256) % 256) as u8,
            ((x / 65536) % 256) as u8,
            ((x / 16777216) % 256) as u8,
        ) == x,
{
    lemma_fundamental_div_mod(x as int, 256);
    lemma_fundamental_div_mod(x as int / 256, 256);
    lemma_div_denominator(x as int, 256, 256);
    lemma_fundamental_div_mod(x as int / 65536, 256);
    lemma_div_denominator(x as int, 65536, 256);
    lemma_small_mod((x / 16777216) as nat, 256);
}

/// The bytes that encode a frame.
pub open spec fn spec_encode(f: Frame) -> Seq<u8> {
    let t0 = (f.time % 256) as u8;
    let t1 = (f.time / 256) as u8;
    match f.payload {
        FramePayload::ControllerMessage(ControllerMessage::JoinRequest) => seq![t0, t1, 0u8],
        FramePayload::ControllerMessage(ControllerMessage::JoinResponse { assigned_id }) => seq![
            t0,
            t1,
            1u8,
            (assigned_id % 256) as u8,
            (assigned_id / 256) as u8,
        ],
        FramePayload::ClientMessage(ClientMessage::SetBrightness(brightness)) => {
            let bits = brightness_bits(brightness);
            seq![
                t0,
                t1,
                2u8,
                (bits % 256) as u8,
                ((bits / 256) % 256) as u8,
                ((bits / 65536) % 256) as u8,
                ((bits / 16777216) % 256) as u8,
            ]
        },
        FramePayload::ClientMessage(ClientMessage::StartRound(game)) => seq![
            t0,
            t1,
            3u8,
            game_mode_tag(game),
        ],
        FramePayload::AccelerometerJoltDelta(delta) => seq![
            t0,
            t1,
            4u8,
            (delta % 256) as u8,
            ((delta / 256) % 256) as u8,
            ((delta / 65536) % 256) as u8,
            ((delta / 16777216) % 256) as u8,
        ],
    }
}

/// The frame that a byte string encodes, if any. Exact lengths are enforced:
/// truncated frames and trailing bytes are both malformed.
pub open spec fn spec_decode(s: Seq<u8>) -> Option<Frame> {
    if s.len() < 3 {
        None
    } else {
        let time = u16_of_le(s[0], s[1]);
        if s[2] == 0 {
            if s.len() == 3 {
                Some(Frame {
                    time,
                    payload: FramePayload::ControllerMessage(ControllerMessage::JoinRequest),
                })
            } else {
                None
            }
        } else if s[2] == 1 {
            if s.len() == 5 {
                Some(Frame {
                    time,
                    payload: FramePayload::ControllerMessage(ControllerMessage::JoinResponse {
                        assigned_id: u16_of_le(s[3], s[4]),
                    }),
                })
            } else {
                None
            }
        } else if s[2] == 2 {
            if s.len() == 7 {
                Some(Frame {
                    time,
                    payload: FramePayload::ClientMessage(ClientMessage::SetBrightness(
                        brightness_of_bits(u32_of_le(s[3], s[4], s[5], s[6])),
                    )),
                })
            } else {
                None
            }
        } else if s[2] == 3 {
            if s.len() == 4 && s[3] < 3 {
                Some(Frame {
                    time,
                    payload: FramePayload::ClientMessage(ClientMessage::StartRound(
                        game_mode_of_tag(s[3]),
                    )),
                })
            } else {
                None
            }
        } else if s[2] == 4 {
            if s.len() == 7 {
                Some(Frame {
                    time,
                    payload: FramePayload::AccelerometerJoltDelta(
                        u32_of_le(s[3], s[4], s[5], s[6]),
                    ),
                })
            } else {
                None
            }
        } else {
            None
        }
    }
}

/// LAW (frame round-trip): decoding an encoded frame yields the frame back,
/// for every constructible frame value.
pub proof fn lemma_frame_round_trip(f: Frame)
    ensures
        spec_decode(spec_encode(f)) == Some(f),
{
    lemma_u16_le_round_trip(f.time);
    match f.payload {
        FramePayload::ControllerMessage(ControllerMessage::JoinRequest) => {},
        FramePayload::ControllerMessage(ControllerMessage::JoinResponse { assigned_id }) => {
            lemma_u16_le_round_trip(assigned_id);
        },
        FramePayload::ClientMessage(ClientMessage::SetBrightness(brightness)) => {
            lemma_u32_le_round_trip(brightness_bits(brightness));
            lemma_brightness_bits_round_trip(brightness);
        },
        FramePayload::ClientMessage(ClientMessage::StartRound(game)) => {},
        FramePayload::AccelerometerJoltDelta(delta) => {
            lemma_u32_le_round_trip(delta);
        },
    }
}

impl Frame {
    /// A blank frame at time zero, carrying a join request until a builder
    /// method replaces the payload.
    pub fn new() -> (frame: Frame)
        ensures
            frame.time == 0,
            frame.payload == FramePayload::ControllerMessage(ControllerMessage::JoinRequest),
    {
        Frame {
            time: 0,
            payload: FramePayload::ControllerMessage(ControllerMessage::JoinRequest),
        }
    }

    /// Replace the payload with a client command.
    pub fn client_message(self, msg: ClientMessage) -> (frame: Frame)
        ensures
            frame.time == self.time,
            frame.payload == FramePayload::ClientMessage(msg),
    {
        Frame { payload: FramePayload::ClientMessage(msg), ..self }
    }

    /// A join request at the sender's current tick.
    pub fn join_request(time: u16) -> (frame: Frame)
        ensures
            frame.time == time,
            frame.payload == FramePayload::ControllerMessage(ControllerMessage::JoinRequest),
    {
        Frame {
            time,
            payload: FramePayload::ControllerMessage(ControllerMessage::JoinRequest),
        }
    }

    /// A join admission reply carrying the id assigned to the joiner.
    pub fn join_response(time: u16, assigned_id: u16) -> (frame: Frame)
        ensures
            frame.time == time,
            frame.payload == FramePayload::ControllerMessage(ControllerMessage::JoinResponse {
                assigned_id,
            }),
    {
        Frame {
            time,
            payload: FramePayload::ControllerMessage(ControllerMessage::JoinResponse {
                assigned_id,
            }),
        }
    }

    /// Encode this frame for the wire. Total: every constructible frame has
    /// an encoding.
    pub fn encode(&self) -> (bytes: Vec<u8>)
        ensures
            bytes@ == spec_encode(*self),
    {
        let mut out: Vec<u8> = Vec::new();
        out.push((self.time % 256) as u8);
        out.push((self.time / 256) as u8);
        match &self.payload {
            FramePayload::ControllerMessage(ControllerMessage::JoinRequest) => {
                out.push(0);
            },
            FramePayload::ControllerMessage(ControllerMessage::JoinResponse { assigned_id }) => {
                out.push(1);
                out.push((assigned_id % 256) as u8);
                out.push((assigned_id / 256) as u8);
            },
            FramePayload::ClientMessage(ClientMessage::SetBrightness(brightness)) => {
                out.push(2);
                let bits = brightness_to_bits(*brightness);
                out.push((bits % 256) as u8);
                out.push((bits / 256 % 256) as u8);
                out.push((bits / 65536 % 256) as u8);
                out.push((bits / 16777216 % 256) as u8);
            },
            FramePayload::ClientMessage(ClientMessage::StartRound(game)) => {
                out.push(3);
                out.push(game_mode_to_tag(*game));
            },
            FramePayload::AccelerometerJoltDelta(delta) => {
                out.push(4);
                out.push((delta % 256) as u8);
                out.push((delta / 256 % 256) as u8);
                out.push((delta / 65536 % 256) as u8);
                out.push((delta / 16777216 % 256) as u8);
            },
        }
        proof {
            assert(out@ =~= spec_encode(*self));
        }
        out
    }

    /// Decode a byte string received from the wire. Never panics: malformed
    /// or truncated bytes yield `MalformedFrame`, which the coordinator
    /// treats as a silently dropped frame.
    pub fn decode(bytes: &[u8]) -> (decoded: Result<Frame, FrameError>)
        ensures
            match decoded {
                Ok(frame) => spec_decode(bytes@) == Some(frame),
                Err(FrameError::MalformedFrame) => spec_decode(bytes@) is None,
            },
    {
        if bytes.len() < 3 {
            return Err(FrameError::MalformedFrame);
        }
        let time: u16 = bytes[0] as u16 + 256 * (bytes[1] as u16);
        let tag = bytes[2];
        if tag == 0 {
            if bytes.len() == 3 {
                Ok(Frame {
                    time,
                    payload: FramePayload::ControllerMessage(ControllerMessage::JoinRequest),
                })
            } else {
                Err(FrameError::MalformedFrame)
            }
        } else if tag == 1 {
            if bytes.len() == 5 {
                let assigned_id: u16 = bytes[3] as u16 + 256 * (bytes[4] as u16);
                Ok(Frame {
                    time,
                    payload: FramePayload::ControllerMessage(ControllerMessage::JoinResponse {
                        assigned_id,
                    }),
                })
            } else {
                Err(FrameError::MalformedFrame)
            }
        } else if tag == 2 {
            if bytes.len() == 7 {
                let bits = u32_from_le_bytes(bytes[3], bytes[4], bytes[5], bytes[6]);
                Ok(Frame {
                    time,
                    payload: FramePayload::ClientMessage(ClientMessage::SetBrightness(
                        bits_to_brightness(bits),
                    )),
                })
            } else {
                Err(FrameError::MalformedFrame)
            }
        } else if tag == 3 {
            if bytes.len() == 4 && bytes[3] < 3 {
                let game = if bytes[3] == 0 {
                    GameMode::Idle
                } else if bytes[3] == 1 {
                    GameMode::LastOneStanding
                } else {
                    GameMode::Territory
                };
                Ok(Frame {
                    time,
                    payload: FramePayload::ClientMessage(ClientMessage::StartRound(game)),
                })
            } else {
                Err(FrameError::MalformedFrame)
            }
        } else if tag == 4 {
            if bytes.len() == 7 {
                let delta = u32_from_le_bytes(bytes[3], bytes[4], bytes[5], bytes[6]);
                Ok(Frame {
                    time,
                    payload: FramePayload::AccelerometerJoltDelta(delta),
                })
            } else {
                Err(FrameError::MalformedFrame)
            }
        } else {
            Err(FrameError::MalformedFrame)
        }
    }
}

/// The tag byte of a game mode.
pub fn game_mode_to_tag(game: GameMode) -> (tag: u8)
    ensures
        tag == game_mode_tag(game),
{
    match game {
        GameMode::Idle => 0,
        GameMode::LastOneStanding => 1,
        GameMode::Territory => 2,
    }
}

/// A brightness request as its 32 wire bits (two's complement).
fn brightness_to_bits(brightness: i32) -> (bits: u32)
    ensures
        bits == brightness_bits(brightness),
{
    if brightness >= 0 {
        brightness as u32
    } else {
        ((brightness as i64) + 0x1_0000_0000i64) as u32
    }
}

/// The brightness request that 32 wire bits carry (two's complement).
fn bits_to_brightness(bits: u32) -> (brightness: i32)
    ensures
        brightness == brightness_of_bits(bits),
{
    if bits < 0x8000_0000 {
        bits as i32
    } else {
        ((bits as i64) - 0x1_0000_0000i64) as i32
    }
}

/// A `u32` recomposed from its four little-endian bytes.
fn u32_from_le_bytes(b0: u8, b1: u8, b2: u8, b3: u8) -> (x: u32)
    ensures
        x == u32_of_le(b0, b1, b2, b3),
{
    b0 as u32 + 256 * (b1 as u32) + 65536 * (b2 as u32) + 16777216 * (b3 as u32)
}

} // verus!
