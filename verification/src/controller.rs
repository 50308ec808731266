//! The mesh coordinator: the controller's mode state machine, the records it
//! keeps about joined peers, and the handlers that dispatch inbound frames
//! and local events.
//!
//! Exactly one node in a mesh holds `Master`; all others hold `Client`. The
//! master's `id_counter` only increases and every issued id is unique within
//! the mesh's lifetime: ids are never reused even if a client departs.

use vstd::prelude::*;

use crate::frame::{
    ClientMessage, ControllerMessage, Frame, FramePayload, GameMode, InternalMessage,
};
use crate::led::{Led, LedConfig};
use crate::timeline::{spec_timeline_for_kind, timeline_color};
use crate::{clamp_brightness, spec_clamped};

verus! {

/// Relies on `nanoid::format` with the URL-safe default alphabet and the
/// crate's default random source: it returns an id of exactly `len`
/// characters drawn from that alphabet (it loops until the id has `len`
/// characters, so it must not be asked for an empty id).
#[verifier::external_body]
fn random_id_string(len: usize) -> (id: String)
    requires
        len >= 1,
    ensures
        id@.len() == len,
{
    nanoid::format(nanoid::rngs::default, &nanoid::alphabet::SAFE, len)
}

/// Master-side record of a joined peer.
#[derive(Debug, Clone)]
pub struct RemoteController {
    /// A locally generated, collision-resistant identifier for diagnostics.
    pub unique_id: String,
    /// The mesh-assigned numeric identity handed to that peer.
    pub id: u16,
}

impl RemoteController {
    pub fn new(id: u16) -> (peer: Self)
        ensures
            peer.id == id,
            peer.unique_id@.len() == 10,
    {
        Self { unique_id: random_id_string(10), id }
    }
}

/// Master-side view of a running round: two disjoint sets partitioning the
/// ids that were active when the round started. Membership only moves from
/// active to exited, never back, for the duration of a round.
///
/// No message type reports a client's local elimination back to the master
/// yet, so the sets are initialized at round start and not updated from peer
/// events.
#[derive(Debug, Clone, PartialEq)]
pub enum GameState {
    LastOneStanding {
        /// The ids of all controllers currently active in the round.
        active_controller_ids: Vec<u16>,
        /// The ids of the controllers that have been eliminated from the round.
        exited_controller_ids: Vec<u16>,
    },
}

/// Client-side view of the same round, reduced to this unit's own fate.
#[derive(Debug, Clone, PartialEq)]
pub enum ClientGameState {
    LastOneStanding {
        /// Whether the client is currently active in the round.
        is_active: bool,
    },
}

/// The unit's current role/phase in the mesh.
#[derive(Debug, Clone)]
pub enum ControllerMode {
    /// The controller is currently trying to find nearby devices to build a
    /// mesh with. Blinks cyan for a second followed by a pause of equal
    /// length.
    Discovery,
    /// The controller has found a nearby mesh and is currently trying to join
    /// the existing session.
    Connecting,
    /// The controller is connected to a mesh as a non-master node.
    Client {
        /// The id assigned by the master, starting from 1 since 0 is the
        /// master itself.
        id: u16,
        game: Option<ClientGameState>,
    },
    /// The controller is hosting a new network and waiting for other
    /// controllers to join the session.
    ServerMeditation,
    /// The controller is the master node of a mesh.
    Master {
        /// All controllers known to this master, in join order.
        controllers: Vec<RemoteController>,
        /// An incrementing counter used to assign unique ids to joiners.
        id_counter: u16,
        /// The current game state if a round is running.
        game: Option<GameState>,
    },
    /// The controller is in a standalone game session.
    Game(GameMode),
}

/// The variant of a `ControllerMode`, with the payload forgotten. The LED
/// timeline tables depend only on this, so it doubles as the memoization key
/// for the timeline cache.
#[derive(Debug, Clone, Copy, PartialEq, Eq, Structural)]
pub enum ModeKind {
    Discovery,
    Connecting,
    Client,
    ServerMeditation,
    Master,
    Game,
}

/// The variant of `mode`, with the payload forgotten.
pub open spec fn spec_kind(mode: ControllerMode) -> ModeKind {
    match mode {
        ControllerMode::Discovery => ModeKind::Discovery,
        ControllerMode::Connecting => ModeKind::Connecting,
        ControllerMode::Client { .. } => ModeKind::Client,
        ControllerMode::ServerMeditation => ModeKind::ServerMeditation,
        ControllerMode::Master { .. } => ModeKind::Master,
        ControllerMode::Game(..) => ModeKind::Game,
    }
}

impl ControllerMode {
    pub fn kind(&self) -> (kind: ModeKind)
        ensures
            kind == spec_kind(*self),
    {
        match self {
            ControllerMode::Discovery => ModeKind::Discovery,
            ControllerMode::Connecting => ModeKind::Connecting,
            ControllerMode::Client { .. } => ModeKind::Client,
            ControllerMode::ServerMeditation => ModeKind::ServerMeditation,
            ControllerMode::Master { .. } => ModeKind::Master,
            ControllerMode::Game(..) => ModeKind::Game,
        }
    }
}

/// Every peer record in `s` carries an id strictly below `bound`.
pub open spec fn ids_below(s: Seq<RemoteController>, bound: u16) -> bool {
    forall|i: int| 0 <= i < s.len() ==> #[trigger] s[i].id < bound
}

/// Peer records carry strictly increasing mesh-assigned ids, in join order.
pub open spec fn ids_strictly_increasing(s: Seq<RemoteController>) -> bool {
    forall|i: int, j: int| 0 <= i < j < s.len() ==> #[trigger] s[i].id < #[trigger] s[j].id
}

/// Well-formedness of a mode value. For a master: the counter is past every
/// issued id and the peer list carries strictly increasing ids, so every
/// issued id is unique; for a client: mesh-assigned ids start at 1.
pub open spec fn mode_wf(mode: ControllerMode) -> bool {
    match mode {
        ControllerMode::Master { controllers, id_counter, .. } => {
            &&& id_counter >= 1
            &&& ids_below(controllers@, id_counter)
            &&& ids_strictly_increasing(controllers@)
        },
        ControllerMode::Client { id, .. } => id >= 1,
        _ => true,
    }
}

/// LAW (unique ids): in a well-formed master mode, no two distinct peer
/// records hold the same mesh-assigned id.
pub proof fn lemma_issued_ids_unique(
    controllers: Vec<RemoteController>,
    id_counter: u16,
    game: Option<GameState>,
    i: int,
    j: int,
)
    requires
        mode_wf(ControllerMode::Master { controllers, id_counter, game }),
        0 <= i < controllers@.len(),
        0 <= j < controllers@.len(),
        i != j,
    ensures
        controllers@[i].id != controllers@[j].id,
{
    assert(ids_strictly_increasing(controllers@));
    if i < j {
        assert(controllers@[i].id < controllers@[j].id);
    } else {
        assert(controllers@[j].id < controllers@[i].id);
    }
}

/// Per-unit live sensor state.
pub struct Sensors {
    /// The current average jolt (change of acceleration) experienced by the
    /// controller enclosure, in hundredths: a moving average of recent vector
    /// magnitudes of the accelerometer readings.
    pub accelerometer_jolt: u32,
}

impl Sensors {
    pub fn new() -> (sensors: Self)
        ensures
            sensors.accelerometer_jolt == 0,
    {
        Self { accelerometer_jolt: 0 }
    }
}

/// What the coordinator asks the LED driver to show this tick.
#[derive(Debug, Clone, Copy, PartialEq, Eq, Structural)]
pub enum LedCommand {
    /// All diodes take this RGBW color (before intensity scaling).
    Solid { red: u8, green: u8, blue: u8, white: u8 },
    /// The meditation animation at this phase of its cycle: the three color
    /// channels follow phase-shifted sine waves of the phase, the white
    /// channel tops them up to constant perceived brightness.
    Meditation { phase: u16 },
}

/// The cycle length of the meditation animation, in ticks.
pub const MEDITATION_CYCLE: u16 = 4096;

/// The jolt above which a unit counts as hit in a round, in hundredths.
pub const DELTA_THRESHOLD: u32 = 40;

/// The brightness frame a master re-broadcasts to the mesh.
pub open spec fn spec_brightness_frame(brightness: i32) -> Frame {
    Frame {
        time: 0,
        payload: FramePayload::ClientMessage(ClientMessage::SetBrightness(brightness)),
    }
}

/// The round-start frame a master broadcasts to the mesh.
pub open spec fn spec_start_round_frame(game: GameMode) -> Frame {
    Frame {
        time: 0,
        payload: FramePayload::ClientMessage(ClientMessage::StartRound(game)),
    }
}

/// The coordinator state owned exclusively by the tick loop.
pub struct Controller {
    pub mode: ControllerMode,
    /// Peer records kept outside the mode for diagnostics; the master's
    /// authoritative join-order list lives in its mode payload.
    pub connected_controllers: Vec<RemoteController>,
    pub sensors: Sensors,
    /// The elimination latch: set once the jolt reaches the round threshold,
    /// cleared only by starting over.
    pub stay_red: bool,
    /// The wrapping tick counter.
    pub time: u16,
    pub led: Led,
}

/// Everything except the LED engine state is unchanged.
pub open spec fn non_led_state_unchanged(pre: Controller, post: Controller) -> bool {
    &&& post.mode == pre.mode
    &&& post.connected_controllers == pre.connected_controllers
    &&& post.sensors == pre.sensors
    &&& post.stay_red == pre.stay_red
    &&& post.time == pre.time
}

/// Everything except the mode is unchanged.
pub open spec fn mode_only_changed(pre: Controller, post: Controller) -> bool {
    &&& post.connected_controllers == pre.connected_controllers
    &&& post.sensors == pre.sensors
    &&& post.stay_red == pre.stay_red
    &&& post.time == pre.time
    &&& post.led == pre.led
}

/// What handling one client command does: the new state and the frames sent
/// back out to the mesh.
///
/// A brightness request is clamped into the local intensity; a master
/// additionally re-broadcasts the request unchanged, so all units dim
/// uniformly, while a client emits nothing. A round start arms the
/// master-side round over all currently known ids and is broadcast; a client
/// arms its own round view; any other mode ignores the command.
pub open spec fn client_msg_step(
    pre: Controller,
    post: Controller,
    msg: ClientMessage,
    out: Seq<Frame>,
) -> bool {
    match msg {
        ClientMessage::SetBrightness(brightness) => {
            &&& non_led_state_unchanged(pre, post)
            &&& post.led == (Led {
                config: LedConfig { intensity: spec_clamped(brightness), ..pre.led.config },
                ..pre.led
            })
            &&& out == if pre.mode is Master {
                seq![spec_brightness_frame(brightness)]
            } else {
                Seq::<Frame>::empty()
            }
        },
        ClientMessage::StartRound(game) => {
            &&& mode_only_changed(pre, post)
            &&& match pre.mode {
                ControllerMode::Master { controllers, id_counter, .. } => {
                    &&& post.mode matches ControllerMode::Master {
                        controllers: c2,
                        id_counter: n2,
                        game: g2,
                    } && c2 == controllers && n2 == id_counter
                        && (g2 matches Some(GameState::LastOneStanding {
                            active_controller_ids,
                            exited_controller_ids,
                        }) && active_controller_ids@
                            == controllers@.map_values(|c: RemoteController| c.id)
                            && exited_controller_ids@ == Seq::<u16>::empty())
                    &&& out == seq![spec_start_round_frame(game)]
                },
                ControllerMode::Client { id, .. } => {
                    &&& post.mode == (ControllerMode::Client {
                        id,
                        game: Some(ClientGameState::LastOneStanding { is_active: true }),
                    })
                    &&& out == Seq::<Frame>::empty()
                },
                _ => post.mode == pre.mode && out == Seq::<Frame>::empty(),
            }
        },
    }
}

/// What handling one inbound radio frame does.
///
/// A join request received while hosting bootstraps the mesh: the unit
/// becomes master of one peer with id 1 and the counter at 2. A master
/// admits each further joiner with the next counter value, which only ever
/// increases (a master whose counter is exhausted admits nobody). Every
/// accepted join is answered with exactly one join response carrying the
/// assigned id. A join response received while still mesh-less makes the
/// unit a client under the assigned id. Client commands arriving over the
/// radio are handled as client commands; everything out of context is
/// ignored, never fatal.
pub open spec fn uwb_step(
    pre: Controller,
    post: Controller,
    time: u16,
    frame: Frame,
    out: Seq<Frame>,
) -> bool {
    match frame.payload {
        FramePayload::ControllerMessage(ControllerMessage::JoinRequest) => {
            match pre.mode {
                ControllerMode::ServerMeditation => {
                    &&& mode_only_changed(pre, post)
                    &&& post.mode matches ControllerMode::Master {
                        controllers: c2,
                        id_counter: n2,
                        game: g2,
                    } && c2@.len() == 1 && c2@[0].id == 1 && n2 == 2 && g2 is None
                    &&& out == seq![
                        (Frame {
                            time,
                            payload: FramePayload::ControllerMessage(
                                ControllerMessage::JoinResponse { assigned_id: 1 },
                            ),
                        }),
                    ]
                },
                ControllerMode::Master { controllers, id_counter, game } => {
                    if id_counter < 0xFFFF {
                        &&& mode_only_changed(pre, post)
                        &&& post.mode matches ControllerMode::Master {
                            controllers: c2,
                            id_counter: n2,
                            game: g2,
                        } && c2@.len() == controllers@.len() + 1
                            && c2@.take(controllers@.len() as int) == controllers@
                            && c2@.last().id == id_counter && n2 == id_counter + 1 && g2 == game
                        &&& out == seq![
                            (Frame {
                                time,
                                payload: FramePayload::ControllerMessage(
                                    ControllerMessage::JoinResponse { assigned_id: id_counter },
                                ),
                            }),
                        ]
                    } else {
                        post == pre && out == Seq::<Frame>::empty()
                    }
                },
                _ => post == pre && out == Seq::<Frame>::empty(),
            }
        },
        FramePayload::ControllerMessage(ControllerMessage::JoinResponse { assigned_id }) => {
            if (pre.mode is Discovery || pre.mode is Connecting || pre.mode is ServerMeditation)
                && assigned_id >= 1 {
                &&& mode_only_changed(pre, post)
                &&& post.mode == (ControllerMode::Client { id: assigned_id, game: None })
                &&& out == Seq::<Frame>::empty()
            } else {
                post == pre && out == Seq::<Frame>::empty()
            }
        },
        FramePayload::ClientMessage(msg) => client_msg_step(pre, post, msg, out),
        FramePayload::AccelerometerJoltDelta(..) => post == pre && out == Seq::<Frame>::empty(),
    }
}

/// LAW (monotone id counter): across any inbound-frame step that leaves a
/// master a master, the id counter never decreases — so an id, once issued,
/// is never issued again, even if a client departs.
pub proof fn lemma_id_counter_monotone(
    pre: Controller,
    post: Controller,
    time: u16,
    frame: Frame,
    out: Seq<Frame>,
)
    requires
        uwb_step(pre, post, time, frame, out),
        pre.mode is Master,
        post.mode is Master,
    ensures
        post.mode->id_counter >= pre.mode->id_counter,
{
}

/// LAW (peers persist): across any inbound-frame step that leaves a master a
/// master, every known peer record is kept; joiners are only appended.
pub proof fn lemma_peers_persist(
    pre: Controller,
    post: Controller,
    time: u16,
    frame: Frame,
    out: Seq<Frame>,
)
    requires
        uwb_step(pre, post, time, frame, out),
        pre.mode is Master,
        post.mode is Master,
    ensures
        pre.mode->controllers@.is_prefix_of(post.mode->controllers@),
{
    match frame.payload {
        FramePayload::ControllerMessage(ControllerMessage::JoinRequest) => {
            if pre.mode->id_counter < 0xFFFF {
                assert(post.mode->controllers@.take(pre.mode->controllers@.len() as int)
                    == pre.mode->controllers@);
            } else {
                assert(pre.mode->controllers@.is_prefix_of(pre.mode->controllers@));
            }
        },
        _ => {
            assert(post.mode->controllers@ == pre.mode->controllers@);
            assert(pre.mode->controllers@.is_prefix_of(pre.mode->controllers@));
        },
    }
}

/// What handling one internal bus event does: a client command is handled as
/// such, a jolt reading updates the live sensor state, a radio frame is
/// dispatched to the frame handler.
pub open spec fn internal_step(
    pre: Controller,
    post: Controller,
    time: u16,
    msg: InternalMessage,
    out: Seq<Frame>,
) -> bool {
    match msg {
        InternalMessage::ClientMessage(client_msg) => client_msg_step(pre, post, client_msg, out),
        InternalMessage::AccelerometerJoltDelta(delta) => {
            &&& post == (Controller { sensors: Sensors { accelerometer_jolt: delta }, ..pre })
            &&& out == Seq::<Frame>::empty()
        },
        InternalMessage::Frame(frame) => uwb_step(pre, post, time, *frame, out),
    }
}

/// Whether the elimination latch is set after observing one jolt reading:
/// once set it stays set, and it sets the moment the jolt reaches the
/// threshold.
pub open spec fn spec_latched(stay_red: bool, current_delta: u32, delta_threshold: u32) -> bool {
    stay_red || current_delta >= delta_threshold
}

/// The red channel of the round indicator: full red once latched, otherwise
/// the jolt's share of the threshold (the indicator fades from green to red
/// as the jolt approaches the threshold).
pub open spec fn spec_game_red(current_delta: u32, delta_threshold: u32, latched: bool) -> u8 {
    if latched {
        255u8
    } else {
        (255 * (current_delta as int) / (delta_threshold as int)) as u8
    }
}

/// Whether the mode displays a running round (and therefore drives the
/// elimination latch).
pub open spec fn game_display(mode: ControllerMode) -> bool {
    match mode {
        ControllerMode::Master { game, .. } => game is Some,
        ControllerMode::Client { game, .. } => game is Some,
        ControllerMode::Game(game) => game == GameMode::LastOneStanding,
        _ => false,
    }
}

/// The round indicator shown for one jolt reading: red interpolated from the
/// jolt, green its complement.
pub open spec fn spec_game_cmd(
    stay_red: bool,
    current_delta: u32,
    delta_threshold: u32,
) -> Option<LedCommand> {
    let latched = spec_latched(stay_red, current_delta, delta_threshold);
    let red = spec_game_red(current_delta, delta_threshold, latched);
    Some(LedCommand::Solid { red, green: (255 - red) as u8, blue: 0u8, white: 0u8 })
}

/// The elimination latch after a whole sequence of jolt readings.
pub open spec fn latch_after(stay_red: bool, deltas: Seq<u32>, delta_threshold: u32) -> bool
    decreases deltas.len(),
{
    if deltas.len() == 0 {
        stay_red
    } else {
        latch_after(
            spec_latched(stay_red, deltas[0], delta_threshold),
            deltas.drop_first(),
            delta_threshold,
        )
    }
}

/// LAW (elimination latch): the latch sets the moment a jolt reaches the
/// threshold; once set, any further sequence of jolt readings — however
/// small — leaves it set, and the round indicator stays full red.
pub proof fn lemma_elimination_latch(
    stay_red: bool,
    trigger_delta: u32,
    deltas: Seq<u32>,
    delta_threshold: u32,
)
    requires
        trigger_delta >= delta_threshold,
    ensures
        spec_latched(stay_red, trigger_delta, delta_threshold),
        latch_after(true, deltas, delta_threshold),
        spec_game_cmd(true, 0, delta_threshold)
            == Some(LedCommand::Solid { red: 255u8, green: 0u8, blue: 0u8, white: 0u8 }),
    decreases deltas.len(),
{
    if deltas.len() > 0 {
        lemma_elimination_latch(stay_red, trigger_delta, deltas.drop_first(), delta_threshold);
    }
}

/// What computing one tick's LED command does: the mode decides the command,
/// a displayed round advances the elimination latch, and nothing else
/// changes. (The new tick counter and timeline cache are left to the
/// respective function contracts.)
pub open spec fn led_step(
    pre: Controller,
    post: Controller,
    time: u16,
    delta_threshold: u32,
    current_delta: u32,
    cmd: Option<LedCommand>,
) -> bool {
    &&& post.mode == pre.mode
    &&& post.connected_controllers == pre.connected_controllers
    &&& post.sensors == pre.sensors
    &&& post.led.config == pre.led.config
    &&& post.stay_red == if game_display(pre.mode) {
        spec_latched(pre.stay_red, current_delta, delta_threshold)
    } else {
        pre.stay_red
    }
    &&& match pre.mode {
        ControllerMode::Discovery | ControllerMode::Connecting => {
            let color = timeline_color(spec_timeline_for_kind(spec_kind(pre.mode)), time as int);
            cmd == Some(LedCommand::Solid {
                red: color.0,
                green: color.1,
                blue: color.2,
                white: color.3,
            })
        },
        ControllerMode::Master { game, .. } => match game {
            Some(_) => cmd == spec_game_cmd(pre.stay_red, current_delta, delta_threshold),
            None => cmd == Some(LedCommand::Solid {
                red: 0u8,
                green: 30u8,
                blue: 255u8,
                white: 0u8,
            }),
        },
        ControllerMode::Client { game, .. } => match game {
            Some(_) => cmd == spec_game_cmd(pre.stay_red, current_delta, delta_threshold),
            None => cmd == Some(LedCommand::Solid {
                red: 250u8,
                green: 80u8,
                blue: 0u8,
                white: 0u8,
            }),
        },
        ControllerMode::ServerMeditation => cmd == Some(LedCommand::Meditation {
            phase: (time as int % MEDITATION_CYCLE as int) as u16,
        }),
        ControllerMode::Game(game) => match game {
            GameMode::LastOneStanding => cmd
                == spec_game_cmd(pre.stay_red, current_delta, delta_threshold),
            _ => cmd is None,
        },
    }
}

/// The red channel of the round indicator for one jolt reading.
fn game_red(current_delta: u32, delta_threshold: u32, latched: bool) -> (red: u8)
    requires
        delta_threshold >= 1,
        !latched ==> current_delta < delta_threshold,
    ensures
        red == spec_game_red(current_delta, delta_threshold, latched),
{
    if latched {
        255
    } else {
        proof {
            assert(255 * (current_delta as int) / (delta_threshold as int) < 255) by (nonlinear_arith)
                requires
                    current_delta < delta_threshold,
                    delta_threshold >= 1,
            ;
        }
        ((255u64 * current_delta as u64) / (delta_threshold as u64)) as u8
    }
}

/// The wrapping advance of the tick counter.
pub open spec fn wrap_inc(time: u16) -> u16 {
    if time < 0xFFFF {
        (time + 1) as u16
    } else {
        0u16
    }
}

/// The coordinator state after an asynchronous mode-override event.
pub open spec fn override_applied(pre: Controller, mode_override: Option<ControllerMode>) -> Controller {
    match mode_override {
        Some(mode) => Controller { mode, ..pre },
        None => pre,
    }
}

/// What draining at most one bus event does: absence of a message this tick
/// is not an error, just no work.
pub open spec fn dispatch_step(
    pre: Controller,
    post: Controller,
    msg: Option<InternalMessage>,
    out: Seq<Frame>,
) -> bool {
    match msg {
        Some(m) => internal_step(pre, post, pre.time, m, out),
        None => post == pre && out == Seq::<Frame>::empty(),
    }
}

/// The mode-override event the network-role negotiation resolves to: a found
/// mesh is joined, otherwise the unit hosts a new one and waits.
pub fn discovery_transition(found_mesh: bool) -> (mode: ControllerMode)
    ensures
        found_mesh ==> mode is Connecting,
        !found_mesh ==> mode is ServerMeditation,
        mode_wf(mode),
{
    if found_mesh {
        ControllerMode::Connecting
    } else {
        ControllerMode::ServerMeditation
    }
}

impl Controller {
    /// The coordinator's mode invariant holds and
    /// the LED engine's cache is consistent.
    pub open spec fn wf(self) -> bool {
        &&& mode_wf(self.mode)
        &&& self.led.wf()
    }

    /// A freshly powered-on unit: discovering, nothing sensed, no peers, the
    /// LED ring at the default intensity of 0.3.
    pub fn new() -> (controller: Controller)
        ensures
            controller.wf(),
            controller.mode is Discovery,
            controller.connected_controllers@ == Seq::<RemoteController>::empty(),
            controller.sensors.accelerometer_jolt == 0,
            !controller.stay_red,
            controller.time == 0,
            controller.led.config.intensity == 300,
    {
        Controller {
            mode: ControllerMode::Discovery,
            connected_controllers: Vec::new(),
            sensors: Sensors::new(),
            stay_red: false,
            time: 0,
            led: Led::new(LedConfig { pin: 0, intensity: 300 }),
        }
    }

    /// Handle one client command, returning the frames to send to the mesh.
    pub fn handle_client_msg(&mut self, msg: ClientMessage) -> (out: Vec<Frame>)
        requires
            old(self).wf(),
        ensures
            final(self).wf(),
            client_msg_step(*old(self), *final(self), msg, out@),
    {
        let mut out: Vec<Frame> = Vec::new();
        match msg {
            ClientMessage::SetBrightness(brightness) => {
                // Set the brightness of the LEDs, clamped into the valid range.
                self.led.config.intensity = clamp_brightness(brightness);
                let is_master = matches!(&self.mode, ControllerMode::Master { .. });
                if is_master {
                    // Broadcast brightness to all clients.
                    out.push(Frame::new().client_message(ClientMessage::SetBrightness(brightness)));
                    proof {
                        assert(out@ =~= seq![spec_brightness_frame(brightness)]);
                    }
                }
            },
            ClientMessage::StartRound(game_identifier) => {
                let mut mode = ControllerMode::Discovery;
                core::mem::swap(&mut mode, &mut self.mode);
                match mode {
                    ControllerMode::Master { controllers, id_counter, game: _ } => {
                        let ghost peers = controllers@;
                        let mut active_controller_ids: Vec<u16> = Vec::new();
                        let mut i: usize = 0;
                        while i < controllers.len()
                            invariant
                                i <= peers.len(),
                                controllers@ == peers,
                                active_controller_ids@
                                    == peers.take(i as int).map_values(|c: RemoteController| c.id),
                            decreases peers.len() - i,
                        {
                            active_controller_ids.push(controllers[i].id);
                            proof {
                                assert(peers.take(i + 1 as int)
                                    .map_values(|c: RemoteController| c.id)
                                    =~= peers.take(i as int)
                                        .map_values(|c: RemoteController| c.id)
                                        .push(peers[i as int].id));
                            }
                            i += 1;
                        }
                        proof {
                            assert(peers.take(peers.len() as int) =~= peers);
                        }
                        self.mode = ControllerMode::Master {
                            controllers,
                            id_counter,
                            game: Some(GameState::LastOneStanding {
                                active_controller_ids,
                                exited_controller_ids: Vec::new(),
                            }),
                        };
                        // Broadcast round start to all clients.
                        out.push(Frame::new().client_message(ClientMessage::StartRound(
                            game_identifier,
                        )));
                        proof {
                            assert(out@ =~= seq![spec_start_round_frame(game_identifier)]);
                        }
                    },
                    ControllerMode::Client { id, game: _ } => {
                        self.mode = ControllerMode::Client {
                            id,
                            game: Some(ClientGameState::LastOneStanding { is_active: true }),
                        };
                    },
                    other => {
                        self.mode = other;
                    },
                }
            },
        }
        out
    }

    /// Handle one frame received over the radio, returning the frames to send
    /// back. `time` is the coordinator's current tick, stamped into replies.
    pub fn handle_uwb_frame(&mut self, time: u16, frame: Frame) -> (out: Vec<Frame>)
        requires
            old(self).wf(),
        ensures
            final(self).wf(),
            uwb_step(*old(self), *final(self), time, frame, out@),
    {
        let mut out: Vec<Frame> = Vec::new();
        match frame.payload {
            FramePayload::ControllerMessage(ControllerMessage::JoinRequest) => {
                let is_meditation = matches!(&self.mode, ControllerMode::ServerMeditation);
                if is_meditation {
                    // The first controller joining: the unit becomes master,
                    // hands out id 1 and continues counting at 2.
                    let assigned_id: u16 = 1;
                    let mut controllers: Vec<RemoteController> = Vec::new();
                    controllers.push(RemoteController::new(assigned_id));
                    self.mode = ControllerMode::Master {
                        controllers,
                        id_counter: 2,
                        game: None,
                    };
                    out.push(Frame::join_response(time, assigned_id));
                    proof {
                        assert(out@ =~= seq![
                            (Frame {
                                time,
                                payload: FramePayload::ControllerMessage(
                                    ControllerMessage::JoinResponse { assigned_id: 1 },
                                ),
                            }),
                        ]);
                    }
                } else {
                    let mut mode = ControllerMode::Discovery;
                    core::mem::swap(&mut mode, &mut self.mode);
                    match mode {
                        ControllerMode::Master { mut controllers, id_counter, game } => {
                            if id_counter < 0xFFFF {
                                // Use the incremental nature of the counter to
                                // assign a fresh id to the joining controller.
                                let ghost peers = controllers@;
                                let assigned_id = id_counter;
                                controllers.push(RemoteController::new(assigned_id));
                                proof {
                                    assert(controllers@.take(peers.len() as int) =~= peers);
                                    assert forall|i: int, j: int|
                                        0 <= i < j < controllers@.len()
                                            implies #[trigger] controllers@[i].id
                                            < #[trigger] controllers@[j].id by {
                                        assert(ids_below(peers, id_counter));
                                        assert(ids_strictly_increasing(peers));
                                        if j < peers.len() {
                                            assert(peers[i].id < peers[j].id);
                                        } else {
                                            assert(peers[i].id < id_counter);
                                        }
                                    }
                                    assert forall|i: int|
                                        0 <= i < controllers@.len()
                                            implies #[trigger] controllers@[i].id
                                            < id_counter + 1 by {
                                        assert(ids_below(peers, id_counter));
                                        if i < peers.len() {
                                            assert(peers[i].id < id_counter);
                                        }
                                    }
                                }
                                self.mode = ControllerMode::Master {
                                    controllers,
                                    id_counter: id_counter + 1,
                                    game,
                                };
                                out.push(Frame::join_response(time, assigned_id));
                                proof {
                                    assert(out@ =~= seq![
                                        (Frame {
                                            time,
                                            payload: FramePayload::ControllerMessage(
                                                ControllerMessage::JoinResponse {
                                                    assigned_id,
                                                },
                                            ),
                                        }),
                                    ]);
                                }
                            } else {
                                // The id space is exhausted: admit nobody, so
                                // issued ids stay unique forever.
                                self.mode = ControllerMode::Master {
                                    controllers,
                                    id_counter,
                                    game,
                                };
                            }
                        },
                        other => {
                            self.mode = other;
                        },
                    }
                }
            },
            FramePayload::ControllerMessage(ControllerMessage::JoinResponse { assigned_id }) => {
                // We have just successfully joined a mesh.
                let premesh = matches!(
                    &self.mode,
                    ControllerMode::Discovery
                        | ControllerMode::Connecting
                        | ControllerMode::ServerMeditation
                );
                if premesh && assigned_id >= 1 {
                    self.mode = ControllerMode::Client { id: assigned_id, game: None };
                }
            },
            FramePayload::ClientMessage(client_msg) => {
                return self.handle_client_msg(client_msg);
            },
            FramePayload::AccelerometerJoltDelta(..) => {
                // A jolt reading never travels over the radio; ignore it.
            },
        }
        out
    }

    /// Dispatch one internal bus event, returning the frames to send to the
    /// mesh.
    pub fn handle_internal_msg(&mut self, time: u16, msg: InternalMessage) -> (out: Vec<Frame>)
        requires
            old(self).wf(),
        ensures
            final(self).wf(),
            internal_step(*old(self), *final(self), time, msg, out@),
    {
        match msg {
            InternalMessage::ClientMessage(client_msg) => self.handle_client_msg(client_msg),
            InternalMessage::AccelerometerJoltDelta(delta) => {
                self.sensors.accelerometer_jolt = delta;
                Vec::new()
            },
            InternalMessage::Frame(frame) => self.handle_uwb_frame(time, *frame),
        }
    }

    /// Compute this tick's LED command from the mode, the tick counter and
    /// the live jolt reading, advancing the elimination latch where a round
    /// is displayed.
    pub fn led_pattern(&mut self, time: u16, delta_threshold: u32, current_delta: u32) -> (cmd: Option<
        LedCommand,
    >)
        requires
            old(self).wf(),
            delta_threshold >= 1,
        ensures
            final(self).wf(),
            final(self).time == old(self).time,
            led_step(*old(self), *final(self), time, delta_threshold, current_delta, cmd),
    {
        match &self.mode {
            ControllerMode::Discovery | ControllerMode::Connecting => {
                let color = self.led.pattern(&self.mode, time);
                Some(LedCommand::Solid {
                    red: color.0,
                    green: color.1,
                    blue: color.2,
                    white: color.3,
                })
            },
            ControllerMode::Master { game, .. } => {
                if game.is_some() {
                    // A round is running: fade from green (safe) to red (hit),
                    // and latch to full red once the threshold was reached.
                    if current_delta >= delta_threshold {
                        self.stay_red = true;
                    }
                    let red = game_red(current_delta, delta_threshold, self.stay_red);
                    Some(LedCommand::Solid { red, green: 255 - red, blue: 0, white: 0 })
                } else {
                    // Static blue indicating master mode with at least one
                    // paired controller.
                    Some(LedCommand::Solid { red: 0, green: 30, blue: 255, white: 0 })
                }
            },
            ControllerMode::Client { game, .. } => {
                if game.is_some() {
                    if current_delta >= delta_threshold {
                        self.stay_red = true;
                    }
                    let red = game_red(current_delta, delta_threshold, self.stay_red);
                    Some(LedCommand::Solid { red, green: 255 - red, blue: 0, white: 0 })
                } else {
                    // Orange: paired, waiting for a round.
                    Some(LedCommand::Solid { red: 250, green: 80, blue: 0, white: 0 })
                }
            },
            ControllerMode::ServerMeditation => {
                // The rotating hue is computed analytically from this phase;
                // only the wrap-around of the cycle is decided here.
                Some(LedCommand::Meditation { phase: time % MEDITATION_CYCLE })
            },
            ControllerMode::Game(game) => match game {
                GameMode::Idle => None,
                GameMode::LastOneStanding => {
                    if current_delta >= delta_threshold {
                        self.stay_red = true;
                    }
                    let red = game_red(current_delta, delta_threshold, self.stay_red);
                    Some(LedCommand::Solid { red, green: 255 - red, blue: 0, white: 0 })
                },
                GameMode::Territory => None,
            },
        }
    }

    /// One iteration of the coordinator's cooperative loop: drain at most one
    /// mode-override event and at most one bus event (bounding worst-case
    /// tick latency so the LED refresh cadence stays deterministic), compute
    /// this tick's LED command from the live jolt value, and advance the
    /// wrapping tick counter. Returns the frames to transmit and the LED
    /// command to render.
    pub fn tick(&mut self, mode_override: Option<ControllerMode>, msg: Option<InternalMessage>) -> (r: (
        Vec<Frame>,
        Option<LedCommand>,
    ))
        requires
            old(self).wf(),
            mode_override matches Some(mode) ==> mode_wf(mode),
        ensures
            final(self).wf(),
            final(self).time == wrap_inc(old(self).time),
            exists|mid: Controller| {
                &&& #[trigger] dispatch_step(
                    override_applied(*old(self), mode_override),
                    mid,
                    msg,
                    r.0@,
                )
                &&& led_step(
                    mid,
                    *final(self),
                    mid.time,
                    DELTA_THRESHOLD,
                    mid.sensors.accelerometer_jolt,
                    r.1,
                )
            },
    {
        if let Some(mode) = mode_override {
            self.mode = mode;
        }
        let out = match msg {
            Some(m) => {
                let time = self.time;
                self.handle_internal_msg(time, m)
            },
            None => Vec::new(),
        };
        let ghost mid = *self;
        let time = self.time;
        let current_delta = self.sensors.accelerometer_jolt;
        let cmd = self.led_pattern(time, DELTA_THRESHOLD, current_delta);
        if self.time < u16::MAX {
            self.time = self.time + 1;
        } else {
            self.time = 0;
        }
        let r = (out, cmd);
        proof {
            assert(dispatch_step(override_applied(*old(self), mode_override), mid, msg, r.0@));
            assert(exists|m2: Controller| {
                &&& #[trigger] dispatch_step(override_applied(*old(self), mode_override), m2, msg, r.0@)
                &&& led_step(m2, *self, m2.time, DELTA_THRESHOLD, m2.sensors.accelerometer_jolt, r.1)
            });
        }
        r
    }
}

} // verus!
