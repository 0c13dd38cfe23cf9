//! Lockstep synchronizer: buffers both sides' inputs per tick and advances
//! the simulation only when both inputs of the current tick are present.

use crate::game::Game;
use crate::serialization::SerializationError;
use crate::transport::{Transport, TransportError};
use crate::types::{Event, Input, InputPair, Side, Snapshot, Tick};
use crate::wire_protocol::{WireFrame, WireMsg};
use std::collections::HashMap;
use vstd::prelude::*;
use vstd::string::*;

verus! {

broadcast use vstd::std_specs::hash::group_hash_axioms;

/// Errors of the lockstep protocol.
#[derive(Debug, Clone, PartialEq)]
pub enum LockstepError {
    /// The transport failed; holds the transport error as text.
    Transport(String),
    /// A received frame could not be decoded.
    Serialization(SerializationError),
    /// A received message was malformed.
    InvalidMessage(String),
    /// The synchronizer is not running.
    NotRunning,
    /// The simulation cannot take the step for the current tick.
    SyncError(String),
}

/// What the synchronizer reports to its caller.
#[derive(Debug, Clone, PartialEq)]
pub enum LockstepEvent {
    /// The simulation processed `tick` and emitted these events.
    GameAdvanced { tick: Tick, events: Vec<Event> },
    /// The peer disconnected.
    PeerDisconnected,
    /// A reply to a ping arrived.
    PongReceived { round_trip_ms: u32 },
    /// A snapshot from the peer was applied.
    SnapshotReceived { tick: Tick },
}

/// A report as a value: the events as a sequence.
pub enum LockstepNote {
    GameAdvanced { tick: Tick, events: Seq<Event> },
    PeerDisconnected,
    PongReceived { round_trip_ms: u32 },
    SnapshotReceived { tick: Tick },
}

impl View for LockstepEvent {
    type V = LockstepNote;

    open spec fn view(&self) -> LockstepNote {
        match self {
            LockstepEvent::GameAdvanced { tick, events } => LockstepNote::GameAdvanced {
                tick: *tick,
                events: events@,
            },
            LockstepEvent::PeerDisconnected => LockstepNote::PeerDisconnected,
            LockstepEvent::PongReceived { round_trip_ms } => LockstepNote::PongReceived {
                round_trip_ms: *round_trip_ms,
            },
            LockstepEvent::SnapshotReceived { tick } => LockstepNote::SnapshotReceived {
                tick: *tick,
            },
        }
    }
}

impl LockstepError {
    /// How a transport outcome is handed on: success stays success, an
    /// error is wrapped as text. `failure` is the error handed on, if any.
    pub open spec fn relays(
        outcome: Result<(), TransportError>,
        failure: Option<LockstepError>,
    ) -> bool {
        match outcome {
            Ok(_) => failure is None,
            Err(e) => failure matches Some(LockstepError::Transport(text)) && text@ == e.text(),
        }
    }

    /// Wraps a transport error as text.
    pub fn from_transport(error: TransportError) -> (e: LockstepError)
        ensures
            e matches LockstepError::Transport(text) && text@ == error.text(),
    {
        LockstepError::Transport(error.to_string())
    }

    /// Hands a transport outcome on to the caller of the synchronizer.
    pub fn relay(outcome: Result<(), TransportError>) -> (result: Result<(), LockstepError>)
        ensures
            Self::relays(outcome, failure_of(result)),
    {
        match outcome {
            Ok(()) => Ok(()),
            Err(error) => Err(Self::from_transport(error)),
        }
    }
}

/// The error of a result, if it is one.
pub open spec fn failure_of<V>(result: Result<V, LockstepError>) -> Option<LockstepError> {
    match result {
        Ok(_) => None,
        Err(e) => Some(e),
    }
}

impl From<TransportError> for LockstepError {
    fn from(error: TransportError) -> (e: LockstepError)
        ensures
            e matches LockstepError::Transport(text) && text@ == error.text(),
    {
        LockstepError::from_transport(error)
    }
}

impl vstd::std_specs::convert::FromSpecImpl<TransportError> for LockstepError {
    open spec fn obeys_from_spec() -> bool {
        false
    }

    open spec fn from_spec(error: TransportError) -> LockstepError {
        LockstepError::NotRunning
    }
}

impl From<SerializationError> for LockstepError {
    fn from(error: SerializationError) -> (e: LockstepError) {
        LockstepError::Serialization(error)
    }
}

impl vstd::std_specs::convert::FromSpecImpl<SerializationError> for LockstepError {
    open spec fn obeys_from_spec() -> bool {
        true
    }

    open spec fn from_spec(error: SerializationError) -> LockstepError {
        LockstepError::Serialization(error)
    }
}

/// The simulation as the synchronizer drives it: a deterministic state
/// machine with snapshots.
pub trait CoreAdapter: Sized {
    /// Whether the simulation can take a step under `inputs`.
    spec fn can_step(&self, inputs: InputPair) -> bool;

    /// The simulation after a step under `inputs`.
    spec fn stepped(&self, inputs: InputPair) -> Self;

    /// What a step under `inputs` reports.
    spec fn step_event(&self, inputs: InputPair) -> Option<Event>;

    /// The projection for a renderer.
    spec fn view_spec(&self) -> crate::types::View;

    /// The complete state of the simulation.
    spec fn state(&self) -> Snapshot;

    /// The simulation put into the state of `snapshot`.
    spec fn restored(&self, snapshot: Snapshot) -> Self;

    /// Decides `can_step`.
    fn accepts(&self, inputs: &InputPair) -> (b: bool)
        ensures
            b == self.can_step(*inputs),
    ;

    /// Steps the simulation forward by one tick.
    fn step(&mut self, inputs: &InputPair) -> (event: Option<Event>)
        requires
            old(self).can_step(*inputs),
        ensures
            *final(self) == old(self).stepped(*inputs),
            event == old(self).step_event(*inputs),
    ;

    /// The current projection for a renderer.
    fn view(&self) -> (v: crate::types::View)
        ensures
            v == self.view_spec(),
    ;

    /// A snapshot of the current state.
    fn snapshot(&self) -> (s: Snapshot)
        ensures
            s == self.state(),
    ;

    /// Restores the state of a snapshot.
    fn restore(&mut self, snapshot: &Snapshot)
        ensures
            *final(self) == old(self).restored(*snapshot),
            final(self).state() == *snapshot,
    ;

    /// The tick that the simulation processes next.
    fn current_tick(&self) -> (t: Tick)
        ensures
            t == self.state().tick,
    ;
}

/// Adapter that drives a `Game`.
pub struct GameAdapter {
    game: Game,
}

impl GameAdapter {
    /// The game inside the adapter.
    pub closed spec fn inner(self) -> Game {
        self.game
    }

    pub fn new(game: Game) -> (adapter: GameAdapter)
        ensures
            adapter.inner() == game,
    {
        Self { game }
    }

    pub fn game(&self) -> (game: &Game)
        ensures
            *game == self.inner(),
    {
        &self.game
    }

    pub fn game_mut(&mut self) -> (game: &mut Game)
        ensures
            *game == old(self).inner(),
            final(self).inner() == *final(game),
    {
        &mut self.game
    }
}

impl CoreAdapter for GameAdapter {
    open spec fn can_step(&self, inputs: InputPair) -> bool {
        self.inner().can_step(inputs)
    }

    closed spec fn stepped(&self, inputs: InputPair) -> Self {
        GameAdapter { game: self.game.stepped(inputs) }
    }

    open spec fn step_event(&self, inputs: InputPair) -> Option<Event> {
        self.inner().step_event(inputs)
    }

    open spec fn view_spec(&self) -> crate::types::View {
        self.inner().view_spec()
    }

    open spec fn state(&self) -> Snapshot {
        self.inner().state()
    }

    closed spec fn restored(&self, snapshot: Snapshot) -> Self {
        GameAdapter { game: self.game.with_state(snapshot) }
    }

    fn accepts(&self, inputs: &InputPair) -> (b: bool) {
        self.game.accepts(inputs)
    }

    fn step(&mut self, inputs: &InputPair) -> (event: Option<Event>)
        ensures
            final(self).inner() == old(self).inner().stepped(*inputs),
    {
        self.game.step(inputs)
    }

    fn view(&self) -> (v: crate::types::View) {
        self.game.view()
    }

    fn snapshot(&self) -> (s: Snapshot) {
        self.game.snapshot()
    }

    fn restore(&mut self, snapshot: &Snapshot)
        ensures
            final(self).inner() == old(self).inner().with_state(*snapshot),
    {
        self.game.restore(snapshot)
    }

    fn current_tick(&self) -> (t: Tick) {
        self.game.tick
    }
}

impl GameAdapter {
    /// What the adapter's transitions do to the game inside.
    pub proof fn lemma_transitions(self, inputs: InputPair, snapshot: Snapshot)
        ensures
            self.stepped(inputs).inner() == self.inner().stepped(inputs),
            self.restored(snapshot).inner() == self.inner().with_state(snapshot),
    {
    }
}

/// Lockstep protocol driver over a simulation `C` and a transport `T`.
pub struct Lockstep<C: CoreAdapter, T: Transport> {
    /// The simulation.
    pub core: C,
    /// The link to the peer.
    pub transport: T,
    /// The tick to be processed next.
    pub current_tick: Tick,
    /// Which side this peer plays.
    pub local_side: Side,
    /// Whether this peer is the timekeeper.
    pub is_timekeeper: bool,
    /// Target tick rate in ticks per second.
    pub tick_hz: u16,
    /// Local inputs waiting to be processed, by tick.
    pub local_input_buffer: HashMap<Tick, Input>,
    /// Remote inputs waiting to be processed, by tick.
    pub remote_input_buffer: HashMap<Tick, Input>,
    /// Timestamp in milliseconds of the last ping that was sent.
    pub last_ping_time: Option<u32>,
    /// Whether the protocol is running.
    pub is_running: bool,
}

/// The synchronizer as a value: the buffers as maps.
pub struct LockstepState<C, T> {
    pub core: C,
    pub transport: T,
    pub current_tick: Tick,
    pub local_side: Side,
    pub is_timekeeper: bool,
    pub tick_hz: u16,
    pub local_inputs: Map<Tick, Input>,
    pub remote_inputs: Map<Tick, Input>,
    pub last_ping_time: Option<u32>,
    pub is_running: bool,
}

impl<C: CoreAdapter, T: Transport> LockstepState<C, T> {
    /// The pair for the current tick from this peer's input and the other
    /// one's: the left input is always `a`.
    pub open spec fn pair_for(self, local: Input, remote: Input) -> InputPair {
        match self.local_side {
            Side::Left => InputPair { tick: self.current_tick, a: local, b: remote },
            Side::Right => InputPair { tick: self.current_tick, a: remote, b: local },
        }
    }

    /// The pair with which the current tick is to be processed: present
    /// exactly when the synchronizer runs and both buffers hold an input
    /// for the current tick.
    pub open spec fn pending(self) -> Option<InputPair> {
        if self.is_running && self.local_inputs.contains_key(self.current_tick)
            && self.remote_inputs.contains_key(self.current_tick) {
            Some(
                self.pair_for(
                    self.local_inputs[self.current_tick],
                    self.remote_inputs[self.current_tick],
                ),
            )
        } else {
            None
        }
    }

    /// Whether the current tick can be processed with `pair`: the
    /// simulation accepts it and the tick counter can advance.
    pub open spec fn can_advance(self, pair: InputPair) -> bool {
        self.core.can_step(pair) && self.current_tick < u32::MAX
    }

    /// The synchronizer after processing the current tick with `pair`: the
    /// simulation has stepped, both inputs of the tick are gone, and the
    /// tick counter is one further.
    pub open spec fn advanced(self, pair: InputPair) -> Self {
        LockstepState {
            core: self.core.stepped(pair),
            current_tick: (self.current_tick + 1) as u32,
            local_inputs: self.local_inputs.remove(self.current_tick),
            remote_inputs: self.remote_inputs.remove(self.current_tick),
            ..self
        }
    }

    /// The frame that announces a local input: an input pair for the
    /// current tick with the input in this peer's slot and a zero input in
    /// the other.
    pub open spec fn local_frame(self, input: Input) -> Seq<u8> {
        WireFrame::InputPair(self.pair_for(input, Input { axis_y: 0, buttons: 0 })).bytes()
    }

    /// `frame` was handed to the transport, which answered; `failure` is
    /// what is handed on, and `after` the transport after the call.
    pub open spec fn sent(self, frame: Seq<u8>, failure: Option<LockstepError>, after: T) -> bool {
        exists|outcome: Result<(), TransportError>| #[trigger]
            self.transport.send_effect(frame, outcome, after) && LockstepError::relays(
                outcome,
                failure,
            )
    }

    /// What processing the current tick reports: a `GameAdvanced` for the
    /// tick when the simulation reports an event, else nothing.
    pub open spec fn advance_notes(self, pair: InputPair) -> Seq<LockstepNote> {
        match self.core.step_event(pair) {
            Some(event) => seq![
                LockstepNote::GameAdvanced { tick: self.current_tick, events: seq![event] },
            ],
            None => Seq::empty(),
        }
    }
}

/// Two peers on opposite sides that hold each other's inputs for the same
/// tick process that tick with the same pair: the left input in slot `a`,
/// the right one in slot `b`, whichever side is local.
pub proof fn lemma_peers_agree<C: CoreAdapter, T: Transport, D: CoreAdapter, U: Transport>(
    left: LockstepState<C, T>,
    right: LockstepState<D, U>,
)
    requires
        left.local_side == Side::Left,
        right.local_side == Side::Right,
        left.is_running,
        right.is_running,
        left.current_tick == right.current_tick,
        left.local_inputs.contains_key(left.current_tick),
        left.remote_inputs.contains_key(left.current_tick),
        right.local_inputs.contains_key(left.current_tick),
        right.remote_inputs.contains_key(left.current_tick),
        left.local_inputs[left.current_tick] == right.remote_inputs[left.current_tick],
        left.remote_inputs[left.current_tick] == right.local_inputs[left.current_tick],
    ensures
        left.pending() == right.pending(),
        left.pending() == Some(
            InputPair {
                tick: left.current_tick,
                a: left.local_inputs[left.current_tick],
                b: right.local_inputs[left.current_tick],
            },
        ),
{
}

/// The reports of a list of events.
pub open spec fn notes(events: Seq<LockstepEvent>) -> Seq<LockstepNote> {
    events.map_values(|e: LockstepEvent| e@)
}

/// Milliseconds since the Unix epoch as `std::time::SystemTime::now`
/// gives them; 0 for a clock set before the epoch. Nothing is claimed of
/// the value.
#[verifier::external_body]
fn now_millis() -> (millis: u128) {
    std::time::SystemTime::now().duration_since(
        std::time::UNIX_EPOCH,
    ).unwrap_or_default().as_millis()
}

impl<C: CoreAdapter, T: Transport> Lockstep<C, T> {
    /// The synchronizer as a value.
    pub open spec fn model(self) -> LockstepState<C, T> {
        LockstepState {
            core: self.core,
            transport: self.transport,
            current_tick: self.current_tick,
            local_side: self.local_side,
            is_timekeeper: self.is_timekeeper,
            tick_hz: self.tick_hz,
            local_inputs: self.local_input_buffer@,
            remote_inputs: self.remote_input_buffer@,
            last_ping_time: self.last_ping_time,
            is_running: self.is_running,
        }
    }

    /// A stopped synchronizer with empty buffers at the simulation's tick.
    pub fn new(core: C, transport: T, tick_hz: u16, local_side: Side, is_timekeeper: bool) -> (l:
        Self)
        ensures
            l.model() == (LockstepState {
                core,
                transport,
                current_tick: core.state().tick,
                local_side,
                is_timekeeper,
                tick_hz,
                local_inputs: Map::empty(),
                remote_inputs: Map::empty(),
                last_ping_time: None,
                is_running: false,
            }),
    {
        let current_tick = core.current_tick();
        Self {
            current_tick,
            core,
            transport,
            local_side,
            is_timekeeper,
            tick_hz,
            local_input_buffer: HashMap::new(),
            remote_input_buffer: HashMap::new(),
            last_ping_time: None,
            is_running: false,
        }
    }

    /// Starts the protocol: fails if the transport does not report itself
    /// open; else clears both buffers and takes the simulation's tick.
    pub fn start(&mut self) -> (r: Result<(), LockstepError>)
        ensures
            r is Ok ==> old(self).transport.may_report_open(true),
            r is Err ==> old(self).transport.may_report_open(false),
            r is Ok ==> final(self).model() == (LockstepState {
                is_running: true,
                current_tick: old(self).core.state().tick,
                local_inputs: Map::empty(),
                remote_inputs: Map::empty(),
                ..old(self).model()
            }),
            r matches Err(e) ==> final(self).model() == old(self).model() && (
            e matches LockstepError::Transport(text) && text@ == "Transport not connected"@),
    {
        if !self.transport.is_open() {
            return Err(LockstepError::Transport(String::from_str("Transport not connected")));
        }
        self.is_running = true;
        self.current_tick = self.core.current_tick();

        self.local_input_buffer.clear();
        self.remote_input_buffer.clear();

        Ok(())
    }

    /// Stops the protocol and clears both buffers.
    pub fn stop(&mut self)
        ensures
            final(self).model() == (LockstepState {
                is_running: false,
                local_inputs: Map::empty(),
                remote_inputs: Map::empty(),
                ..old(self).model()
            }),
    {
        self.is_running = false;
        self.local_input_buffer.clear();
        self.remote_input_buffer.clear();
    }

    /// Submits the local input for the current tick: buffers it and
    /// announces it to the peer. Fails with `NotRunning` when stopped; a
    /// transport failure is handed on, the input stays buffered.
    pub fn on_local_input(&mut self, axis_y: i8, buttons: u8) -> (r: Result<(), LockstepError>)
        ensures
            !old(self).is_running ==> {
                &&& r matches Err(LockstepError::NotRunning)
                &&& final(self).model() == old(self).model()
            },
            old(self).is_running ==> old(self).model().sent(
                old(self).model().local_frame(Input { axis_y, buttons }),
                failure_of(r),
                final(self).transport,
            ) && final(self).model() == (LockstepState {
                local_inputs: old(self).model().local_inputs.insert(
                    old(self).current_tick,
                    Input { axis_y, buttons },
                ),
                transport: final(self).transport,
                ..old(self).model()
            }),
    {
        if !self.is_running {
            return Err(LockstepError::NotRunning);
        }
        let input = Input::new(axis_y, buttons);
        self.local_input_buffer.insert(self.current_tick, input);

        let remote_input = Input::zero();
        let input_pair = match self.local_side {
            Side::Left => InputPair::new(self.current_tick, input, remote_input),
            Side::Right => InputPair::new(self.current_tick, remote_input, input),
        };

        let wire_msg = WireMsg::InputPair(input_pair);
        let bytes = wire_msg.encode();
        assert(bytes@ == old(self).model().local_frame(input));
        let outcome = self.transport.send(bytes.as_slice());
        let result = LockstepError::relay(outcome);
        assert(old(self).model().transport.send_effect(bytes@, outcome, self.transport));
        assert(old(self).model().sent(bytes@, failure_of(result), self.transport));
        result
    }

    /// Processes a frame from the peer. While stopped, nothing happens. A
    /// frame that does not decode fails with `Serialization` and changes
    /// nothing. An input pair is buffered under its own tick, the peer's
    /// slot only. A snapshot is decoded and restored, the current tick
    /// becomes the snapshot's, and `SnapshotReceived` is reported. A ping
    /// is answered with a ping carrying the same timestamp.
    pub fn on_net_message(&mut self, bytes: Vec<u8>) -> (r: Result<
        Vec<LockstepEvent>,
        LockstepError,
    >)
        ensures
            !old(self).is_running ==> {
                &&& r is Ok
                &&& r->Ok_0@.len() == 0
                &&& final(self).model() == old(self).model()
            },
            old(self).is_running ==> match WireFrame::parse(bytes@) {
                Err(e) => {
                    &&& r matches Err(LockstepError::Serialization(x))
                    &&& x == e
                    &&& final(self).model() == old(self).model()
                },
                Ok(WireFrame::InputPair(pair)) => {
                    &&& r is Ok
                    &&& r->Ok_0@.len() == 0
                    &&& final(self).model() == (LockstepState {
                        remote_inputs: old(self).model().remote_inputs.insert(
                            pair.tick,
                            pair.input_of(old(self).local_side.opposite_spec()),
                        ),
                        ..old(self).model()
                    })
                },
                Ok(WireFrame::Snapshot(data)) => match Snapshot::decode_spec(data) {
                    Err(e) => {
                        &&& r matches Err(LockstepError::Serialization(x))
                        &&& x == e
                        &&& final(self).model() == old(self).model()
                    },
                    Ok(snapshot) => {
                        &&& r is Ok
                        &&& notes(r->Ok_0@) == seq![
                            LockstepNote::SnapshotReceived { tick: snapshot.tick },
                        ]
                        &&& final(self).model() == (LockstepState {
                            core: old(self).core.restored(snapshot),
                            current_tick: snapshot.tick,
                            ..old(self).model()
                        })
                    },
                },
                Ok(WireFrame::Ping(timestamp)) => {
                    &&& old(self).model().sent(
                        WireFrame::Ping(timestamp).bytes(),
                        failure_of(r),
                        final(self).transport,
                    )
                    &&& r matches Ok(events) ==> events@.len() == 0
                    &&& final(self).model() == (LockstepState {
                        transport: final(self).transport,
                        ..old(self).model()
                    })
                },
            },
    {
        if !self.is_running {
            return Ok(Vec::new());
        }
        let wire_msg = match WireMsg::decode(bytes.as_slice()) {
            Ok(msg) => msg,
            Err(e) => {
                return Err(LockstepError::Serialization(e));
            },
        };
        let mut events: Vec<LockstepEvent> = Vec::new();

        match wire_msg {
            WireMsg::InputPair(input_pair) => {
                let remote_input = match self.local_side {
                    Side::Left => input_pair.b,
                    Side::Right => input_pair.a,
                };

                self.remote_input_buffer.insert(input_pair.tick, remote_input);
            },
            WireMsg::Snapshot(snapshot_data) => {
                let snapshot = match Snapshot::decode(snapshot_data.as_slice()) {
                    Ok(snapshot) => snapshot,
                    Err(e) => {
                        return Err(LockstepError::Serialization(e));
                    },
                };
                self.core.restore(&snapshot);
                self.current_tick = snapshot.tick;

                events.push(LockstepEvent::SnapshotReceived { tick: snapshot.tick });
                assert(notes(events@) =~= seq![
                    LockstepNote::SnapshotReceived { tick: snapshot.tick },
                ]);
            },
            WireMsg::Ping(timestamp) => {
                let pong = WireMsg::ping(timestamp);
                let pong_bytes = pong.encode();
                let outcome = self.transport.send(pong_bytes.as_slice());
                match LockstepError::relay(outcome) {
                    Ok(()) => {},
                    Err(e) => {
                        return Err(e);
                    },
                }
            },
        }

        Ok(events)
    }

    /// Tries to advance the simulation by one tick. It advances exactly
    /// when the synchronizer runs, both buffers hold an input for the
    /// current tick, and the simulation accepts the pair. Without both
    /// inputs nothing happens; with both, a pair that the simulation cannot
    /// take fails with `SyncError` and changes nothing.
    pub fn tick(&mut self) -> (r: Result<Vec<LockstepEvent>, LockstepError>)
        ensures
            match old(self).model().pending() {
                None => r is Ok && r->Ok_0@.len() == 0 && final(self).model() == old(self).model(),
                Some(pair) => if old(self).model().can_advance(pair) {
                    &&& r is Ok
                    &&& notes(r->Ok_0@) == old(self).model().advance_notes(pair)
                    &&& final(self).model() == old(self).model().advanced(pair)
                } else {
                    &&& r matches Err(LockstepError::SyncError(_))
                    &&& final(self).model() == old(self).model()
                },
            },
            final(self).current_tick != old(self).current_tick || final(self).core
                != old(self).core ==> {
                &&& old(self).is_running
                &&& old(self).model().local_inputs.contains_key(old(self).current_tick)
                &&& old(self).model().remote_inputs.contains_key(old(self).current_tick)
            },
            final(self).current_tick != old(self).current_tick ==> {
                &&& final(self).current_tick == old(self).current_tick + 1
                &&& !final(self).model().local_inputs.contains_key(old(self).current_tick)
                &&& !final(self).model().remote_inputs.contains_key(old(self).current_tick)
            },
    {
        if !self.is_running {
            return Ok(Vec::new());
        }
        let mut events: Vec<LockstepEvent> = Vec::new();

        let local_input = match self.local_input_buffer.get(&self.current_tick) {
            Some(input) => *input,
            None => {
                return Ok(events);
            },
        };
        let remote_input = match self.remote_input_buffer.get(&self.current_tick) {
            Some(input) => *input,
            None => {
                return Ok(events);
            },
        };
        let input_pair = match self.local_side {
            Side::Left => InputPair::new(self.current_tick, local_input, remote_input),
            Side::Right => InputPair::new(self.current_tick, remote_input, local_input),
        };

        if self.current_tick == u32::MAX || !self.core.accepts(&input_pair) {
            return Err(
                LockstepError::SyncError(String::from_str("simulation cannot take this tick")),
            );
        }
        let game_events = self.core.step(&input_pair);

        self.local_input_buffer.remove(&self.current_tick);
        self.remote_input_buffer.remove(&self.current_tick);

        self.current_tick += 1;

        if let Some(game_event) = game_events {
            let reported: Vec<Event> = vec![game_event];
            assert(reported@ =~= seq![game_event]);
            events.push(
                LockstepEvent::GameAdvanced { tick: self.current_tick - 1, events: reported },
            );
            assert(notes(events@) =~= old(self).model().advance_notes(input_pair));
        } else {
            assert(notes(events@) =~= old(self).model().advance_notes(input_pair));
        }

        Ok(events)
    }

    /// Sends the simulation's current snapshot to the peer. Fails with
    /// `NotRunning` when stopped; a transport failure is handed on.
    pub fn request_snapshot(&mut self) -> (r: Result<(), LockstepError>)
        ensures
            !old(self).is_running ==> {
                &&& r matches Err(LockstepError::NotRunning)
                &&& final(self).model() == old(self).model()
            },
            old(self).is_running ==> old(self).model().sent(
                WireFrame::Snapshot(old(self).core.state().bytes()).bytes(),
                failure_of(r),
                final(self).transport,
            ) && final(self).model() == (LockstepState {
                transport: final(self).transport,
                ..old(self).model()
            }),
    {
        if !self.is_running {
            return Err(LockstepError::NotRunning);
        }
        let snapshot = self.core.snapshot();
        let wire_msg = WireMsg::snapshot(&snapshot);
        let bytes = wire_msg.encode();
        let outcome = self.transport.send(bytes.as_slice());
        let result = LockstepError::relay(outcome);
        assert(old(self).model().transport.send_effect(bytes@, outcome, self.transport));
        assert(old(self).model().sent(bytes@, failure_of(result), self.transport));
        result
    }

    /// Sends a ping with the given timestamp and, when it was sent, records
    /// the timestamp. Fails with `NotRunning` when stopped; a transport
    /// failure is handed on.
    pub fn ping_at(&mut self, timestamp_ms: u32) -> (r: Result<(), LockstepError>)
        ensures
            !old(self).is_running ==> {
                &&& r matches Err(LockstepError::NotRunning)
                &&& final(self).model() == old(self).model()
            },
            old(self).is_running ==> old(self).model().sent(
                WireFrame::Ping(timestamp_ms).bytes(),
                failure_of(r),
                final(self).transport,
            ) && final(self).model() == (LockstepState {
                transport: final(self).transport,
                last_ping_time: if r is Ok {
                    Some(timestamp_ms)
                } else {
                    old(self).last_ping_time
                },
                ..old(self).model()
            }),
    {
        if !self.is_running {
            return Err(LockstepError::NotRunning);
        }
        let ping = WireMsg::ping(timestamp_ms);
        let bytes = ping.encode();
        let outcome = self.transport.send(bytes.as_slice());
        let result = LockstepError::relay(outcome);
        assert(old(self).model().transport.send_effect(bytes@, outcome, self.transport));
        assert(old(self).model().sent(bytes@, failure_of(result), self.transport));
        if result.is_ok() {
            self.last_ping_time = Some(timestamp_ms);
        }
        result
    }

    /// Sends a ping stamped with the current time in milliseconds, cut to
    /// 32 bits; see `ping_at`.
    pub fn ping(&mut self) -> (r: Result<(), LockstepError>)
        ensures
            !old(self).is_running ==> {
                &&& r matches Err(LockstepError::NotRunning)
                &&& final(self).model() == old(self).model()
            },
            old(self).is_running ==> exists|timestamp_ms: u32| #[trigger]
                old(self).model().sent(
                    WireFrame::Ping(timestamp_ms).bytes(),
                    failure_of(r),
                    final(self).transport,
                ) && final(self).model() == (LockstepState {
                    transport: final(self).transport,
                    last_ping_time: if r is Ok {
                        Some(timestamp_ms)
                    } else {
                        old(self).last_ping_time
                    },
                    ..old(self).model()
                }),
    {
        let timestamp = (now_millis() % 0x1_0000_0000) as u32;
        self.ping_at(timestamp)
    }

    /// The simulation's projection for a renderer.
    pub fn view(&self) -> (v: crate::types::View)
        ensures
            v == self.core.view_spec(),
    {
        self.core.view()
    }

    /// The tick to be processed next.
    pub fn current_tick(&self) -> (t: Tick)
        ensures
            t == self.current_tick,
    {
        self.current_tick
    }

    /// Whether the current tick has a local input but no remote one yet.
    pub fn is_waiting_for_remote(&self) -> (b: bool)
        ensures
            b == (self.is_running && self.model().local_inputs.contains_key(self.current_tick)
                && !self.model().remote_inputs.contains_key(self.current_tick)),
    {
        if !self.is_running {
            return false;
        }
        self.local_input_buffer.contains_key(&self.current_tick)
            && !self.remote_input_buffer.contains_key(&self.current_tick)
    }

    /// The transport's status text.
    pub fn transport_status(&self) -> (s: String)
        ensures
            self.transport.may_report_status(s@),
    {
        self.transport.status()
    }

    /// Whether the transport reports itself open.
    pub fn is_connected(&self) -> (b: bool)
        ensures
            self.transport.may_report_open(b),
    {
        self.transport.is_open()
    }

    /// How many inputs are buffered: local, then remote.
    pub fn get_buffer_info(&self) -> (counts: (usize, usize))
        ensures
            counts.0 == self.model().local_inputs.len(),
            counts.1 == self.model().remote_inputs.len(),
    {
        (self.local_input_buffer.len(), self.remote_input_buffer.len())
    }
}

} // verus!
