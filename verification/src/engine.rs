//! The playback engine as a state machine.
//!
//! The engine owns no file, decoder or device. It decides; a driver acts. The
//! driver asks the engine for its [`Command`], carries it out on the live
//! session (reader, decoder, sink) and on the control channel, and hands the
//! result back as an [`Event`]. [`Engine::step`] takes the event, moves to the
//! next state and returns the [`Effect`] that the driver applies before it
//! asks for the next command.
//!
//! One turn of the decode loop is: take in at most one action (`Poll` while
//! playing, `Wait` otherwise), apply it, and, if a track is loaded and
//! playing, decode one packet and write it.

use std::path::PathBuf;
use vstd::prelude::*;
use crate::protocol::{OutputHint, PlayerAction, Volume};
use crate::time::{ms_to_time, ms_to_time_spec, NativeTime, TimeBase};

verus! {

/// What the engine knows of the loaded track.
#[derive(Clone, Copy, Debug, PartialEq, Eq, Structural)]
pub struct Session {
    /// The time base of the track.
    pub time_base: TimeBase,
    /// Whether the sink has been opened for this track.
    pub sink_open: bool,
}

/// Where in a turn of the decode loop the engine stands.
#[derive(Debug, PartialEq, Eq)]
pub enum Phase {
    /// Taking in the next action.
    Intake,
    /// A session for the track at this path is being opened.
    Opening(PathBuf),
    /// The next packet is being read and decoded.
    Decoding,
    /// The decoded buffer is being written; the hint is there if the sink
    /// has to be opened first.
    Writing(Option<OutputHint>),
    /// The control channel is closed and the engine has ended.
    Ended,
}

/// What the driver has to do next.
#[derive(Clone, Copy, Debug, PartialEq, Eq)]
pub enum Command<'a> {
    /// Block until the next action arrives.
    Wait,
    /// Look for one pending action, without blocking.
    Poll,
    /// Open a session for the track at this path.
    Open(&'a PathBuf),
    /// Read the next packet and decode it.
    Decode,
    /// Write the decoded buffer to the sink with this multiplier; where `open`
    /// holds a hint, open the sink with it first.
    Write { open: Option<OutputHint>, volume: Volume },
    /// Leave the decode loop.
    Exit,
}

/// Why the decoder could not decode a packet.
#[derive(Clone, Copy, Debug, PartialEq, Eq, Structural)]
pub enum DecodeFault {
    /// The packet holds malformed data.
    Malformed,
    /// The stream could not be read.
    Io,
    /// The stream could not be moved.
    Seek,
    /// The packet needs something that the decoder does not support.
    Unsupported,
    /// A limit that guards the decoder was reached.
    Limit,
    /// The decoder has to be made anew before it can go on.
    ResetRequired,
}

impl DecodeFault {
    /// The fault is that of one packet: the decoder can go on with the next.
    pub open spec fn recoverable(self) -> bool {
        self is Malformed
    }

    /// Whether the decoder can go on with the next packet.
    pub fn is_recoverable(&self) -> (recoverable: bool)
        ensures
            recoverable == self.recoverable(),
    {
        match self {
            DecodeFault::Malformed => true,
            _ => false,
        }
    }
}

/// What the driver found when it carried out a command.
#[derive(Debug, PartialEq, Eq)]
pub enum Event {
    /// An action arrived on the control channel.
    Action(PlayerAction),
    /// No action is pending.
    NoAction,
    /// The control channel is closed for good.
    Disconnected,
    /// The session is open; the track has this time base.
    Opened(TimeBase),
    /// The track could not be opened or probed.
    OpenFailed,
    /// A packet with this timestamp, in ticks, was decoded into a buffer.
    Decoded { ts: u64, hint: OutputHint },
    /// The stream is at its end, or could not be read any further.
    EndOfStream,
    /// The decoder could not decode the packet.
    DecodeFailed(DecodeFault),
    /// The sink took the buffer.
    Written,
    /// The sink refused the buffer.
    WriteFailed,
}

/// An error that the engine reports to its caller.
#[derive(Clone, Copy, Debug, PartialEq, Eq, Structural)]
pub enum EngineError {
    /// The track of the last `Play` could not be opened; nothing is loaded.
    OpenFailed,
}

/// What the driver applies after a step, before it asks for the next command.
#[derive(Clone, Copy, Debug, PartialEq, Eq, Structural)]
pub enum Effect {
    /// Nothing.
    Nothing,
    /// Destroy the live session.
    Discard,
    /// Move the reader to this time, accurately.
    Seek(NativeTime),
    /// Store this position, in milliseconds, in the shared position.
    Publish(u64),
    /// Destroy the live session and send one completion notification.
    Finish,
    /// Report this error to the caller.
    Report(EngineError),
    /// Write to the log that a malformed packet was skipped.
    LogSkipped,
}

/// The state of the engine.
pub struct EngineState {
    /// The loaded track, if there is one.
    pub session: Option<Session>,
    /// Whether the loaded track is being played rather than paused.
    pub playing: bool,
    /// The multiplier for the buffers written from now on.
    pub volume: Volume,
    /// The position last published, in milliseconds.
    pub position: u64,
    /// Where in a turn of the decode loop the engine stands.
    pub phase: Phase,
}

impl EngineState {
    /// No track is loaded.
    pub open spec fn idle(self) -> bool {
        self.session is None
    }

    /// The fields agree with each other: only a loaded track plays, a loaded
    /// track has a proper time base, and the phase fits the rest.
    pub open spec fn wf(self) -> bool {
        &&& self.playing ==> self.session is Some
        &&& self.session matches Some(session) ==> session.time_base.wf()
        &&& match self.phase {
            Phase::Intake => true,
            Phase::Opening(_) => self.session is None,
            Phase::Decoding => self.playing,
            Phase::Writing(_) => self.playing && self.session->0.sink_open,
            Phase::Ended => self.session is None,
        }
    }

    /// The command that the engine waits to see carried out.
    pub open spec fn command(self) -> Command<'static> {
        match self.phase {
            Phase::Intake => if self.playing {
                Command::Poll
            } else {
                Command::Wait
            },
            Phase::Opening(path) => Command::Open(&path),
            Phase::Decoding => Command::Decode,
            Phase::Writing(open) => Command::Write { open, volume: self.volume },
            Phase::Ended => Command::Exit,
        }
    }

    /// The event answers the command that is outstanding.
    pub open spec fn expects(self, event: Event) -> bool {
        match self.phase {
            Phase::Intake => event is Action || event is NoAction || event is Disconnected,
            Phase::Opening(_) => event is Opened || event is OpenFailed,
            Phase::Decoding => event is Decoded || event is EndOfStream || event is DecodeFailed,
            Phase::Writing(_) => event is Written || event is WriteFailed,
            Phase::Ended => false,
        }
    }

    /// The event can be taken: where it answers the outstanding command, the
    /// time base of an opened track is proper, and the position of a decoded
    /// packet fits in 64 bits.
    pub open spec fn admits(self, event: Event) -> bool {
        match event {
            Event::Opened(time_base) => self.phase is Opening ==> time_base.wf(),
            Event::Decoded { ts, .. } => self.phase is Decoding && self.session is Some
                ==> self.session->0.time_base.position(ts) <= u64::MAX,
            _ => true,
        }
    }

    /// The state with its turn of the loop moved past the intake: on to
    /// decoding while a track plays, back to the intake otherwise.
    pub open spec fn settled(self) -> EngineState {
        EngineState {
            phase: if self.playing {
                Phase::Decoding
            } else {
                Phase::Intake
            },
            ..self
        }
    }

    /// The state with nothing loaded, at the intake.
    pub open spec fn unloaded(self) -> EngineState {
        EngineState { session: None, playing: false, phase: Phase::Intake, ..self }
    }

    /// The state after an action has been applied at the intake.
    pub open spec fn applied(self, action: PlayerAction) -> EngineState {
        match action {
            PlayerAction::Play(path) => EngineState {
                session: None,
                playing: false,
                phase: Phase::Opening(path),
                ..self
            },
            PlayerAction::Pause => EngineState { playing: false, ..self }.settled(),
            PlayerAction::Resume => EngineState { playing: self.session is Some, ..self }.settled(),
            PlayerAction::Stop => self.unloaded(),
            PlayerAction::Seek(_) => self.settled(),
            PlayerAction::SetVolume(volume) => EngineState { volume, ..self }.settled(),
        }
    }

    /// The state after an event that answers the outstanding command.
    pub open spec fn advanced(self, event: Event) -> EngineState {
        match event {
            Event::Action(action) => self.applied(action),
            Event::NoAction => self.settled(),
            Event::Disconnected => if self.playing {
                self.settled()
            } else {
                EngineState { session: None, phase: Phase::Ended, ..self }
            },
            Event::Opened(time_base) => EngineState {
                session: Some(Session { time_base, sink_open: false }),
                playing: true,
                phase: Phase::Decoding,
                ..self
            },
            Event::OpenFailed => self.unloaded(),
            Event::Decoded { ts, hint } => EngineState {
                session: Some(Session { sink_open: true, ..self.session->0 }),
                position: self.session->0.time_base.position(ts) as u64,
                phase: Phase::Writing(
                    if self.session->0.sink_open {
                        None
                    } else {
                        Some(hint)
                    },
                ),
                ..self
            },
            Event::DecodeFailed(fault) => if fault.recoverable() {
                EngineState { phase: Phase::Intake, ..self }
            } else {
                self.unloaded()
            },
            Event::Written => EngineState { phase: Phase::Intake, ..self },
            Event::EndOfStream | Event::WriteFailed => self.unloaded(),
        }
    }

    /// The state after an event. An event that does not answer the
    /// outstanding command changes nothing.
    pub open spec fn next(self, event: Event) -> EngineState {
        if self.expects(event) {
            self.advanced(event)
        } else {
            self
        }
    }

    /// What the driver has to apply after an event.
    pub open spec fn effect(self, event: Event) -> Effect {
        if !self.expects(event) {
            Effect::Nothing
        } else {
            match event {
                Event::Action(PlayerAction::Play(_)) | Event::Action(PlayerAction::Stop) => {
                    if self.session is Some {
                        Effect::Discard
                    } else {
                        Effect::Nothing
                    }
                },
                Event::Action(PlayerAction::Seek(ms)) => if self.session is Some {
                    Effect::Seek(ms_to_time_spec(ms))
                } else {
                    Effect::Nothing
                },
                Event::Disconnected => if !self.playing && self.session is Some {
                    Effect::Discard
                } else {
                    Effect::Nothing
                },
                Event::OpenFailed => Effect::Report(EngineError::OpenFailed),
                Event::Decoded { ts, .. } => Effect::Publish(
                    self.session->0.time_base.position(ts) as u64,
                ),
                Event::DecodeFailed(fault) => if fault.recoverable() {
                    Effect::LogSkipped
                } else {
                    Effect::Finish
                },
                Event::EndOfStream | Event::WriteFailed => Effect::Finish,
                _ => Effect::Nothing,
            }
        }
    }
}

/// The part of the engine's work that decides: which command comes next, and
/// what each event changes.
pub struct Engine {
    state: EngineState,
}

impl View for Engine {
    type V = EngineState;

    closed spec fn view(&self) -> EngineState {
        self.state
    }
}

impl Engine {
    #[verifier::type_invariant]
    spec fn inv(self) -> bool {
        self.state.wf()
    }

    /// An engine with nothing loaded, waiting for its first action.
    pub fn new(volume: Volume) -> (engine: Engine)
        ensures
            engine@ == (EngineState {
                session: None,
                playing: false,
                volume,
                position: 0,
                phase: Phase::Intake,
            }),
            engine@.wf(),
    {
        Engine {
            state: EngineState {
                session: None,
                playing: false,
                volume,
                position: 0,
                phase: Phase::Intake,
            },
        }
    }

    /// The command that the engine waits to see carried out.
    pub fn command(&self) -> (command: Command<'_>)
        ensures
            command == self@.command(),
    {
        match &self.state.phase {
            Phase::Intake => if self.state.playing {
                Command::Poll
            } else {
                Command::Wait
            },
            Phase::Opening(path) => Command::Open(path),
            Phase::Decoding => Command::Decode,
            Phase::Writing(open) => Command::Write { open: *open, volume: self.state.volume },
            Phase::Ended => Command::Exit,
        }
    }

    /// Whether `step` can take the event: where it answers the outstanding
    /// command, the time base that comes with it is proper, and the position
    /// of the packet that comes with it fits in 64 bits.
    pub fn admits(&self, event: &Event) -> (admitted: bool)
        ensures
            admitted == self@.admits(*event),
            self@.wf(),
    {
        proof {
            use_type_invariant(self);
        }
        match (event, &self.state.phase, self.state.session) {
            (Event::Opened(time_base), Phase::Opening(_), _) => time_base.numer > 0
                && time_base.denom > 0,
            (Event::Decoded { ts, .. }, Phase::Decoding, Some(session)) => {
                session.time_base.position_ms(*ts).is_some()
            },
            _ => true,
        }
    }

    /// Takes the event that the driver found when it carried out the
    /// outstanding command, moves to the next state and returns what the
    /// driver has to apply. An event that does not answer the outstanding
    /// command changes nothing and has no effect.
    pub fn step(&mut self, event: Event) -> (effect: Effect)
        requires
            old(self)@.admits(event),
        ensures
            final(self)@ == old(self)@.next(event),
            effect == old(self)@.effect(event),
            final(self)@.wf(),
    {
        proof {
            use_type_invariant(&*self);
        }
        let session: Option<Session> = self.state.session;
        let playing: bool = self.state.playing;
        let volume: Volume = self.state.volume;
        let position: u64 = self.state.position;
        match self.state.phase {
            Phase::Intake => match event {
                Event::Action(action) => self.apply(action),
                Event::NoAction => {
                    self.settle();
                    Effect::Nothing
                },
                Event::Disconnected => {
                    if playing {
                        self.settle();
                        Effect::Nothing
                    } else {
                        self.state = EngineState {
                            session: None,
                            playing,
                            volume,
                            position,
                            phase: Phase::Ended,
                        };
                        if session.is_some() {
                            Effect::Discard
                        } else {
                            Effect::Nothing
                        }
                    }
                },
                _ => Effect::Nothing,
            },
            Phase::Opening(_) => match event {
                Event::Opened(time_base) => {
                    self.state = EngineState {
                        session: Some(Session { time_base, sink_open: false }),
                        playing: true,
                        volume,
                        position,
                        phase: Phase::Decoding,
                    };
                    Effect::Nothing
                },
                Event::OpenFailed => {
                    self.unload();
                    Effect::Report(EngineError::OpenFailed)
                },
                _ => Effect::Nothing,
            },
            Phase::Decoding => match event {
                Event::Decoded { ts, hint } => {
                    let loaded: Session = session.unwrap();
                    let ms: u64 = loaded.time_base.position_ms(ts).unwrap();
                    self.state = EngineState {
                        session: Some(Session { time_base: loaded.time_base, sink_open: true }),
                        playing,
                        volume,
                        position: ms,
                        phase: Phase::Writing(
                            if loaded.sink_open {
                                None
                            } else {
                                Some(hint)
                            },
                        ),
                    };
                    Effect::Publish(ms)
                },
                Event::DecodeFailed(fault) => {
                    if fault.is_recoverable() {
                        self.state.phase = Phase::Intake;
                        Effect::LogSkipped
                    } else {
                        self.unload();
                        Effect::Finish
                    }
                },
                Event::EndOfStream => {
                    self.unload();
                    Effect::Finish
                },
                _ => Effect::Nothing,
            },
            Phase::Writing(_) => match event {
                Event::Written => {
                    self.state.phase = Phase::Intake;
                    Effect::Nothing
                },
                Event::WriteFailed => {
                    self.unload();
                    Effect::Finish
                },
                _ => Effect::Nothing,
            },
            Phase::Ended => Effect::Nothing,
        }
    }

    /// Takes the event as `step` does, where `step` can take it. An event that
    /// cannot be taken is handed back and changes nothing.
    pub fn try_step(&mut self, event: Event) -> (result: Result<Effect, Event>)
        ensures
            final(self)@.wf(),
            old(self)@.admits(event) ==> final(self)@ == old(self)@.next(event) && result == Ok::<
                Effect,
                Event,
            >(old(self)@.effect(event)),
            !old(self)@.admits(event) ==> final(self)@ == old(self)@ && result == Err::<
                Effect,
                Event,
            >(event),
    {
        if self.admits(&event) {
            Ok(self.step(event))
        } else {
            Err(event)
        }
    }

    /// Applies an action that arrived at the intake.
    fn apply(&mut self, action: PlayerAction) -> (effect: Effect)
        requires
            old(self)@.phase is Intake,
        ensures
            final(self)@ == old(self)@.applied(action),
            effect == old(self)@.effect(Event::Action(action)),
    {
        proof {
            use_type_invariant(&*self);
        }
        let loaded: bool = self.state.session.is_some();
        match action {
            PlayerAction::Play(path) => {
                self.state = EngineState {
                    session: None,
                    playing: false,
                    volume: self.state.volume,
                    position: self.state.position,
                    phase: Phase::Opening(path),
                };
                if loaded {
                    Effect::Discard
                } else {
                    Effect::Nothing
                }
            },
            PlayerAction::Pause => {
                self.state.playing = false;
                self.settle();
                Effect::Nothing
            },
            PlayerAction::Resume => {
                self.state.playing = loaded;
                self.settle();
                Effect::Nothing
            },
            PlayerAction::Stop => {
                self.unload();
                if loaded {
                    Effect::Discard
                } else {
                    Effect::Nothing
                }
            },
            PlayerAction::Seek(ms) => {
                self.settle();
                if loaded {
                    Effect::Seek(ms_to_time(ms))
                } else {
                    Effect::Nothing
                }
            },
            PlayerAction::SetVolume(volume) => {
                self.state.volume = volume;
                self.settle();
                Effect::Nothing
            },
        }
    }

    /// Moves past the intake: on to decoding while a track plays, back to
    /// the intake otherwise.
    fn settle(&mut self)
        requires
            old(self)@.phase is Intake,
        ensures
            final(self)@ == old(self)@.settled(),
    {
        proof {
            use_type_invariant(&*self);
        }
        if self.state.playing {
            self.state.phase = Phase::Decoding;
        }
    }

    /// Forgets the loaded track and goes back to the intake.
    fn unload(&mut self)
        ensures
            final(self)@ == old(self)@.unloaded(),
    {
        self.state = EngineState {
            session: None,
            playing: false,
            volume: self.state.volume,
            position: self.state.position,
            phase: Phase::Intake,
        };
    }

    /// Whether a track is loaded.
    pub fn has_session(&self) -> (loaded: bool)
        ensures
            loaded == self@.session is Some,
    {
        self.state.session.is_some()
    }

    /// Whether a track is loaded and not paused.
    pub fn is_playing(&self) -> (playing: bool)
        ensures
            playing == self@.playing,
    {
        self.state.playing
    }

    /// The position last published, in milliseconds.
    pub fn position(&self) -> (ms: u64)
        ensures
            ms == self@.position,
    {
        self.state.position
    }

    /// The multiplier for the buffers written from now on.
    pub fn volume(&self) -> (volume: Volume)
        ensures
            volume == self@.volume,
    {
        self.state.volume
    }
}

} // verus!
