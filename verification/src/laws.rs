//! What holds of the engine over whole runs of events.

use vstd::prelude::*;
use crate::engine::{Command, DecodeFault, Effect, EngineState, Event, Phase};
use crate::protocol::{OutputHint, PlayerAction, Volume};
use crate::time::{lemma_position_monotonic, lemma_round_trip, ms_to_time_spec};

verus! {

/// The state after a run of events, taken in order.
pub open spec fn state_after(state: EngineState, events: Seq<Event>) -> EngineState
    decreases events.len(),
{
    if events.len() == 0 {
        state
    } else {
        state_after(state, events.drop_last()).next(events.last())
    }
}

/// Every event of the run can be taken in the state that it meets.
pub open spec fn admitted(state: EngineState, events: Seq<Event>) -> bool
    decreases events.len(),
{
    events.len() > 0 ==> {
        &&& admitted(state, events.drop_last())
        &&& state_after(state, events.drop_last()).admits(events.last())
    }
}

/// The number of completion notifications that a run sends.
pub open spec fn completions(state: EngineState, events: Seq<Event>) -> nat
    decreases events.len(),
{
    if events.len() == 0 {
        0
    } else {
        let before = state_after(state, events.drop_last());
        completions(state, events.drop_last()) + if before.effect(events.last())
            == Effect::Finish {
            1nat
        } else {
            0nat
        }
    }
}

/// The event is a `Play` action.
pub open spec fn is_play(event: Event) -> bool {
    event matches Event::Action(PlayerAction::Play(_))
}

/// The event is a `SetVolume` action.
pub open spec fn is_set_volume(event: Event) -> bool {
    event matches Event::Action(PlayerAction::SetVolume(_))
}

/// No event of the run is a `Play` action.
pub open spec fn without_play(events: Seq<Event>) -> bool {
    forall|i: int| 0 <= i < events.len() ==> !is_play(#[trigger] events[i])
}

/// The number of `Play` actions in the run.
pub open spec fn plays(events: Seq<Event>) -> nat
    decreases events.len(),
{
    if events.len() == 0 {
        0
    } else {
        plays(events.drop_last()) + if is_play(events.last()) {
            1nat
        } else {
            0nat
        }
    }
}

/// The timestamp of the last packet decoded in the run, or `floor` if there is none.
pub open spec fn last_tick(events: Seq<Event>, floor: u64) -> u64
    decreases events.len(),
{
    if events.len() == 0 {
        floor
    } else {
        match events.last() {
            Event::Decoded { ts, .. } => ts,
            _ => last_tick(events.drop_last(), floor),
        }
    }
}

/// The packets decoded in the run come with timestamps that never fall, and
/// none is below `floor`.
pub open spec fn ticks_ordered(events: Seq<Event>, floor: u64) -> bool
    decreases events.len(),
{
    events.len() > 0 ==> {
        &&& ticks_ordered(events.drop_last(), floor)
        &&& events.last() matches Event::Decoded { ts, .. } ==> last_tick(
            events.drop_last(),
            floor,
        ) <= ts
    }
}

/// A step keeps the state in agreement with itself.
pub proof fn lemma_next_wf(state: EngineState, event: Event)
    requires
        state.wf(),
        state.admits(event),
    ensures
        state.next(event).wf(),
{
}

/// A run keeps the state in agreement with itself.
pub proof fn lemma_run_wf(state: EngineState, events: Seq<Event>)
    requires
        state.wf(),
        admitted(state, events),
    ensures
        state_after(state, events).wf(),
    decreases events.len(),
{
    if events.len() > 0 {
        lemma_run_wf(state, events.drop_last());
    }
}

/// Only `Play` loads a track: a step from a state with nothing loaded to one
/// with a track loaded is the answer to an `Open` command, and only a `Play`
/// action at the intake brings that command about.
pub proof fn lemma_only_play_loads(state: EngineState, event: Event)
    requires
        state.wf(),
    ensures
        state.idle() && !state.next(event).idle() ==> state.phase is Opening && event is Opened,
        !(state.phase is Opening) && state.next(event).phase is Opening ==> state.phase is Intake
            && is_play(event),
{
}

/// A loaded track goes away only on `Stop`, on `Play`, at the end of the
/// stream, on a failure of the reader, the decoder or the sink for good, or
/// when the control channel closes while nothing plays.
pub proof fn lemma_only_these_unload(state: EngineState, event: Event)
    requires
        state.wf(),
        !state.idle(),
        state.next(event).idle(),
    ensures
        event == Event::Action(PlayerAction::Stop) || is_play(event) || event is EndOfStream
            || (event matches Event::DecodeFailed(fault) && !fault.recoverable()) || event
            is WriteFailed || (event is Disconnected && !state.playing),
{
}

/// `Seek` and `SetVolume` leave a playing track playing and a paused track paused.
pub proof fn lemma_seek_and_volume_keep_playing(state: EngineState, ms: u64, volume: Volume)
    requires
        state.wf(),
    ensures
        state.next(Event::Action(PlayerAction::Seek(ms))).playing == state.playing,
        state.next(Event::Action(PlayerAction::Seek(ms))).session == state.session,
        state.next(Event::Action(PlayerAction::SetVolume(volume))).playing == state.playing,
        state.next(Event::Action(PlayerAction::SetVolume(volume))).session == state.session,
{
}

/// The engine never spins: while nothing plays it has the driver block on
/// the control channel, open a track, or leave; it never polls and never decodes.
pub proof fn lemma_never_spins(state: EngineState)
    requires
        state.wf(),
        !state.playing,
    ensures
        state.command() == Command::Wait || state.command() is Open || state.command()
            == Command::Exit,
{
}

/// The turns of the loop keep their order. A packet is decoded only straight
/// after the intake, so one action at most is taken in between two packets
/// and a burst of actions cannot hold up decoding. A decoded buffer is
/// written or the track unloaded before anything else happens, and the intake
/// comes again only when the sink has answered, so the loop runs no faster
/// than the sink takes buffers.
pub proof fn lemma_turn_order(state: EngineState, event: Event)
    requires
        state.wf(),
        state.admits(event),
        state.next(event) != state,
    ensures
        state.next(event).phase is Decoding ==> state.phase is Intake || state.phase is Opening,
        state.phase is Decoding ==> state.next(event).phase is Writing || state.next(event).phase
            is Intake,
        state.phase is Decoding && state.next(event).phase is Writing ==> event is Decoded,
        state.phase is Writing ==> state.next(event).phase is Intake && (event is Written
            || event is WriteFailed),
{
}

/// Actions wait for their turn: one that arrives while the engine is not at
/// the intake, such as a `Stop` while a buffer is being written, changes
/// nothing until the driver hands it over at the intake.
pub proof fn lemma_actions_wait_their_turn(state: EngineState, action: PlayerAction)
    requires
        !(state.phase is Intake),
    ensures
        state.next(Event::Action(action)) == state,
        state.effect(Event::Action(action)) == Effect::Nothing,
{
}

/// The sink of a track is opened once, when its first buffer has been
/// decoded, with the hint that came with that buffer; no later buffer of the
/// track opens it again.
pub proof fn lemma_sink_opens_once(state: EngineState, ts: u64, hint: OutputHint)
    requires
        state.wf(),
        state.phase is Decoding,
    ensures
        ({
            let decoded = state.next(Event::Decoded { ts, hint });
            &&& decoded.session->0.sink_open
            &&& decoded.session->0.time_base == state.session->0.time_base
            &&& decoded.command() == Command::Write {
                open: if state.session->0.sink_open {
                    None
                } else {
                    Some(hint)
                },
                volume: state.volume,
            }
        }),
        state.next(Event::Opened(state.session->0.time_base)) == state,
{
}

/// A closed control channel ends the engine when nothing plays, and only
/// then: a track that plays is played on.
pub proof fn lemma_closed_channel(state: EngineState)
    requires
        state.wf(),
        state.phase is Intake,
    ensures
        !state.playing ==> state.next(Event::Disconnected).command() == Command::Exit
            && state.next(Event::Disconnected).idle(),
        state.playing ==> state.next(Event::Disconnected) == state.next(Event::NoAction)
            && state.next(Event::Disconnected).command() == Command::Decode,
        state.effect(Event::Disconnected) != Effect::Finish,
{
}

/// While nothing is loaded and no `Play` arrives, nothing gets loaded, the
/// position stays as it is, and the driver is told to do nothing to a session.
pub proof fn lemma_idle_stays_idle(state: EngineState, events: Seq<Event>)
    requires
        state.wf(),
        state.idle(),
        !(state.phase is Opening),
        without_play(events),
    ensures
        state_after(state, events).idle(),
        !state_after(state, events).playing,
        state_after(state, events).phase is Intake || state_after(state, events).phase is Ended,
        state_after(state, events).position == state.position,
        completions(state, events) == 0,
        forall|event: Event|
            !is_play(event) ==> #[trigger] state_after(state, events).effect(event)
                == Effect::Nothing,
    decreases events.len(),
{
    if events.len() > 0 {
        let before = events.drop_last();
        assert forall|i: int| 0 <= i < before.len() implies !is_play(#[trigger] before[i]) by {
            assert(before[i] == events[i]);
        }
        lemma_idle_stays_idle(state, before);
        assert(!is_play(events[events.len() - 1]));
    }
    let reached = state_after(state, events);
    assert forall|event: Event| !is_play(event) implies #[trigger] reached.effect(event)
        == Effect::Nothing by {
    }
}

/// While no `Play` arrives and the reader hands out packets whose timestamps
/// never fall, the position of a loaded track never falls. A track starts
/// from the position that the track before it left behind, so this is said of
/// a track whose position is not ahead of its reader: at most that of a
/// timestamp, `floor`, that no later packet falls below.
pub proof fn lemma_position_never_falls(state: EngineState, events: Seq<Event>, floor: u64)
    requires
        state.wf(),
        state.session is Some,
        state.position <= state.session->0.time_base.position(floor),
        without_play(events),
        ticks_ordered(events, floor),
        admitted(state, events),
    ensures
        state.position <= state_after(state, events).position,
        state_after(state, events).session matches Some(session) ==> {
            &&& session.time_base == state.session->0.time_base
            &&& state_after(state, events).position <= session.time_base.position(
                last_tick(events, floor),
            )
        },
        !(state_after(state, events).phase is Opening),
    decreases events.len(),
{
    if events.len() > 0 {
        let before = events.drop_last();
        assert forall|i: int| 0 <= i < before.len() implies !is_play(#[trigger] before[i]) by {
            assert(before[i] == events[i]);
        }
        lemma_position_never_falls(state, before, floor);
        lemma_run_wf(state, before);
        assert(!is_play(events[events.len() - 1]));
        let reached = state_after(state, before);
        if reached.session is Some {
            match events.last() {
                Event::Decoded { ts, .. } => {
                    lemma_position_monotonic(
                        reached.session->0.time_base,
                        last_tick(before, floor),
                        ts,
                    );
                },
                _ => {},
            }
        }
    }
}

/// What holds of a run holds of each of its beginnings.
proof fn lemma_beginning(state: EngineState, events: Seq<Event>, floor: u64, k: int)
    requires
        0 <= k <= events.len(),
        without_play(events),
        ticks_ordered(events, floor),
        admitted(state, events),
    ensures
        without_play(events.take(k)),
        ticks_ordered(events.take(k), floor),
        admitted(state, events.take(k)),
    decreases events.len(),
{
    assert forall|i: int| 0 <= i < events.take(k).len() implies !is_play(
        #[trigger] events.take(k)[i],
    ) by {
        assert(events.take(k)[i] == events[i]);
    }
    if k == events.len() {
        assert(events.take(k) =~= events);
    } else {
        let before = events.drop_last();
        assert forall|i: int| 0 <= i < before.len() implies !is_play(#[trigger] before[i]) by {
            assert(before[i] == events[i]);
        }
        lemma_beginning(state, before, floor, k);
        assert(before.take(k) =~= events.take(k));
    }
}

/// While no `Play` arrives and the reader hands out packets whose timestamps
/// never fall, the position of a loaded track is, at each point of the run,
/// at least what it was at every earlier point.
pub proof fn lemma_position_never_falls_throughout(
    state: EngineState,
    events: Seq<Event>,
    floor: u64,
    i: int,
    j: int,
)
    requires
        state.wf(),
        state.session is Some,
        state.position <= state.session->0.time_base.position(floor),
        without_play(events),
        ticks_ordered(events, floor),
        admitted(state, events),
        0 <= i <= j <= events.len(),
    ensures
        state_after(state, events.take(i)).position <= state_after(
            state,
            events.take(j),
        ).position,
    decreases j - i,
{
    if i < j {
        lemma_position_never_falls_throughout(state, events, floor, i, j - 1);
        let shorter = events.take(j - 1);
        let longer = events.take(j);
        assert(longer.drop_last() =~= shorter);
        assert(longer.last() == events[j - 1]);
        lemma_beginning(state, events, floor, j - 1);
        lemma_beginning(state, events, floor, j);
        lemma_position_never_falls(state, shorter, floor);
        lemma_run_wf(state, shorter);
        let reached = state_after(state, shorter);
        assert(!is_play(events[j - 1]));
        if reached.session is Some {
            match events[j - 1] {
                Event::Decoded { ts, .. } => {
                    lemma_position_monotonic(
                        reached.session->0.time_base,
                        last_tick(shorter, floor),
                        ts,
                    );
                },
                _ => {},
            }
        }
    }
}

/// `Pause` and then `Resume` change nothing but the turn of the loop: the
/// track, its time base, the sink, the position and the volume are as before,
/// the driver is told to leave the reader alone, and decoding goes on.
pub proof fn lemma_pause_then_resume(state: EngineState)
    requires
        state.wf(),
        state.phase is Intake,
        state.session is Some,
    ensures
        ({
            let paused = state.next(Event::Action(PlayerAction::Pause));
            let resumed = paused.next(Event::Action(PlayerAction::Resume));
            &&& state.effect(Event::Action(PlayerAction::Pause)) == Effect::Nothing
            &&& paused.effect(Event::Action(PlayerAction::Resume)) == Effect::Nothing
            &&& paused.command() == Command::Wait
            &&& paused == EngineState { playing: false, ..state }
            &&& resumed == EngineState { playing: true, phase: Phase::Decoding, ..state }
            &&& resumed.command() == Command::Decode
        }),
{
}

/// While a track is paused the engine waits: whatever arrives that is no
/// action and not the closing of the channel changes nothing, and the driver
/// is never told to decode.
pub proof fn lemma_paused_waits(state: EngineState, events: Seq<Event>)
    requires
        state.wf(),
        state.phase is Intake,
        !state.playing,
        forall|i: int|
            0 <= i < events.len() ==> !(#[trigger] events[i] is Action) && !(events[i]
                is Disconnected),
    ensures
        state_after(state, events) == state,
        state_after(state, events).command() == Command::Wait,
    decreases events.len(),
{
    if events.len() > 0 {
        let before = events.drop_last();
        assert forall|i: int| 0 <= i < before.len() implies !(#[trigger] before[i] is Action)
            && !(before[i] is Disconnected) by {
            assert(before[i] == events[i]);
        }
        lemma_paused_waits(state, before);
        assert(!(events[events.len() - 1] is Action));
    }
}

/// A pause is not heard in what follows it: a track that is paused, left
/// waiting for as long as it takes and resumed goes on exactly as a track that
/// was never paused, with the packet that the reader hands out next.
pub proof fn lemma_pause_leaves_no_trace(
    state: EngineState,
    waiting: Seq<Event>,
    ts: u64,
    hint: OutputHint,
)
    requires
        state.wf(),
        state.phase is Intake,
        state.playing,
        forall|i: int|
            0 <= i < waiting.len() ==> !(#[trigger] waiting[i] is Action) && !(waiting[i]
                is Disconnected),
    ensures
        ({
            let paused = state.next(Event::Action(PlayerAction::Pause));
            let resumed = state_after(paused, waiting).next(Event::Action(PlayerAction::Resume));
            let played_on = state.next(Event::NoAction);
            &&& resumed == played_on
            &&& resumed.next(Event::Decoded { ts, hint }) == played_on.next(
                Event::Decoded { ts, hint },
            )
        }),
{
    lemma_paused_waits(state.next(Event::Action(PlayerAction::Pause)), waiting);
}

/// `Seek` asks the reader for exactly the target, before the next packet is
/// decoded, and leaves the position alone; the packet decoded next sets the
/// position to its own. So where the reader hands out the packet that holds
/// the target, the position is within one packet's length of the target.
pub proof fn lemma_seek_then_decode(
    state: EngineState,
    target: u64,
    ts: u64,
    hint: OutputHint,
    packet_ms: nat,
)
    requires
        state.wf(),
        state.phase is Intake,
        state.playing,
        state.session->0.time_base.position(ts) <= u64::MAX,
    ensures
        ({
            let sought = state.next(Event::Action(PlayerAction::Seek(target)));
            let decoded = sought.next(Event::Decoded { ts, hint });
            let at = state.session->0.time_base.position(ts);
            &&& state.effect(Event::Action(PlayerAction::Seek(target))) == Effect::Seek(
                ms_to_time_spec(target),
            )
            &&& ms_to_time_spec(target).to_ms() == target
            &&& sought.position == state.position
            &&& sought.command() == Command::Decode
            &&& sought.effect(Event::Decoded { ts, hint }) == Effect::Publish(at as u64)
            &&& decoded.position == at
            &&& at <= target < at + packet_ms ==> target - packet_ms < decoded.position <= target
        }),
{
    lemma_round_trip(target);
}

/// `Stop` never sends a completion notification, whatever the state.
pub proof fn lemma_stop_is_silent(state: EngineState)
    ensures
        state.effect(Event::Action(PlayerAction::Stop)) != Effect::Finish,
        state.phase is Intake ==> state.next(Event::Action(PlayerAction::Stop)).idle(),
        state.phase is Intake ==> state.next(Event::Action(PlayerAction::Stop)).command()
            == Command::Wait,
{
}

/// The end of the stream, met while decoding, sends one completion
/// notification, unloads the track and leaves the position where it was.
pub proof fn lemma_end_of_stream_finishes(state: EngineState)
    requires
        state.wf(),
        state.phase is Decoding,
    ensures
        state.effect(Event::EndOfStream) == Effect::Finish,
        state.next(Event::EndOfStream) == state.unloaded(),
        state.next(Event::EndOfStream).idle(),
        state.next(Event::EndOfStream).position == state.position,
        state.next(Event::EndOfStream).command() == Command::Wait,
{
}

/// A malformed packet costs the track nothing but that packet: it is noted
/// in the log, the track stays loaded and playing, and the next turn begins.
/// Any other fault of the decoder ends the track as the end of the stream does.
pub proof fn lemma_decoder_faults(state: EngineState, fault: DecodeFault)
    requires
        state.wf(),
        state.phase is Decoding,
    ensures
        fault.recoverable() ==> state.effect(Event::DecodeFailed(fault)) == Effect::LogSkipped
            && state.next(Event::DecodeFailed(fault)) == (EngineState {
            phase: Phase::Intake,
            ..state
        }) && state.next(Event::DecodeFailed(fault)).command() == Command::Poll,
        !fault.recoverable() ==> state.effect(Event::DecodeFailed(fault)) == Effect::Finish
            && state.next(Event::DecodeFailed(fault)) == state.next(Event::EndOfStream),
{
}

/// Whether a completion notification can still come without a new `Play`:
/// a track is loaded or being opened.
pub open spec fn outstanding(state: EngineState) -> nat {
    if state.session is Some || state.phase is Opening {
        1
    } else {
        0
    }
}

/// A session completes at most once: a run sends no more completion
/// notifications than there were sessions, one for the track that was loaded or
/// being opened at the start and one for each `Play`, less the one that is
/// still loaded or being opened at the end.
pub proof fn lemma_one_completion_per_session(state: EngineState, events: Seq<Event>)
    requires
        state.wf(),
        admitted(state, events),
    ensures
        completions(state, events) + outstanding(state_after(state, events)) <= outstanding(
            state,
        ) + plays(events),
    decreases events.len(),
{
    if events.len() > 0 {
        lemma_one_completion_per_session(state, events.drop_last());
        lemma_run_wf(state, events.drop_last());
    }
}

/// After `SetVolume`, and until the next one, the volume is the one that was
/// set, and every buffer is written with it.
pub proof fn lemma_volume_sticks(state: EngineState, volume: Volume, events: Seq<Event>)
    requires
        state.phase is Intake,
        forall|i: int| 0 <= i < events.len() ==> !is_set_volume(#[trigger] events[i]),
    ensures
        ({
            let set = state.next(Event::Action(PlayerAction::SetVolume(volume)));
            let reached = state_after(set, events);
            &&& reached.volume == volume
            &&& reached.command() matches Command::Write { volume: written, .. } ==> written
                == volume
        }),
    decreases events.len(),
{
    if events.len() > 0 {
        let before = events.drop_last();
        assert forall|i: int| 0 <= i < before.len() implies !is_set_volume(#[trigger] before[i]) by {
            assert(before[i] == events[i]);
        }
        lemma_volume_sticks(state, volume, before);
        assert(!is_set_volume(events[events.len() - 1]));
    }
}

} // verus!
