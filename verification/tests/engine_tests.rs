use std::path::PathBuf;

use implayer::engine::{Command, DecodeFault, Effect, Engine, EngineError, Event};
use implayer::protocol::{OutputHint, PlayerAction, Volume};
use implayer::time::{NativeTime, TimeBase};

fn volume(value: f32) -> Volume {
    Volume::from_bits(value.to_bits())
}

fn hint() -> OutputHint {
    OutputHint { sample_rate: 44_100, channels: 3, buffer_frames: 1152 }
}

fn cd_ticks() -> TimeBase {
    TimeBase::new(1, 44_100).unwrap()
}

fn step(engine: &mut Engine, event: Event) -> Effect {
    assert!(engine.admits(&event));
    engine.step(event)
}

fn loaded_with(base: TimeBase) -> Engine {
    let mut engine = Engine::new(volume(0.75));
    step(&mut engine, Event::Action(PlayerAction::Play(PathBuf::from("a.mp3"))));
    step(&mut engine, Event::Opened(base));
    engine
}

/// An engine that has loaded `a.mp3` and is about to decode its first packet.
fn playing_engine() -> Engine {
    let mut engine = Engine::new(volume(0.75));
    step(&mut engine, Event::Action(PlayerAction::Play(PathBuf::from("a.mp3"))));
    step(&mut engine, Event::Opened(cd_ticks()));
    engine
}

/// Polls without finding an action where the engine asks for that, then
/// decodes and writes one packet. Leaves the engine at the intake.
fn play_packet(engine: &mut Engine, ts: u64) -> Effect {
    if engine.command() == Command::Poll {
        assert_eq!(step(engine, Event::NoAction), Effect::Nothing);
    }
    assert_eq!(engine.command(), Command::Decode);
    let effect = step(engine, Event::Decoded { ts, hint: hint() });
    assert!(matches!(engine.command(), Command::Write { .. }));
    assert_eq!(step(engine, Event::Written), Effect::Nothing);
    assert_eq!(engine.command(), Command::Poll);
    effect
}

#[test]
fn new_engine_is_idle_and_waits() {
    let engine = Engine::new(volume(0.75));
    assert!(!engine.has_session());
    assert!(!engine.is_playing());
    assert_eq!(engine.position(), 0);
    assert_eq!(engine.volume(), volume(0.75));
    assert_eq!(engine.command(), Command::Wait);
}

#[test]
fn play_opens_the_track_and_starts_decoding() {
    let path = PathBuf::from("a.mp3");
    let mut engine = Engine::new(volume(0.75));
    let effect = step(&mut engine, Event::Action(PlayerAction::Play(path.clone())));
    assert_eq!(effect, Effect::Nothing);
    assert_eq!(engine.command(), Command::Open(&path));
    assert!(!engine.has_session());
    assert!(!engine.is_playing());

    let effect = step(&mut engine, Event::Opened(cd_ticks()));
    assert_eq!(effect, Effect::Nothing);
    assert!(engine.has_session());
    assert!(engine.is_playing());
    assert_eq!(engine.command(), Command::Decode);
}

#[test]
fn play_while_loaded_discards_the_old_session_first() {
    let mut engine = playing_engine();
    play_packet(&mut engine, 0);
    let next = PathBuf::from("b.flac");
    let effect = step(&mut engine, Event::Action(PlayerAction::Play(next.clone())));
    assert_eq!(effect, Effect::Discard);
    assert!(!engine.has_session());
    assert_eq!(engine.command(), Command::Open(&next));
}

#[test]
fn open_failure_is_reported_and_leaves_the_engine_idle() {
    let mut engine = Engine::new(volume(0.75));
    step(&mut engine, Event::Action(PlayerAction::Play(PathBuf::from("missing.mp3"))));
    let effect = step(&mut engine, Event::OpenFailed);
    assert_eq!(effect, Effect::Report(EngineError::OpenFailed));
    assert!(!engine.has_session());
    assert!(!engine.is_playing());
    assert_eq!(engine.command(), Command::Wait);
}

#[test]
fn open_failure_after_a_loaded_track_leaves_nothing_loaded() {
    let mut engine = playing_engine();
    play_packet(&mut engine, 44_100);
    step(&mut engine, Event::Action(PlayerAction::Play(PathBuf::from("missing.mp3"))));
    let effect = step(&mut engine, Event::OpenFailed);
    assert_eq!(effect, Effect::Report(EngineError::OpenFailed));
    assert!(!engine.has_session());
    assert_eq!(engine.position(), 1000);
    assert_eq!(engine.command(), Command::Wait);
}

#[test]
fn first_buffer_opens_the_sink_and_later_ones_do_not() {
    let mut engine = playing_engine();
    step(&mut engine, Event::Decoded { ts: 0, hint: hint() });
    assert_eq!(engine.command(), Command::Write { open: Some(hint()), volume: volume(0.75) });
    step(&mut engine, Event::Written);
    step(&mut engine, Event::NoAction);
    let other = OutputHint { sample_rate: 48_000, channels: 1, buffer_frames: 960 };
    step(&mut engine, Event::Decoded { ts: 1152, hint: other });
    assert_eq!(engine.command(), Command::Write { open: None, volume: volume(0.75) });
}

#[test]
fn track_that_ends_before_its_first_buffer_never_opens_the_sink() {
    let mut engine = playing_engine();
    assert_eq!(step(&mut engine, Event::DecodeFailed(DecodeFault::Malformed)), Effect::LogSkipped);
    assert_eq!(step(&mut engine, Event::NoAction), Effect::Nothing);
    assert_eq!(step(&mut engine, Event::EndOfStream), Effect::Finish);
    assert_eq!(engine.command(), Command::Wait);
}

#[test]
fn new_session_opens_its_own_sink() {
    let mut engine = playing_engine();
    play_packet(&mut engine, 0);
    step(&mut engine, Event::Action(PlayerAction::Play(PathBuf::from("b.flac"))));
    step(&mut engine, Event::Opened(TimeBase::new(1, 48_000).unwrap()));
    step(&mut engine, Event::Decoded { ts: 0, hint: hint() });
    assert_eq!(engine.command(), Command::Write { open: Some(hint()), volume: volume(0.75) });
}

#[test]
fn position_is_the_packet_timestamp_in_milliseconds() {
    let mut engine = playing_engine();
    assert_eq!(play_packet(&mut engine, 44_100), Effect::Publish(1000));
    assert_eq!(engine.position(), 1000);
    assert_eq!(play_packet(&mut engine, 66_150), Effect::Publish(1500));
    assert_eq!(engine.position(), 1500);
    assert_eq!(play_packet(&mut engine, 66_172), Effect::Publish(1500));
    assert_eq!(play_packet(&mut engine, 66_173), Effect::Publish(1501));
    assert_eq!(engine.position(), 1501);
}

#[test]
fn malformed_packet_is_skipped_and_the_session_survives() {
    let mut engine = playing_engine();
    play_packet(&mut engine, 44_100);
    step(&mut engine, Event::NoAction);
    assert_eq!(engine.command(), Command::Decode);
    assert_eq!(step(&mut engine, Event::DecodeFailed(DecodeFault::Malformed)), Effect::LogSkipped);
    assert!(engine.has_session());
    assert!(engine.is_playing());
    assert_eq!(engine.position(), 1000);
    assert_eq!(engine.command(), Command::Poll);
    assert_eq!(play_packet(&mut engine, 88_200), Effect::Publish(2000));
}

#[test]
fn decoder_failure_unloads_and_completes() {
    let faults = [
        DecodeFault::Io,
        DecodeFault::Seek,
        DecodeFault::Unsupported,
        DecodeFault::Limit,
        DecodeFault::ResetRequired,
    ];
    for fault in faults {
        assert!(!fault.is_recoverable());
        let mut engine = playing_engine();
        play_packet(&mut engine, 44_100);
        step(&mut engine, Event::NoAction);
        assert_eq!(step(&mut engine, Event::DecodeFailed(fault)), Effect::Finish);
        assert!(!engine.has_session());
        assert!(!engine.is_playing());
        assert_eq!(engine.position(), 1000);
        assert_eq!(engine.command(), Command::Wait);
    }
    assert!(DecodeFault::Malformed.is_recoverable());
}

#[test]
fn sink_failure_unloads_and_completes() {
    let mut engine = playing_engine();
    step(&mut engine, Event::Decoded { ts: 44_100, hint: hint() });
    assert_eq!(step(&mut engine, Event::WriteFailed), Effect::Finish);
    assert!(!engine.has_session());
    assert!(!engine.is_playing());
    assert_eq!(engine.command(), Command::Wait);
}

#[test]
fn end_of_stream_completes_exactly_once() {
    let mut engine = playing_engine();
    play_packet(&mut engine, 0);
    let mut completions = 0;
    let events = vec![
        Event::NoAction,
        Event::EndOfStream,
        Event::EndOfStream,
        Event::NoAction,
        Event::DecodeFailed(DecodeFault::Io),
        Event::WriteFailed,
        Event::Action(PlayerAction::Stop),
        Event::Action(PlayerAction::Resume),
        Event::EndOfStream,
    ];
    for event in events {
        if step(&mut engine, event) == Effect::Finish {
            completions += 1;
        }
    }
    assert_eq!(completions, 1);
    assert!(!engine.has_session());
}

#[test]
fn stop_unloads_without_completion() {
    let mut engine = playing_engine();
    play_packet(&mut engine, 0);
    assert_eq!(step(&mut engine, Event::Action(PlayerAction::Stop)), Effect::Discard);
    assert!(!engine.has_session());
    assert!(!engine.is_playing());
    assert_eq!(engine.command(), Command::Wait);
    assert_eq!(step(&mut engine, Event::Action(PlayerAction::Stop)), Effect::Nothing);
}

#[test]
fn stop_while_paused_unloads_without_completion() {
    let mut engine = playing_engine();
    play_packet(&mut engine, 0);
    step(&mut engine, Event::Action(PlayerAction::Pause));
    assert_eq!(step(&mut engine, Event::Action(PlayerAction::Stop)), Effect::Discard);
    assert!(!engine.has_session());
    assert_eq!(engine.command(), Command::Wait);
}

#[test]
fn actions_other_than_play_leave_an_idle_engine_idle() {
    let mut engine = playing_engine();
    play_packet(&mut engine, 132_300);
    step(&mut engine, Event::Action(PlayerAction::Stop));
    assert_eq!(engine.position(), 3000);
    let actions = vec![
        PlayerAction::Pause,
        PlayerAction::Resume,
        PlayerAction::Seek(10_000),
        PlayerAction::Stop,
        PlayerAction::SetVolume(volume(0.5)),
        PlayerAction::Resume,
        PlayerAction::Seek(0),
        PlayerAction::Pause,
    ];
    for action in actions {
        assert_eq!(engine.command(), Command::Wait);
        assert_eq!(step(&mut engine, Event::Action(action)), Effect::Nothing);
        assert!(!engine.has_session());
        assert!(!engine.is_playing());
        assert_eq!(engine.position(), 3000);
    }
    assert_eq!(engine.volume(), volume(0.5));
}

#[test]
fn answers_to_commands_that_were_not_given_change_nothing() {
    let mut engine = Engine::new(volume(0.75));
    let events = vec![
        Event::Opened(cd_ticks()),
        Event::OpenFailed,
        Event::Decoded { ts: 44_100, hint: hint() },
        Event::DecodeFailed(DecodeFault::Malformed),
        Event::EndOfStream,
        Event::DecodeFailed(DecodeFault::Unsupported),
        Event::Written,
        Event::WriteFailed,
    ];
    for event in events {
        assert_eq!(step(&mut engine, event), Effect::Nothing);
        assert!(!engine.has_session());
        assert_eq!(engine.position(), 0);
        assert_eq!(engine.command(), Command::Wait);
    }
}

#[test]
fn action_that_arrives_out_of_turn_is_not_applied() {
    let mut engine = playing_engine();
    assert_eq!(engine.command(), Command::Decode);
    assert_eq!(step(&mut engine, Event::Action(PlayerAction::Stop)), Effect::Nothing);
    assert!(engine.has_session());
    assert_eq!(engine.command(), Command::Decode);
    step(&mut engine, Event::Decoded { ts: 0, hint: hint() });
    assert_eq!(step(&mut engine, Event::Action(PlayerAction::Pause)), Effect::Nothing);
    assert!(engine.is_playing());
    assert!(matches!(engine.command(), Command::Write { .. }));
}

#[test]
fn pause_waits_and_resume_goes_on_decoding() {
    let mut engine = playing_engine();
    play_packet(&mut engine, 44_100);
    assert_eq!(step(&mut engine, Event::Action(PlayerAction::Pause)), Effect::Nothing);
    assert!(engine.has_session());
    assert!(!engine.is_playing());
    assert_eq!(engine.position(), 1000);
    assert_eq!(engine.command(), Command::Wait);
    assert_eq!(step(&mut engine, Event::Action(PlayerAction::Resume)), Effect::Nothing);
    assert!(engine.is_playing());
    assert_eq!(engine.position(), 1000);
    assert_eq!(engine.command(), Command::Decode);
    step(&mut engine, Event::Decoded { ts: 45_252, hint: hint() });
    assert_eq!(engine.command(), Command::Write { open: None, volume: volume(0.75) });
}

#[test]
fn pause_and_resume_without_a_session_do_nothing() {
    let mut engine = Engine::new(volume(0.75));
    assert_eq!(step(&mut engine, Event::Action(PlayerAction::Pause)), Effect::Nothing);
    assert!(!engine.is_playing());
    assert_eq!(step(&mut engine, Event::Action(PlayerAction::Resume)), Effect::Nothing);
    assert!(!engine.is_playing());
    assert!(!engine.has_session());
    assert_eq!(engine.command(), Command::Wait);
}

#[test]
fn seek_asks_the_reader_for_the_target_before_the_next_packet() {
    let mut engine = playing_engine();
    play_packet(&mut engine, 44_100);
    assert_eq!(engine.command(), Command::Poll);
    let effect = step(&mut engine, Event::Action(PlayerAction::Seek(61_500)));
    assert_eq!(effect, Effect::Seek(NativeTime::new(61, 500, 1000).unwrap()));
    assert_eq!(engine.position(), 1000);
    assert!(engine.is_playing());
    assert_eq!(engine.command(), Command::Decode);
    let effect = step(&mut engine, Event::Decoded { ts: 2_711_808, hint: hint() });
    assert_eq!(effect, Effect::Publish(61_492));
    assert!(61_500 - engine.position() < 27);
}

#[test]
fn seek_while_paused_keeps_the_track_paused() {
    let mut engine = playing_engine();
    play_packet(&mut engine, 0);
    step(&mut engine, Event::Action(PlayerAction::Pause));
    let effect = step(&mut engine, Event::Action(PlayerAction::Seek(2_000)));
    assert_eq!(effect, Effect::Seek(NativeTime::new(2, 0, 1000).unwrap()));
    assert!(engine.has_session());
    assert!(!engine.is_playing());
    assert_eq!(engine.command(), Command::Wait);
}

#[test]
fn seek_without_a_session_does_nothing() {
    let mut engine = Engine::new(volume(0.75));
    assert_eq!(step(&mut engine, Event::Action(PlayerAction::Seek(5_000))), Effect::Nothing);
    assert_eq!(engine.position(), 0);
    assert_eq!(engine.command(), Command::Wait);
}

#[test]
fn volume_applies_to_the_writes_that_follow() {
    let mut engine = playing_engine();
    step(&mut engine, Event::Decoded { ts: 0, hint: hint() });
    assert_eq!(engine.command(), Command::Write { open: Some(hint()), volume: volume(0.75) });
    step(&mut engine, Event::Written);
    step(&mut engine, Event::Action(PlayerAction::SetVolume(volume(0.0))));
    assert!(engine.is_playing());
    assert!(engine.volume().is_silent());
    for ts in [1152u64, 2304, 3456] {
        assert_eq!(engine.command(), Command::Decode);
        step(&mut engine, Event::Decoded { ts, hint: hint() });
        assert_eq!(engine.command(), Command::Write { open: None, volume: volume(0.0) });
        step(&mut engine, Event::Written);
        step(&mut engine, Event::NoAction);
    }
}

#[test]
fn volume_set_before_play_is_used_by_the_track() {
    let mut engine = Engine::new(volume(0.75));
    step(&mut engine, Event::Action(PlayerAction::SetVolume(volume(0.25))));
    assert_eq!(engine.command(), Command::Wait);
    step(&mut engine, Event::Action(PlayerAction::Play(PathBuf::from("a.mp3"))));
    step(&mut engine, Event::Opened(cd_ticks()));
    step(&mut engine, Event::Decoded { ts: 0, hint: hint() });
    assert_eq!(engine.command(), Command::Write { open: Some(hint()), volume: volume(0.25) });
}

#[test]
fn closed_channel_ends_an_idle_engine() {
    let mut engine = Engine::new(volume(0.75));
    assert_eq!(step(&mut engine, Event::Disconnected), Effect::Nothing);
    assert_eq!(engine.command(), Command::Exit);
    let effect = step(&mut engine, Event::Action(PlayerAction::Play(PathBuf::from("a.mp3"))));
    assert_eq!(effect, Effect::Nothing);
    assert_eq!(engine.command(), Command::Exit);
}

#[test]
fn closed_channel_ends_a_paused_engine_and_discards_its_session() {
    let mut engine = playing_engine();
    play_packet(&mut engine, 0);
    step(&mut engine, Event::Action(PlayerAction::Pause));
    assert_eq!(step(&mut engine, Event::Disconnected), Effect::Discard);
    assert!(!engine.has_session());
    assert_eq!(engine.command(), Command::Exit);
}

#[test]
fn closed_channel_does_not_stop_a_playing_track() {
    let mut engine = playing_engine();
    play_packet(&mut engine, 0);
    assert_eq!(engine.command(), Command::Poll);
    assert_eq!(step(&mut engine, Event::Disconnected), Effect::Nothing);
    assert!(engine.is_playing());
    assert_eq!(engine.command(), Command::Decode);
    assert_eq!(step(&mut engine, Event::EndOfStream), Effect::Finish);
    assert_eq!(engine.command(), Command::Wait);
    assert_eq!(step(&mut engine, Event::Disconnected), Effect::Nothing);
    assert_eq!(engine.command(), Command::Exit);
}

#[test]
fn position_never_falls_while_timestamps_rise() {
    let mut engine = playing_engine();
    let mut last = 0;
    let mut ts = 0u64;
    for turn in 0..200u64 {
        ts += turn * 37 % 2000;
        step(&mut engine, Event::Decoded { ts, hint: hint() });
        assert!(engine.position() >= last);
        last = engine.position();
        step(&mut engine, Event::Written);
        if turn % 7 == 0 {
            step(&mut engine, Event::Action(PlayerAction::SetVolume(volume(0.5))));
        } else {
            step(&mut engine, Event::NoAction);
        }
    }
    assert_eq!(last, TimeBase::position_ms(&cd_ticks(), ts).unwrap());
}

#[test]
fn admits_refuses_a_time_base_with_a_zero() {
    let mut engine = Engine::new(volume(0.75));
    step(&mut engine, Event::Action(PlayerAction::Play(PathBuf::from("a.mp3"))));
    assert!(!engine.admits(&Event::Opened(TimeBase { numer: 0, denom: 44_100 })));
    assert!(!engine.admits(&Event::Opened(TimeBase { numer: 1, denom: 0 })));
    assert!(engine.admits(&Event::Opened(TimeBase { numer: 1, denom: 44_100 })));
}

#[test]
fn admits_takes_anything_that_is_out_of_turn() {
    let mut engine = Engine::new(volume(0.75));
    let broken = TimeBase { numer: 0, denom: 0 };
    assert!(engine.admits(&Event::Opened(broken)));
    assert!(engine.admits(&Event::Decoded { ts: u64::MAX, hint: hint() }));
    assert_eq!(engine.try_step(Event::Opened(broken)), Ok(Effect::Nothing));
    assert!(!engine.has_session());
    assert_eq!(engine.command(), Command::Wait);
}

#[test]
fn silent_minimum_of_the_volume_control() {
    let curved = volume(0.3_f32.powi(4));
    assert_eq!(Volume::of_control(true, curved), volume(0.0));
    assert!(Volume::of_control(true, curved).is_silent());
    assert_eq!(Volume::of_control(false, curved), curved);
    assert!(!Volume::of_control(false, curved).is_silent());
    assert_eq!(Volume::of_control(false, curved).to_bits(), 0.3_f32.powi(4).to_bits());
    assert!(volume(-0.0).is_silent());
    assert!(!volume(1.0).is_silent());
    assert_eq!(volume(1.0).to_bits(), 0x3f80_0000);
}

#[test]
fn admits_refuses_a_position_beyond_64_bits() {
    let mut engine = Engine::new(volume(0.75));
    step(&mut engine, Event::Action(PlayerAction::Play(PathBuf::from("a.mp3"))));
    step(&mut engine, Event::Opened(TimeBase::new(1, 1).unwrap()));
    let limit = u64::MAX / 1000;
    assert!(engine.admits(&Event::Decoded { ts: limit, hint: hint() }));
    assert!(!engine.admits(&Event::Decoded { ts: limit + 1, hint: hint() }));
    assert_eq!(step(&mut engine, Event::Decoded { ts: limit, hint: hint() }), Effect::Publish(limit * 1000));
}

#[test]
fn scenario_three_packets_then_end_of_stream() {
    let path = PathBuf::from("a.mp3");
    let mut engine = Engine::new(volume(0.75));
    let mut completions = 0;
    let mut shared_position = 0;
    let mut packets = vec![0u64, 1152, 2304].into_iter();
    let mut live_session = false;
    let mut actions = vec![PlayerAction::Play(path.clone())].into_iter();
    let mut turns = 0;
    loop {
        turns += 1;
        assert!(turns < 100);
        let event = match engine.command() {
            Command::Wait => match actions.next() {
                Some(action) => Event::Action(action),
                None => break,
            },
            Command::Poll => Event::NoAction,
            Command::Open(asked) => {
                assert_eq!(asked, &path);
                live_session = true;
                Event::Opened(cd_ticks())
            }
            Command::Decode => match packets.next() {
                Some(ts) => Event::Decoded { ts, hint: hint() },
                None => Event::EndOfStream,
            },
            Command::Write { .. } => Event::Written,
            Command::Exit => unreachable!(),
        };
        match step(&mut engine, event) {
            Effect::Publish(ms) => shared_position = ms,
            Effect::Finish => {
                live_session = false;
                completions += 1;
            }
            Effect::Discard => live_session = false,
            _ => {}
        }
    }
    assert!(!engine.has_session());
    assert!(!engine.is_playing());
    assert!(!live_session);
    assert_eq!(completions, 1);
    assert_eq!(shared_position, 52);
    assert_eq!(engine.position(), 52);
    assert_eq!(engine.command(), Command::Wait);
}

#[test]
fn scenario_pause_five_idle_turns_then_resume() {
    let mut engine = Engine::new(volume(0.75));
    let mut next_packet = 0u64;
    let mut decoded = Vec::new();
    let mut script = vec![
        Some(PlayerAction::Play(PathBuf::from("a.mp3"))),
        None,
        None,
        Some(PlayerAction::Pause),
        None,
        None,
        None,
        None,
        None,
        Some(PlayerAction::Resume),
        None,
        None,
        None,
    ]
    .into_iter();
    let mut blocked_turns = 0;
    let mut turns = 0;
    loop {
        turns += 1;
        assert!(turns < 200);
        let event = match engine.command() {
            Command::Wait => match script.next() {
                Some(Some(action)) => Event::Action(action),
                Some(None) => {
                    blocked_turns += 1;
                    assert_eq!(engine.command(), Command::Wait);
                    continue;
                }
                None => break,
            },
            Command::Poll => match script.next() {
                Some(Some(action)) => Event::Action(action),
                Some(None) => Event::NoAction,
                None => break,
            },
            Command::Open(_) => Event::Opened(cd_ticks()),
            Command::Decode => {
                let ts = next_packet * 1152;
                decoded.push(next_packet);
                next_packet += 1;
                Event::Decoded { ts, hint: hint() }
            }
            Command::Write { .. } => Event::Written,
            Command::Exit => unreachable!(),
        };
        let effect = step(&mut engine, event);
        assert!(!matches!(effect, Effect::Seek(_) | Effect::Discard | Effect::Finish));
    }
    assert_eq!(blocked_turns, 5);
    assert_eq!(decoded, vec![0, 1, 2, 3, 4, 5, 6]);
    assert!(engine.is_playing());
    assert_eq!(engine.position(), 157);
}

#[test]
fn try_step_hands_back_what_cannot_be_taken() {
    let mut engine = loaded_with(TimeBase::new(1, 1).unwrap());
    let beyond = u64::MAX / 1000 + 1;
    let result = engine.try_step(Event::Decoded { ts: beyond, hint: hint() });
    assert_eq!(result, Err(Event::Decoded { ts: beyond, hint: hint() }));
    assert_eq!(engine.position(), 0);
    assert_eq!(engine.command(), Command::Decode);
    let result = engine.try_step(Event::Decoded { ts: 12, hint: hint() });
    assert_eq!(result, Ok(Effect::Publish(12_000)));
    assert_eq!(engine.position(), 12_000);

    let mut engine = Engine::new(volume(0.75));
    engine.try_step(Event::Action(PlayerAction::Play(PathBuf::from("a.mp3")))).unwrap();
    let broken = TimeBase { numer: 1, denom: 0 };
    assert_eq!(engine.try_step(Event::Opened(broken)), Err(Event::Opened(broken)));
    assert!(!engine.has_session());
    assert_eq!(engine.try_step(Event::Opened(cd_ticks())), Ok(Effect::Nothing));
    assert!(engine.has_session());
}
