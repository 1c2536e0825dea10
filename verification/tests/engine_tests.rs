use audio_core::components::{FlatToneSynth, TableSequencer, TableStream};
use audio_core::engine::{PlaybackEngine, PlaybackState};
use audio_core::manager::PlaybackMessage;

type Engine = PlaybackEngine<TableSequencer, TableStream, FlatToneSynth>;
type Msg = PlaybackMessage<Vec<u16>, Vec<u16>>;

/// An interleaved stereo table whose samples encode their own position, so
/// produced audio reveals where playback stands.
fn marked_table() -> Vec<u16> {
    (0..64u16).map(|i| 0x8000 + i).collect()
}

fn quiet_engine() -> Engine {
    PlaybackEngine::new(TableSequencer::new(), TableStream::new(), FlatToneSynth::new(0x8010), 1000)
}

#[test]
fn stopped_engine_renders_mid_scale_silence() {
    let mut e = quiet_engine();
    assert!(matches!(e.playback_state(), PlaybackState::Stopped));
    let mut out = vec![0u16; 40];
    e.render(&mut out, 2);
    assert!(out.iter().all(|&s| s == 0x8000));
    let mut mono = vec![0u16; 7];
    e.render(&mut mono, 1);
    assert!(mono.iter().all(|&s| s == 0x8000));
}

#[test]
fn stop_command_keeps_silence_for_any_duration() {
    let mut e = quiet_engine();
    e.handle_message(Msg::Stop);
    assert!(matches!(e.playback_state(), PlaybackState::Stopped));
    for _ in 0..5 {
        let mut out = vec![1u16; 26];
        e.render(&mut out, 2);
        assert!(out.iter().all(|&s| s == 0x8000));
    }
}

#[test]
fn sequenced_start_splits_byte_lanes() {
    let mut e = quiet_engine();
    e.handle_message(Msg::PlayOrganyaSong(vec![0x9192; 8]));
    assert!(matches!(e.playback_state(), PlaybackState::PlayingOrg));
    let mut out = vec![0u16; 4];
    e.render(&mut out, 2);
    assert_eq!(out, vec![0x9200, 0x9100, 0x9200, 0x9100]);
}

#[test]
fn streamed_start_plays_from_the_beginning() {
    let mut e = quiet_engine();
    e.handle_message(Msg::PlayOggSongSinglePart(marked_table()));
    assert!(matches!(e.playback_state(), PlaybackState::PlayingOgg));
    let mut out = vec![0u16; 4];
    e.render(&mut out, 2);
    assert_eq!(out, vec![0x8000, 0x8001, 0x8002, 0x8003]);
}

#[test]
fn dual_part_source_plays_intro_then_loop() {
    let mut e = quiet_engine();
    let intro: Vec<u16> = vec![0x8001, 0x8002];
    let loop_part: Vec<u16> = vec![0x8003, 0x8004];
    e.handle_message(Msg::PlayOggSongMultiPart(intro, loop_part));
    let mut out = vec![0u16; 8];
    e.render(&mut out, 2);
    assert_eq!(out, vec![0x8001, 0x8002, 0x8003, 0x8004, 0x8001, 0x8002, 0x8003, 0x8004]);
}

#[test]
fn restore_resumes_at_the_snapshot_point_not_zero() {
    let mut e = quiet_engine();
    e.handle_message(Msg::PlayOggSongSinglePart(marked_table()));
    // The start already rendered one full buffer of twenty entries, so the
    // renderer stands at position twenty; the snapshot captures that.
    e.handle_message(Msg::SaveState);
    e.handle_message(Msg::RestoreState);
    let mut out = vec![0u16; 4];
    e.render(&mut out, 2);
    assert_eq!(out, vec![0x8014, 0x8015, 0x8016, 0x8017]);
}

#[test]
fn restore_onto_stopped_rewinds_to_the_start() {
    let mut e = quiet_engine();
    e.handle_message(Msg::PlayOggSongSinglePart(marked_table()));
    e.handle_message(Msg::SaveState);
    e.handle_message(Msg::Stop);
    assert!(matches!(e.playback_state(), PlaybackState::Stopped));
    e.handle_message(Msg::RestoreState);
    assert!(matches!(e.playback_state(), PlaybackState::PlayingOgg));
    let mut out = vec![0u16; 4];
    e.render(&mut out, 2);
    assert_eq!(out, vec![0x8000, 0x8001, 0x8002, 0x8003]);
}

#[test]
fn stopping_twice_discards_the_stale_snapshot() {
    let mut e = quiet_engine();
    e.handle_message(Msg::PlayOggSongSinglePart(marked_table()));
    e.handle_message(Msg::SaveState);
    e.handle_message(Msg::Stop);
    // A second stop on an already stopped engine clears the snapshot, so a
    // later restore has nothing to resume and stays silent.
    e.handle_message(Msg::Stop);
    e.handle_message(Msg::RestoreState);
    assert!(matches!(e.playback_state(), PlaybackState::Stopped));
}

#[test]
fn set_speed_is_recorded() {
    let mut e = quiet_engine();
    assert_eq!(e.current_speed(), 1000);
    e.handle_message(Msg::SetSpeed(2000));
    assert_eq!(e.current_speed(), 2000);
    assert!(matches!(e.playback_state(), PlaybackState::Stopped));
}

#[test]
fn active_effects_are_mixed_over_silence() {
    let mut e = PlaybackEngine::new(
        TableSequencer::new(),
        TableStream::new(),
        FlatToneSynth::sounding(0x8010),
        1000,
    );
    let mut out = vec![0u16; 6];
    e.render(&mut out, 2);
    assert!(out.iter().all(|&s| s == 0x8010));
}

#[test]
fn music_and_effects_mix_together() {
    let mut e = PlaybackEngine::new(
        TableSequencer::new(),
        TableStream::new(),
        FlatToneSynth::sounding(0x8010),
        1000,
    );
    e.handle_message(Msg::PlayOggSongSinglePart(marked_table()));
    let mut out = vec![0u16; 4];
    e.render(&mut out, 2);
    assert_eq!(out, vec![0x8010, 0x8011, 0x8012, 0x8013]);
}

#[test]
fn mono_output_averages_the_music_channels() {
    let mut e = quiet_engine();
    e.handle_message(Msg::PlayOggSongSinglePart(vec![0x9000, 0x8000]));
    let mut out = vec![0u16; 2];
    e.render(&mut out, 1);
    assert_eq!(out, vec![0x8800, 0x8800]);
}

#[test]
fn effect_trigger_reaches_the_synthesizer() {
    let mut e = quiet_engine();
    e.handle_message(Msg::PlaySample(3));
    // The effect buffer refreshes once its cycle wraps; the cycle spans ten
    // frames at this rate.
    let mut out = vec![0u16; 40];
    e.render(&mut out, 2);
    assert!(out[..20].iter().all(|&s| s == 0x8000));
    assert!(out[20..].iter().all(|&s| s == 0x8010));
}
