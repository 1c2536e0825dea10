use audio_core::components::{FlatToneSynth, TableSequencer, TableStream};
use audio_core::engine::{PlaybackEngine, PlaybackState};
use audio_core::manager::{LoadedSong, PlaybackMessage, SoundManager};
use audio_core::ogg::load_candidate;
use audio_core::songs::{first_existing, ordered_prefixes, song_candidates};

type Msg = PlaybackMessage<Vec<u16>, Vec<u16>>;

/// A sequenced score whose low byte lane encodes the render position, so
/// the produced left channel reveals where playback stands.
fn marked_score() -> Vec<u16> {
    (0..128u16).map(|i| 0x8000 | (i & 0x7f)).collect()
}

/// The resolution loop a host runs: the library picks the first existing
/// candidate and loads it; on a load failure the probe resumes after it.
/// This test's "filesystem" hands back marker bytes for every path, so a
/// streamed candidate never decodes and only a sequenced one can win; its
/// score bytes stand in for the external score synthesizer's input, which
/// the test renders as a position-marked table.
fn resolve(
    song_id: usize,
    music_table: &[&str],
    prefixes: &Vec<String>,
    existing: &[&str],
) -> Option<LoadedSong<Vec<u16>, Vec<u16>>> {
    let name = music_table.get(song_id)?;
    let candidates = song_candidates(&String::from(*name), prefixes);
    let exists: Vec<bool> = candidates
        .iter()
        .map(|c| c.paths.iter().all(|p| existing.contains(&p.as_str())))
        .collect();
    let mut from = 0;
    while let Some(i) = first_existing(&candidates, &exists, from) {
        from = i + 1;
        let files: Vec<Vec<u8>> = candidates[i].paths.iter().map(|_| vec![0u8; 4]).collect();
        match load_candidate(candidates[i].format, files) {
            Ok(LoadedSong::Organya(_score)) => {
                return Some(LoadedSong::Organya(marked_score()));
            },
            Ok(_) => unreachable!(),
            Err(_) => {},
        }
    }
    None
}

#[test]
fn song_request_resolution_playback_and_restore() {
    let music_table = ["nothing", "one", "two", "three", "four", "five"];
    let prefixes = ordered_prefixes(
        &vec![String::from("/org/")],
        &String::from("Organya"),
        &None,
    );
    let existing = ["/org/five.org"];

    let mut manager = SoundManager::new();
    let mut engine: PlaybackEngine<TableSequencer, TableStream, FlatToneSynth> =
        PlaybackEngine::new(
            TableSequencer::new(),
            TableStream::new(),
            FlatToneSynth::new(0x8010),
            1000,
        );

    // Request id 5: only the sequenced file exists under the fallback
    // prefix, so the sequenced renderer starts.
    let loaded = resolve(5, &music_table, &prefixes, &existing);
    assert!(loaded.is_some());
    let msgs: Vec<Msg> = manager.play_song(5, loaded);
    assert_eq!(manager.current_song(), 5);
    assert_eq!(msgs.len(), 2);
    for m in msgs {
        engine.handle_message(m);
    }
    assert!(matches!(engine.playback_state(), PlaybackState::PlayingOrg));

    // Requesting the same id again changes nothing and issues no commands.
    let again: Vec<Msg> = manager.play_song(5, resolve(5, &music_table, &prefixes, &existing));
    assert!(again.is_empty());
    assert_eq!(manager.current_song(), 5);

    // Requesting id 0 snapshots the sequenced playback and silences output.
    let stop_msgs: Vec<Msg> = manager.play_song(0, None);
    assert_eq!(manager.current_song(), 0);
    for m in stop_msgs {
        engine.handle_message(m);
    }
    assert!(matches!(engine.playback_state(), PlaybackState::Stopped));
    let mut out = vec![0u16; 8];
    engine.render(&mut out, 2);
    assert!(out.iter().all(|&s| s == 0x8000));

    // Restoring brings the saved sequenced playback back; because the
    // engine was stopped, it restarts from the score's beginning.
    let restore: Msg = manager.restore_state();
    assert_eq!(manager.current_song(), 5);
    engine.handle_message(restore);
    assert!(matches!(engine.playback_state(), PlaybackState::PlayingOrg));
    let mut resumed = vec![0u16; 4];
    engine.render(&mut resumed, 2);
    // The left channel carries the position byte in its high half: the
    // score restarted at zero (the first lane saturates at the mix floor).
    assert_eq!(resumed, vec![0x0001, 0x8000, 0x0100, 0x8000]);
}

#[test]
fn absent_candidates_leave_the_current_song_unchanged() {
    let music_table = ["nothing", "one", "two"];
    let prefixes = ordered_prefixes(
        &vec![String::from("/org/")],
        &String::from("Organya"),
        &None,
    );
    let mut manager = SoundManager::new();
    let loaded = resolve(1, &music_table, &prefixes, &["/org/two.org"]);
    assert!(loaded.is_none());
    let msgs: Vec<Msg> = manager.play_song(2, resolve(2, &music_table, &prefixes, &[]));
    assert!(msgs.is_empty());
    assert_eq!(manager.current_song(), 0);
}
