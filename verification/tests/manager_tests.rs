use audio_core::manager::{LoadedSong, PlaybackMessage, SoundError, SoundManager};

type Msg = PlaybackMessage<Vec<u8>, u8>;

#[test]
fn new_manager_is_silent() {
    let m = SoundManager::new();
    assert_eq!(m.current_song(), 0);
}

#[test]
fn play_sfx_makes_a_sample_message() {
    let m = SoundManager::new();
    let msg: Msg = m.play_sfx(42);
    assert!(matches!(msg, PlaybackMessage::PlaySample(42)));
}

#[test]
fn set_speed_rejects_zero_and_keeps_rate_unchanged() {
    let m = SoundManager::new();
    let r: Result<Msg, SoundError> = m.set_speed(0);
    assert!(matches!(r, Err(SoundError::InvalidValue)));
    let ok: Result<Msg, SoundError> = m.set_speed(1500);
    assert!(matches!(ok, Ok(PlaybackMessage::SetSpeed(1500))));
}

#[test]
fn requesting_the_playing_song_is_a_no_op() {
    let mut m = SoundManager::new();
    let msgs: Vec<Msg> = m.play_song(7, Some(LoadedSong::Organya(vec![1u8])));
    assert_eq!(msgs.len(), 2);
    assert_eq!(m.current_song(), 7);
    let again: Vec<Msg> = m.play_song(7, Some(LoadedSong::Organya(vec![1u8])));
    assert!(again.is_empty());
    assert_eq!(m.current_song(), 7);
}

#[test]
fn requesting_song_zero_saves_then_stops() {
    let mut m = SoundManager::new();
    let _: Vec<Msg> = m.play_song(3, Some(LoadedSong::OggSingle(9)));
    let msgs: Vec<Msg> = m.play_song(0, None);
    assert_eq!(m.current_song(), 0);
    assert_eq!(msgs.len(), 2);
    assert!(matches!(msgs[0], PlaybackMessage::SaveState));
    assert!(matches!(msgs[1], PlaybackMessage::Stop));
}

#[test]
fn unresolved_song_leaves_everything_unchanged() {
    let mut m = SoundManager::new();
    let _: Vec<Msg> = m.play_song(3, Some(LoadedSong::Organya(vec![])));
    assert_eq!(m.current_song(), 3);
    let msgs: Vec<Msg> = m.play_song(8, None);
    assert!(msgs.is_empty());
    assert_eq!(m.current_song(), 3);
}

#[test]
fn resolved_song_saves_then_starts_matching_renderer() {
    let mut m = SoundManager::new();
    let single: Vec<Msg> = m.play_song(2, Some(LoadedSong::OggSingle(5)));
    assert!(matches!(single[0], PlaybackMessage::SaveState));
    assert!(matches!(single[1], PlaybackMessage::PlayOggSongSinglePart(5)));
    let multi: Vec<Msg> = m.play_song(4, Some(LoadedSong::OggMulti(6, 7)));
    assert!(matches!(multi[0], PlaybackMessage::SaveState));
    assert!(matches!(multi[1], PlaybackMessage::PlayOggSongMultiPart(6, 7)));
    let org: Vec<Msg> = m.play_song(5, Some(LoadedSong::Organya(vec![2u8, 3u8])));
    assert!(matches!(org[0], PlaybackMessage::SaveState));
    assert!(matches!(&org[1], PlaybackMessage::PlayOrganyaSong(b) if b == &vec![2u8, 3u8]));
    assert_eq!(m.current_song(), 5);
}

#[test]
fn save_and_restore_mirror_song_ids() {
    let mut m = SoundManager::new();
    let _: Vec<Msg> = m.play_song(6, Some(LoadedSong::Organya(vec![])));
    let saved: Msg = m.save_state();
    assert!(matches!(saved, PlaybackMessage::SaveState));
    assert_eq!(m.current_song(), 6);
    let _: Vec<Msg> = m.play_song(0, None);
    assert_eq!(m.current_song(), 0);
    let restored: Msg = m.restore_state();
    assert!(matches!(restored, PlaybackMessage::RestoreState));
    assert_eq!(m.current_song(), 6);
}
