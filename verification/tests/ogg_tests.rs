use audio_core::manager::{LoadedSong, SoundError};
use audio_core::ogg::{bias_frames, load_candidate, load_ogg_multi, OggStream};
use audio_core::songs::SongFormat;

#[test]
fn garbage_bytes_are_rejected_with_a_resource_error() {
    let r = OggStream::open(vec![0u8, 1, 2, 3]);
    assert!(matches!(r, Err(SoundError::ResourceLoadError(_))));
    let empty = OggStream::open(Vec::new());
    assert!(matches!(empty, Err(SoundError::ResourceLoadError(_))));
}

#[test]
fn dual_part_open_fails_when_either_part_is_garbage() {
    let r = load_ogg_multi(vec![0u8; 16], vec![0u8; 16]);
    assert!(matches!(r, Err(SoundError::ResourceLoadError(_))));
}

#[test]
fn load_candidate_hands_a_score_through_and_rejects_garbage_streams() {
    let score = load_candidate(SongFormat::Organya, vec![vec![9u8, 8, 7]]);
    assert!(matches!(score, Ok(LoadedSong::Organya(b)) if b == vec![9u8, 8, 7]));
    let single = load_candidate(SongFormat::OggSinglePart, vec![vec![0u8; 8]]);
    assert!(matches!(single, Err(SoundError::ResourceLoadError(_))));
    let multi = load_candidate(SongFormat::OggMultiPart, vec![vec![0u8; 8], vec![1u8; 8]]);
    assert!(matches!(multi, Err(SoundError::ResourceLoadError(_))));
}

#[test]
fn bias_frames_recenters_to_mid_scale() {
    let biased = bias_frames(&vec![-32768i16, -1, 0, 1, 32767]);
    assert_eq!(biased, vec![0x0000, 0x7FFF, 0x8000, 0x8001, 0xFFFF]);
}
