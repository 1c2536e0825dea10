use audio_core::songs::{
    first_existing, join_path, ordered_prefixes, song_candidates, SongFormat,
};

#[test]
fn join_path_concatenates() {
    let p = join_path(&String::from("/base/"), &String::from("curly"), ".org");
    assert_eq!(p, "/base/curly.org");
}

#[test]
fn prefixes_put_override_first_then_soundtrack_then_fallbacks() {
    let fallbacks = vec![String::from("/org/"), String::from("/builtin/org/")];
    let with_override = ordered_prefixes(
        &fallbacks,
        &String::from("Remastered"),
        &Some(String::from("/base/Remastered/")),
    );
    assert_eq!(
        with_override,
        vec![
            String::from("/base/Remastered/"),
            String::from("/Soundtracks/Remastered/"),
            String::from("/org/"),
            String::from("/builtin/org/"),
        ]
    );
    let without_override = ordered_prefixes(&fallbacks, &String::from("Organya"), &None);
    assert_eq!(
        without_override,
        vec![
            String::from("/Soundtracks/Organya/"),
            String::from("/org/"),
            String::from("/builtin/org/"),
        ]
    );
}

#[test]
fn candidates_prefer_dual_then_single_then_sequenced() {
    let prefixes = vec![String::from("/a/"), String::from("/b/")];
    let cands = song_candidates(&String::from("moonsong"), &prefixes);
    assert_eq!(cands.len(), 6);
    assert!(matches!(cands[0].format, SongFormat::OggMultiPart));
    assert_eq!(
        cands[0].paths,
        vec![String::from("/a/moonsong_intro.ogg"), String::from("/a/moonsong_loop.ogg")]
    );
    assert!(matches!(cands[1].format, SongFormat::OggSinglePart));
    assert_eq!(cands[1].paths, vec![String::from("/a/moonsong.ogg")]);
    assert!(matches!(cands[2].format, SongFormat::Organya));
    assert_eq!(cands[2].paths, vec![String::from("/a/moonsong.org")]);
    assert!(matches!(cands[3].format, SongFormat::OggMultiPart));
    assert_eq!(
        cands[3].paths,
        vec![String::from("/b/moonsong_intro.ogg"), String::from("/b/moonsong_loop.ogg")]
    );
    assert!(matches!(cands[4].format, SongFormat::OggSinglePart));
    assert!(matches!(cands[5].format, SongFormat::Organya));
}

fn existence(cands: &Vec<audio_core::songs::SongCandidate>, existing: &[String]) -> Vec<bool> {
    cands.iter().map(|c| c.paths.iter().all(|p| existing.contains(p))).collect()
}

#[test]
fn resolution_picks_dual_part_when_both_streamed_forms_exist() {
    // A prefix under which the dual-part pair, the single-part file and the
    // sequenced score all exist: the selection picks the dual pair first.
    let prefixes = vec![String::from("/songs/")];
    let existing = vec![
        String::from("/songs/theme_intro.ogg"),
        String::from("/songs/theme_loop.ogg"),
        String::from("/songs/theme.ogg"),
        String::from("/songs/theme.org"),
    ];
    let cands = song_candidates(&String::from("theme"), &prefixes);
    let winner = first_existing(&cands, &existence(&cands, &existing), 0).expect("exists");
    assert!(matches!(cands[winner].format, SongFormat::OggMultiPart));

    // Without the dual pair the single-part file wins over the score.
    let existing_single = vec![String::from("/songs/theme.ogg"), String::from("/songs/theme.org")];
    let single = first_existing(&cands, &existence(&cands, &existing_single), 0).expect("exists");
    assert!(matches!(cands[single].format, SongFormat::OggSinglePart));

    // A later probe start, as after a failed decode, moves to the score.
    let after_retry = first_existing(&cands, &existence(&cands, &existing_single), single + 1)
        .expect("exists");
    assert!(matches!(cands[after_retry].format, SongFormat::Organya));
}

#[test]
fn first_existing_skips_missing_candidates_and_reports_exhaustion() {
    let prefixes = vec![String::from("/a/"), String::from("/b/")];
    let cands = song_candidates(&String::from("tune"), &prefixes);
    // Only the sequenced score under the first prefix and the single-part
    // file under the second exist.
    let existing = vec![String::from("/a/tune.org"), String::from("/b/tune.ogg")];
    let flags = existence(&cands, &existing);
    let first = first_existing(&cands, &flags, 0).expect("exists");
    assert_eq!(first, 2);
    assert!(matches!(cands[first].format, SongFormat::Organya));
    let second = first_existing(&cands, &flags, first + 1).expect("exists");
    assert_eq!(second, 4);
    assert!(matches!(cands[second].format, SongFormat::OggSinglePart));
    assert!(first_existing(&cands, &flags, second + 1).is_none());
    assert!(first_existing(&cands, &existence(&cands, &[]), 0).is_none());
}
