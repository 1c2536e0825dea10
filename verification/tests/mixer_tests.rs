use audio_core::mixer::{mix_mono_sample, mix_sample, org_frame};

#[test]
fn mixing_silence_gives_silence() {
    assert_eq!(mix_sample(0x8000, 0x8000), 0x8000);
    assert_eq!(mix_mono_sample(0x8000, 0x8000, 0x8000), 0x8000);
}

#[test]
fn mixing_adds_centered_contributions() {
    // +0x1200 music, silent effects.
    assert_eq!(mix_sample(0x9200, 0x8000), 0x9200);
    // +0x0100 music, +0x0010 effects.
    assert_eq!(mix_sample(0x8100, 0x8010), 0x8110);
    // -0x0100 music, +0x0040 effects.
    assert_eq!(mix_sample(0x7F00, 0x8040), 0x7F40);
}

#[test]
fn mixing_saturates_at_the_signed_range() {
    assert_eq!(mix_sample(0xFFFF, 0xFFFF), 0xFFFF);
    assert_eq!(mix_sample(0x0000, 0x0000), 0x0001);
    assert_eq!(mix_sample(0xFFFF, 0x8001), 0xFFFF);
}

#[test]
fn mono_averages_the_channels_before_mixing() {
    // Channels at +0x1000 and 0: average +0x0800.
    assert_eq!(mix_mono_sample(0x9000, 0x8000, 0x8000), 0x8800);
    // Odd sums truncate toward zero, matching machine division.
    assert_eq!(mix_mono_sample(0x8003, 0x8000, 0x8000), 0x8001);
    assert_eq!(mix_mono_sample(0x7FFD, 0x8000, 0x8000), 0x7FFF);
}

#[test]
fn org_frame_splits_the_byte_lanes() {
    assert_eq!(org_frame(0x9192), (0x9200, 0x9100));
    assert_eq!(org_frame(0x8080), (0x8000, 0x8000));
    assert_eq!(org_frame(0x00FF), (0xFF00, 0x0000));
}
