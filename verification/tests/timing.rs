use media_codec_opus::time::{chunk_timing, TimeBase};

#[test]
fn time_base_needs_positive_parts() {
    assert_eq!(TimeBase::new(1, 48000), Some(TimeBase { num: 1, den: 48000 }));
    assert_eq!(TimeBase::new(i64::MAX, i64::MAX), Some(TimeBase { num: i64::MAX, den: i64::MAX }));
    assert_eq!(TimeBase::new(0, 1), None);
    assert_eq!(TimeBase::new(1, 0), None);
    assert_eq!(TimeBase::new(-1, 1000), None);
    assert_eq!(TimeBase::new(1, -1000), None);
}

#[test]
fn time_base_converts_while_the_products_fit() {
    let millis = TimeBase { num: 1, den: 1000 };
    assert!(millis.converts(960, 48000));
    assert!(millis.converts(u32::MAX, u32::MAX));
    let wide = TimeBase { num: 1, den: i64::MAX };
    assert!(wide.converts(1, 48000));
    assert!(wide.converts(0, 48000));
    assert!(!wide.converts(2, 48000));
    let slow = TimeBase { num: i64::MAX, den: 1 };
    assert!(slow.converts(960, 1));
    assert!(!slow.converts(960, 2));
    let edge = TimeBase { num: 1, den: i64::MAX / 960 };
    assert!(edge.converts(960, 48000));
    let over = TimeBase { num: 1, den: i64::MAX / 960 + 1 };
    assert!(!over.converts(960, 48000));
    assert!(!TimeBase { num: 0, den: 1 }.converts(960, 48000));
    assert!(!TimeBase { num: 1, den: 0 }.converts(960, 48000));
    assert!(!TimeBase { num: -1, den: 1000 }.converts(960, 48000));
    assert!(!TimeBase { num: 1, den: -1000 }.converts(960, 48000));
}

#[test]
fn time_base_per_sample() {
    assert_eq!(TimeBase::per_sample(48000), TimeBase { num: 1, den: 48000 });
    assert_eq!(TimeBase::per_sample(u32::MAX), TimeBase { num: 1, den: u32::MAX as i64 });
}

#[test]
fn duration_without_time_base_counts_samples() {
    assert_eq!(chunk_timing(960, 48000, None), (960, TimeBase { num: 1, den: 48000 }));
    assert_eq!(chunk_timing(320, 16000, None), (320, TimeBase { num: 1, den: 16000 }));
    assert_eq!(chunk_timing(0, 8000, None), (0, TimeBase { num: 1, den: 8000 }));
}

#[test]
fn duration_is_converted_into_the_given_time_base() {
    let millis = TimeBase { num: 1, den: 1000 };
    assert_eq!(chunk_timing(960, 48000, Some(millis)), (20, millis));
    let video = TimeBase { num: 1, den: 90000 };
    assert_eq!(chunk_timing(960, 48000, Some(video)), (1800, video));
    let micros = TimeBase { num: 1, den: 1_000_000 };
    assert_eq!(chunk_timing(120, 48000, Some(micros)), (2500, micros));
    let same = TimeBase { num: 1, den: 48000 };
    assert_eq!(chunk_timing(960, 48000, Some(same)), (960, same));
}

#[test]
fn duration_rounds_towards_zero() {
    let millis = TimeBase { num: 1, den: 1000 };
    assert_eq!(chunk_timing(441, 44100, Some(millis)), (10, millis));
    assert_eq!(chunk_timing(100, 44100, Some(millis)), (2, millis));
    let coarse = TimeBase { num: 1, den: 10 };
    assert_eq!(chunk_timing(960, 48000, Some(coarse)), (0, coarse));
    let unreduced = TimeBase { num: 2, den: 2000 };
    assert_eq!(chunk_timing(960, 48000, Some(unreduced)), (20, unreduced));
    let ntsc = TimeBase { num: 1001, den: 30000 };
    assert_eq!(chunk_timing(48000, 48000, Some(ntsc)), (29, ntsc));
}

#[test]
fn duration_at_the_limits() {
    let largest = TimeBase { num: 1, den: 0x7fff_ffff };
    assert_eq!(
        chunk_timing(u32::MAX, 1, Some(largest)),
        (u32::MAX as i64 * 0x7fff_ffff, largest)
    );
    let slowest = TimeBase { num: 0x7fff_ffff, den: 1 };
    assert_eq!(chunk_timing(u32::MAX, u32::MAX, Some(slowest)), (0, slowest));
    assert_eq!(chunk_timing(0, 48000, Some(largest)), (0, largest));
    let edge = TimeBase { num: 1, den: i64::MAX / 960 };
    assert_eq!(chunk_timing(960, 48000, Some(edge)), (i64::MAX / 960 * 960 / 48000, edge));
    let heavy = TimeBase { num: i64::MAX / 48000, den: 3 };
    assert_eq!(chunk_timing(960, 48000, Some(heavy)), (0, heavy));
    let both = TimeBase { num: 3_000_000_000, den: 9_000_000_000 };
    assert_eq!(chunk_timing(960, 48000, Some(both)), (0, both));
    let fine = TimeBase { num: 3_000_000_000, den: 9_000_000_000_000_000 };
    assert_eq!(chunk_timing(960, 48000, Some(fine)), (60_000, fine));
}
