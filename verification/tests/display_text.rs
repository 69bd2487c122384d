use eldenring::display_text::{byte_preview, format_play_time};

#[test]
fn play_time_zero() {
    assert_eq!("0:00:00.000 (0 ms)", format_play_time(0));
}

#[test]
fn play_time_pads_minutes_seconds_and_millis() {
    // 1 h, 2 min, 3 s, 4 ms
    let ms = 3_600_000 + 2 * 60_000 + 3 * 1000 + 4;
    assert_eq!("1:02:03.004 (3723004 ms)", format_play_time(ms));
}

#[test]
fn play_time_hours_are_not_padded_or_wrapped() {
    assert_eq!(
        "1193:02:47.295 (4294967295 ms)",
        format_play_time(u32::MAX)
    );
    assert_eq!("100:00:00.000 (360000000 ms)", format_play_time(360_000_000));
}

#[test]
fn play_time_two_digit_fields() {
    let ms = 59 * 60_000 + 59 * 1000 + 999;
    assert_eq!("0:59:59.999 (3599999 ms)", format_play_time(ms));
}

#[test]
fn byte_preview_whole_buffer() {
    assert_eq!("00 0f a5 ff (4 bytes)", byte_preview(&[0x00, 0x0f, 0xa5, 0xff], 4));
    assert_eq!("de ad (2 bytes)", byte_preview(&[0xde, 0xad], 32));
}

#[test]
fn byte_preview_cut_off_buffer() {
    assert_eq!(
        "01 02 \u{2026} (5 bytes)",
        byte_preview(&[1, 2, 3, 4, 5], 2)
    );
    assert_eq!(" \u{2026} (3 bytes)", byte_preview(&[9, 9, 9], 0));
}

#[test]
fn byte_preview_empty_buffer() {
    assert_eq!(" (0 bytes)", byte_preview(&[], 0));
    assert_eq!(" (0 bytes)", byte_preview(&[], 8));
}

#[test]
fn byte_preview_long_count() {
    let bytes = vec![0xabu8; 1234];
    let text = byte_preview(&bytes, 3);
    assert_eq!("ab ab ab \u{2026} (1234 bytes)", text);
}

#[test]
fn play_time_fields_recombine_into_total() {
    for ms in [0u32, 1, 999, 1000, 59_999, 60_000, 3_599_999, 3_600_000, 86_399_999, 123_456_789, u32::MAX] {
        let text = format_play_time(ms);
        let (clock, total) = text.split_once(" (").unwrap();
        assert_eq!(format!("{ms} ms)"), total);
        let (hms, millis) = clock.split_once('.').unwrap();
        let parts: Vec<u64> = hms.split(':').map(|p| p.parse().unwrap()).collect();
        assert_eq!(3, parts.len());
        assert_eq!(3, millis.len());
        let millis: u64 = millis.parse().unwrap();
        assert!(parts[1] < 60 && parts[2] < 60 && millis < 1000);
        assert_eq!(
            ms as u64,
            parts[0] * 3_600_000 + parts[1] * 60_000 + parts[2] * 1000 + millis
        );
    }
}
