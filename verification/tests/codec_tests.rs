use igt_core::codec::{IgtTime, centis_digit, decode_timer, encoded_delta_millis, timer_frames};

#[test]
fn decode_timer_splits_the_three_bytes() {
    assert_eq!(decode_timer(0x01020C), (1, 2, 12));
    assert_eq!(decode_timer(0xFFFFFF), (255, 255, 255));
    assert_eq!(decode_timer(0), (0, 0, 0));
}

#[test]
fn timer_frames_weighs_minutes_and_seconds() {
    assert_eq!(timer_frames(0x01020C), 3600 + 2 * 60 + 12);
    assert_eq!(timer_frames(0x000101), 61);
    assert_eq!(timer_frames(0xFFFFFF), 933555);
}

#[test]
fn alphabet_maps_raw_value_mod_six() {
    // The six alphabet entries in order, then the cycle repeating.
    assert_eq!(centis_digit(0), 0);
    assert_eq!(centis_digit(1), 2);
    assert_eq!(centis_digit(2), 4);
    assert_eq!(centis_digit(3), 5);
    assert_eq!(centis_digit(4), 7);
    assert_eq!(centis_digit(5), 9);
    assert_eq!(centis_digit(6), 0);
    assert_eq!(centis_digit(12), 0);
    assert_eq!(centis_digit(59), 9);
}

#[test]
fn alphabet_round_trip_is_deterministic() {
    // Decoding a raw value twice renders the same digit, and distinct
    // positions in the cycle render the table's entries in order.
    let table = [0, 2, 4, 5, 7, 9];
    for v in 0u32..60 {
        assert_eq!(centis_digit(v), centis_digit(v));
        assert_eq!(centis_digit(v), table[(v % 6) as usize]);
    }
}

#[test]
fn centis_advance_adds_twenty_ms() {
    // Same minutes and seconds, subsecond raw value 1 -> 2: the rendered
    // digits are 2 -> 4, so the displayed time moved two centiseconds.
    assert_eq!(encoded_delta_millis(0x000101, 0x000102), 20);
}

#[test]
fn centis_advance_two_entries_adds_thirty_ms() {
    // Subsecond raw value 2 -> 4 renders digits 4 -> 7.
    assert_eq!(encoded_delta_millis(0x000102, 0x000104), 30);
}

#[test]
fn centis_wrap_with_decisecond_adds_110_ms() {
    // Raw 5 renders 9; raw 12 renders 0. The digit difference wraps to
    // (0 - 9) + 10 = 1 centisecond, and the seven-frame step contains one
    // whole decisecond: 10 + 100 ms.
    assert_eq!(encoded_delta_millis(0x000005, 0x00000C), 110);
}

#[test]
fn rollback_or_equal_register_adds_nothing() {
    assert_eq!(encoded_delta_millis(0x000102, 0x000102), 0);
    assert_eq!(encoded_delta_millis(0x000102, 0x000101), 0);
    assert_eq!(encoded_delta_millis(0x010000, 0x000030), 0);
}

#[test]
fn second_boundary_counts_whole_deciseconds() {
    // 0:01.59 -> 0:02.00 in raw fields: frames 119 -> 120, one frame step,
    // digits 9 -> 0 wrap to 1 centisecond, no whole decisecond.
    assert_eq!(encoded_delta_millis(0x00013B, 0x000200), 10);
    // A full second of 60 frames: 10 whole deciseconds, digits equal.
    assert_eq!(encoded_delta_millis(0x000100, 0x000200), 1000);
}

#[test]
fn total_millis_converts_frames_at_60_fps() {
    let t = IgtTime { millis: 100, frames: 60 };
    assert_eq!(t.total_millis(), 1100);
    let ten = IgtTime { millis: 0, frames: 10 };
    assert_eq!(ten.total_millis(), 166);
    assert_eq!(IgtTime::zero().total_millis(), 0);
    let huge = IgtTime { millis: u64::MAX, frames: 60 };
    assert_eq!(huge.total_millis(), u64::MAX);
}
