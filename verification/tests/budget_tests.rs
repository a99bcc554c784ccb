use atem_converter::budget::{get_target_size, get_target_video_rate, is_minsize};

// Fixed-point conventions: durations in milliseconds, bitrates in
// milli-kbps, sizes in micro-MB.

#[test]
fn it_works() {
    let result: i32 = 2 + 2;
    assert_eq!(result, 4);
}

#[test]
fn minimum_size_matches_formula() {
    // 128 kbps for 120 s: 128 * 120 / 8192 = 1.875 MB exactly.
    assert_eq!(get_target_size(128_000, 120_000), 1_875_000);
    // 320 kbps for 600 s: 320 * 600 / 8192 = 23.4375 MB exactly.
    assert_eq!(get_target_size(320_000, 600_000), 23_437_500);
}

#[test]
fn minimum_size_zero_audio() {
    assert_eq!(get_target_size(0, 60_000), 0);
    assert!(is_minsize(0, 5_000_000));
    assert!(is_minsize(0, 1));
}

#[test]
fn gate_boundary() {
    // Strictly below passes; equality and above do not.
    assert!(is_minsize(4_999_999, 5_000_000));
    assert!(!is_minsize(5_000_000, 5_000_000));
    assert!(!is_minsize(5_000_001, 5_000_000));
}

#[test]
fn gate_rejects_target_under_floor() {
    // 600 s at 320 kbps: floor 23.4375 MB exceeds a 5 MB target.
    let min = get_target_size(320_000, 600_000);
    assert_eq!(min, 23_437_500);
    assert!(!is_minsize(min, 5_000_000));
}

#[test]
fn round_trip_budget() {
    // 120 s, 128 kbps audio, 15.5 MB target.
    let min = get_target_size(128_000, 120_000);
    assert_eq!(min, 1_875_000);
    assert!(is_minsize(min, 15_500_000));
    let video = get_target_video_rate(15_500_000, 120_000, 128_000);
    // (15.5 * 8192) / (1.048576 * 120) - 128, in milli-kbps, floored.
    assert_eq!(video, 881_114);
    let exact = (15.5f64 * 8192.0) / (1.048576 * 120.0) - 128.0;
    assert!(((video as f64) / 1000.0 - exact).abs() < 0.1);
}

#[test]
fn video_rate_negative_when_target_under_floor() {
    // 5 MB over 600 s cannot even pay for 320 kbps of audio.
    let video = get_target_video_rate(5_000_000, 600_000, 320_000);
    assert!(video < 0);
}

#[test]
fn minimum_size_monotone_samples() {
    // Non-decreasing in the audio rate and in the duration.
    assert!(get_target_size(128_000, 120_000) <= get_target_size(129_000, 120_000));
    assert!(get_target_size(128_000, 120_000) <= get_target_size(128_000, 121_000));
    assert!(get_target_size(0, 1) <= get_target_size(1, 2));
}

#[test]
fn video_rate_monotone_samples() {
    // Increasing in the target, decreasing in duration and audio rate.
    assert!(
        get_target_video_rate(15_500_000, 120_000, 128_000)
            <= get_target_video_rate(15_600_000, 120_000, 128_000)
    );
    assert!(
        get_target_video_rate(15_500_000, 121_000, 128_000)
            <= get_target_video_rate(15_500_000, 120_000, 128_000)
    );
    assert!(
        get_target_video_rate(15_500_000, 120_000, 129_000)
            <= get_target_video_rate(15_500_000, 120_000, 128_000)
    );
}
