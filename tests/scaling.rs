use audio_spectrum::scale::{
    amplitude_scale, decibel_scale, floor_sqrt, scale_frame, scale_value, ScaleMode,
    AMP_CEILING, UNIT,
};
use audio_spectrum::smooth::{smooth_frame, smooth_value};

#[test]
fn decibel_below_floor_is_zero() {
    assert_eq!(decibel_scale(-150 * UNIT), 0);
}

#[test]
fn decibel_above_floor_is_shifted() {
    assert_eq!(decibel_scale(-50 * UNIT), 50_000_000);
}

#[test]
fn decibel_floor_maps_to_zero() {
    assert_eq!(decibel_scale(-100 * UNIT), 0);
    assert_eq!(decibel_scale(-100 * UNIT - 1), 0);
    assert_eq!(decibel_scale(-100 * UNIT + 1), 1);
}

#[test]
fn decibel_extremes_do_not_overflow() {
    assert_eq!(decibel_scale(i64::MIN), 0);
    assert_eq!(decibel_scale(i64::MAX), i64::MAX as u64 + 100_000_000);
}

#[test]
fn decibel_is_monotone_on_samples() {
    let xs = [-200 * UNIT, -100 * UNIT, -99 * UNIT, 0, 20 * UNIT];
    for w in xs.windows(2) {
        assert!(decibel_scale(w[0]) <= decibel_scale(w[1]));
    }
}

#[test]
fn amplitude_of_zero_is_zero() {
    assert_eq!(amplitude_scale(0), 0);
}

#[test]
fn amplitude_of_ten_thousand_hits_ceiling() {
    assert_eq!(amplitude_scale(10_000 * UNIT), 128_000_000);
    assert_eq!(AMP_CEILING, 128_000_000);
}

#[test]
fn amplitude_is_square_root_times_thousand() {
    // sqrt(0.01) * 1000 == 100
    assert_eq!(amplitude_scale(10_000), 100_000_000);
    // sqrt(0.000002) * 1000 == 1.414213...
    assert_eq!(amplitude_scale(2), 1_414_213);
    // just below the knee: sqrt(0.016383) * 1000 == 127.996093...
    assert_eq!(amplitude_scale(16_383), 127_996_093);
    assert_eq!(amplitude_scale(16_384), 128_000_000);
}

#[test]
fn amplitude_of_negative_is_zero() {
    assert_eq!(amplitude_scale(-5), 0);
    assert_eq!(amplitude_scale(i64::MIN), 0);
}

#[test]
fn amplitude_is_monotone_and_bounded_on_samples() {
    let xs = [i64::MIN, -1, 0, 1, 2, 100, 16_383, 16_384, UNIT, i64::MAX];
    for w in xs.windows(2) {
        assert!(amplitude_scale(w[0]) <= amplitude_scale(w[1]));
    }
    for x in xs {
        assert!(amplitude_scale(x) <= 128_000_000);
    }
}

#[test]
fn floor_sqrt_rounds_down() {
    assert_eq!(floor_sqrt(0), 0);
    assert_eq!(floor_sqrt(1), 1);
    assert_eq!(floor_sqrt(3), 1);
    assert_eq!(floor_sqrt(4), 2);
    assert_eq!(floor_sqrt(15), 3);
    assert_eq!(floor_sqrt(16), 4);
    assert_eq!(floor_sqrt(5_000_000_000_000), 2_236_067);
}

#[test]
fn scale_value_follows_mode() {
    assert_eq!(scale_value(ScaleMode::Decibel, -50 * UNIT), 50_000_000);
    assert_eq!(scale_value(ScaleMode::Amplitude, 10_000), 100_000_000);
}

#[test]
fn all_zero_frame_under_decibel() {
    // a reading of 0 dB lies above the floor and shows as 100
    let out = scale_frame(ScaleMode::Decibel, &vec![0; 100]);
    assert_eq!(out.len(), 100);
    assert!(out.iter().all(|v| *v == 100_000_000));
}

#[test]
fn floor_frame_under_decibel_is_all_zero() {
    let out = scale_frame(ScaleMode::Decibel, &vec![-100 * UNIT; 100]);
    assert_eq!(out, vec![0; 100]);
}

#[test]
fn all_zero_frame_under_amplitude_is_all_zero() {
    let out = scale_frame(ScaleMode::Amplitude, &vec![0; 100]);
    assert_eq!(out, vec![0; 100]);
}

#[test]
fn smoothing_half_alpha_averages() {
    let out = smooth_frame(500_000, &vec![10 * UNIT as u64], &vec![30 * UNIT as u64]);
    assert_eq!(out, vec![20 * UNIT as u64]);
    assert_eq!(smooth_value(500_000, 10, 30), 20);
}

#[test]
fn smoothing_full_alpha_is_identity() {
    let prev = vec![7, 0, 123_456_789];
    let cur = vec![1, 99, 5];
    assert_eq!(smooth_frame(UNIT as u64, &prev, &cur), cur);
}

#[test]
fn smoothing_rounds_down_and_handles_extremes() {
    assert_eq!(smooth_value(100_000, 0, 10), 1);
    assert_eq!(smooth_value(300_000, 0, 10), 3);
    assert_eq!(smooth_value(500_000, u64::MAX, u64::MAX), u64::MAX);
    assert_eq!(smooth_value(1, 0, 999_999), 0);
}
