use fw_fanctrl::smoothing::{effective_temperature, moving_average};

// Temperatures are in hundredths of a degree Celsius throughout.

#[test]
fn test_moving_average_constant_history() {
    let history = vec![4500i64; 42];
    for interval in [0u32, 1, 10, 42, 100] {
        assert_eq!(moving_average(&history, interval, 9999), 4500);
    }
}

#[test]
fn test_moving_average_fallback_on_no_positive_samples() {
    let history = vec![0i64, -100, 0, -250];
    assert_eq!(moving_average(&history, 3, 5000), 5000);
    let empty: Vec<i64> = vec![];
    assert_eq!(moving_average(&empty, 0, 4200), 4200);
}

#[test]
fn test_moving_average_window_takes_last_samples() {
    // Positive samples 1000, 2000, 3000, 4000; a window of two averages
    // the last two.
    let history = vec![1000i64, 2000, 3000, 4000];
    assert_eq!(moving_average(&history, 2, 0), 3500);
    // An interval of zero averages everything.
    assert_eq!(moving_average(&history, 0, 0), 2500);
    // An interval beyond the data also averages everything.
    assert_eq!(moving_average(&history, 50, 0), 2500);
}

#[test]
fn test_moving_average_skips_invalid_samples() {
    // Non-positive entries are stored but never averaged.
    let history = vec![-100i64, 3000, 0, 5000];
    assert_eq!(moving_average(&history, 0, 0), 4000);
    // The window counts positive samples only: the last two positives.
    let history2 = vec![1000i64, 0, 2000, -5, 3000];
    assert_eq!(moving_average(&history2, 2, 0), 2500);
}

#[test]
fn test_moving_average_rounds_half_up() {
    // (1000 + 1001) / 2 = 1000.5 rounds up.
    let history = vec![1000i64, 1001];
    assert_eq!(moving_average(&history, 0, 0), 1001);
    // (1000 + 1001 + 1001) / 3 = 1000.67 rounds to nearest.
    let history2 = vec![1000i64, 1001, 1001];
    assert_eq!(moving_average(&history2, 0, 0), 1001);
}

#[test]
fn test_effective_temperature_blend() {
    // Average 4000, sample 7000: (2 * 4000 + 7000) / 3 = 5000.
    let history = vec![4000i64; 10];
    assert_eq!(effective_temperature(&history, 7000, 0), 5000);
    // Average 4000, sample 4100: (8000 + 4100) / 3 = 4033.33 rounds down.
    assert_eq!(effective_temperature(&history, 4100, 0), 4033);
    // Average 4000, sample 4200: (8000 + 4200) / 3 = 4066.67 rounds up.
    assert_eq!(effective_temperature(&history, 4200, 0), 4067);
}

#[test]
fn test_effective_temperature_empty_history_is_sample() {
    let empty: Vec<i64> = vec![];
    assert_eq!(effective_temperature(&empty, 6300, 5), 6300);
}

#[test]
fn test_effective_temperature_between_average_and_sample() {
    let history = vec![3000i64, 4000, 5000];
    for sample in [-2000i64, 0, 3999, 4000, 4001, 9000] {
        let avg = moving_average(&history, 0, sample);
        let eff = effective_temperature(&history, sample, 0);
        assert!(eff >= avg.min(sample), "{} < min({}, {})", eff, avg, sample);
        assert!(eff <= avg.max(sample), "{} > max({}, {})", eff, avg, sample);
    }
}
