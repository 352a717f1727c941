use std::time::{Instant, SystemTime, UNIX_EPOCH};

use timpani_n::clock::{
    bpf_ktime_to_realtime, calibrate_time_offset, calibration_samples_fit, ClockSample,
    CALIBRATION_SAMPLES,
};

fn realtime_ns() -> u64 {
    SystemTime::now().duration_since(UNIX_EPOCH).unwrap().as_nanos() as u64
}

/// A monotonic reading: nanoseconds since `base`.
fn monotonic_ns(base: Instant) -> u64 {
    base.elapsed().as_nanos() as u64
}

fn take_samples(base: Instant) -> Vec<ClockSample> {
    let mut samples = Vec::new();
    for _ in 0..CALIBRATION_SAMPLES {
        let t1 = realtime_ns();
        let t2 = monotonic_ns(base);
        let t3 = realtime_ns();
        samples.push(ClockSample {
            realtime_before: t1,
            monotonic: t2,
            realtime_after: t3,
        });
    }
    samples
}

fn calibrate(base: Instant) -> Option<i64> {
    let samples = take_samples(base);
    if calibration_samples_fit(&samples) {
        Some(calibrate_time_offset(&samples))
    } else {
        None
    }
}

#[test]
fn test_calibration_completes() {
    let base = Instant::now();
    assert!(calibrate(base).is_some());
}

#[test]
fn test_offset_is_set() {
    let base = Instant::now();
    let offset = calibrate(base).unwrap();
    assert_ne!(offset, 0);
}

#[test]
fn test_conversion_produces_valid_timestamp() {
    let base = Instant::now();
    let offset = calibrate(base).unwrap();

    let rt = realtime_ns();
    let mono = monotonic_ns(base);
    let bpf_rt = bpf_ktime_to_realtime(mono, offset);

    let diff = (rt as i64 - bpf_rt as i64).abs();
    assert!(
        diff < 1_000_000,
        "Converted time differs from realtime by {} ns (> 1ms)",
        diff
    );
}

#[test]
fn test_multiple_calibrations() {
    let base = Instant::now();
    let offset1 = calibrate(base).unwrap();
    let offset2 = calibrate(base).unwrap();

    let diff = (offset1 - offset2).abs();
    assert!(diff < 1_000_000, "Calibration offsets differ by {} ns", diff);
}

// ── further cases ────────────────────────────────────────────────────────

fn sample(t1: u64, t2: u64, t3: u64) -> ClockSample {
    ClockSample {
        realtime_before: t1,
        monotonic: t2,
        realtime_after: t3,
    }
}

#[test]
fn calibration_picks_the_fastest_sample() {
    let samples = vec![
        sample(1_000, 100, 1_100),  // delta 100, offset 950
        sample(2_000, 200, 2_020),  // delta 20, offset 1810
        sample(3_000, 300, 3_050),  // delta 50
    ];
    assert!(calibration_samples_fit(&samples));
    assert_eq!(calibrate_time_offset(&samples), 1_810);
}

#[test]
fn calibration_keeps_the_first_of_equally_fast_samples() {
    let samples = vec![sample(1_000, 10, 1_010), sample(5_000, 20, 5_010)];
    // both have delta 10; the first (offset 995) wins
    assert_eq!(calibrate_time_offset(&samples), 995);
}

#[test]
fn calibration_of_no_samples_is_zero() {
    let samples: Vec<ClockSample> = Vec::new();
    assert!(calibration_samples_fit(&samples));
    assert_eq!(calibrate_time_offset(&samples), 0);
}

#[test]
fn calibration_offset_can_be_negative() {
    let samples = vec![sample(100, 1_000, 100)];
    assert_eq!(calibrate_time_offset(&samples), -900);
}

#[test]
fn samples_where_realtime_steps_back_are_skipped() {
    let samples = vec![
        sample(5_000, 100, 4_000), // realtime stepped back: skipped
        sample(1_000, 200, 1_100), // delta 100, offset 850
    ];
    assert!(calibration_samples_fit(&samples));
    assert_eq!(calibrate_time_offset(&samples), 850);
    // only backwards samples: nothing measured, the offset stays 0
    let backwards = vec![sample(10, 0, 5)];
    assert!(calibration_samples_fit(&backwards));
    assert_eq!(calibrate_time_offset(&backwards), 0);
}

#[test]
fn samples_that_would_overflow_are_detected() {
    // the two realtime readings do not sum in 64 bits
    assert!(!calibration_samples_fit(&[sample(u64::MAX - 1, 0, u64::MAX)]));
    // the chosen offset leaves the signed range
    let big = (i64::MAX as u64) - 1;
    assert!(!calibration_samples_fit(&[sample(big, (i64::MAX as u64) + 10, big)]));
}

#[test]
fn conversion_adds_the_offset() {
    assert_eq!(bpf_ktime_to_realtime(1_000, 500), 1_500);
    assert_eq!(bpf_ktime_to_realtime(1_000, -400), 600);
}

#[test]
fn sample_converts_to_its_midpoint() {
    let s = sample(10_000, 3_000, 10_040);
    let offset = calibrate_time_offset(&[s]);
    assert_eq!(bpf_ktime_to_realtime(s.monotonic, offset), 10_020);
}
