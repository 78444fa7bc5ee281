use beecorr::errors::AnalysisError;
use beecorr::pipeline::PipelineController;
use beecorr::session::CaptureConfig;
use rand::{RngExt, SeedableRng};

fn config() -> CaptureConfig {
    CaptureConfig { sample_rate: 48000, channel_count: 2, bits_per_sample: 16 }
}

fn noise(seed: u64, len: usize) -> Vec<i64> {
    let mut rng = rand::rngs::StdRng::seed_from_u64(seed);
    (0..len).map(|_| rng.random_range(-1000i64..=1000)).collect()
}

#[test]
fn shifted_channel_is_found_at_its_lag() {
    // Channel B is channel A shifted right by 37 samples, zero-padded:
    // the correlation sweep must report best lag 37.
    let n = 1000usize;
    let shift = 37usize;
    let a = noise(42, n);
    let mut b: Vec<i64> = vec![0; shift];
    b.extend_from_slice(&a[..n - shift]);

    let mut pipe = PipelineController::new(config(), n, 1000).unwrap();
    pipe.begin().unwrap();
    assert!(pipe.feed(0, &a));
    assert!(pipe.feed(1, &b));
    pipe.finish();
    let r = pipe.analyze(0, 1).unwrap();
    assert_eq!(r.pairs.len(), n);
    assert_eq!(r.best_lag, shift);
}

#[test]
fn uncorrelated_noise_stays_near_the_noise_floor() {
    // Two independent noise channels: the maximum score must stay below
    // a small multiple of the expected noise floor, far below what the
    // self-correlation of either channel would reach.
    let n = 1000usize;
    let a = noise(1, n);
    let b = noise(2, n);

    let mut pipe = PipelineController::new(config(), n, 1000).unwrap();
    pipe.begin().unwrap();
    assert!(pipe.feed(0, &a));
    assert!(pipe.feed(1, &b));
    pipe.finish();
    let r = pipe.analyze(0, 1).unwrap();

    let variance = 2001.0f64 * 2001.0 / 12.0;
    let floor = variance * (n as f64).sqrt();
    let max_score = r.pairs.iter().map(|p| p.1.abs()).max().unwrap() as f64;
    assert!(max_score < 10.0 * floor);
    // For contrast, the self-correlation peak is an order of magnitude
    // above that bound.
    let self_peak = a.iter().map(|s| s * s).sum::<i64>() as f64;
    assert!(self_peak > 10.0 * floor);
}

#[test]
fn analyze_mismatched_channels_fails() {
    let mut pipe = PipelineController::new(config(), 64, 1000).unwrap();
    pipe.begin().unwrap();
    assert!(pipe.feed(0, &vec![1, 2, 3]));
    assert!(pipe.feed(1, &vec![1, 2]));
    pipe.finish();
    assert_eq!(pipe.analyze(0, 1).err(), Some(AnalysisError::LengthMismatch));
}

#[test]
fn analyze_empty_channels_fails() {
    let mut pipe = PipelineController::new(config(), 64, 1000).unwrap();
    pipe.begin().unwrap();
    pipe.finish();
    assert_eq!(pipe.analyze(0, 1).err(), Some(AnalysisError::EmptyWindow));
}

#[test]
fn analysis_normalizes_away_dc_offset() {
    // The same signal on both channels, one with a large constant bias:
    // after mean removal the sweep still peaks at lag zero.
    let n = 500usize;
    let a = noise(9, n);
    let b: Vec<i64> = a.iter().map(|s| s + 1000).collect();

    let mut pipe = PipelineController::new(config(), n, 1000).unwrap();
    pipe.begin().unwrap();
    assert!(pipe.feed(0, &a));
    assert!(pipe.feed(1, &b));
    pipe.finish();
    let r = pipe.analyze(0, 1).unwrap();
    assert_eq!(r.best_lag, 0);
}

#[test]
fn diagnostics_report_recorded_conditions() {
    let mut pipe = PipelineController::new(config(), 4, 1000).unwrap();
    pipe.begin().unwrap();
    assert!(pipe.feed(0, &vec![1, 2, 3]));
    assert!(!pipe.feed(0, &vec![4, 5]));
    assert!(!pipe.feed(7, &vec![1]));
    pipe.finish();
    assert_eq!(
        pipe.diagnostics(),
        vec!["buffer overflow: chunk rejected", "malformed chunk dropped"]
    );
}

#[test]
fn heartbeats_cover_the_whole_sweep() {
    let n = 2500usize;
    let a = noise(5, n);
    let b = noise(6, n);
    let mut pipe = PipelineController::new(config(), n, 1000).unwrap();
    pipe.begin().unwrap();
    assert!(pipe.feed(0, &a));
    assert!(pipe.feed(1, &b));
    pipe.finish();
    pipe.analyze(0, 1).unwrap();
    let beats = pipe.heartbeats().clone();
    assert_eq!(beats.len(), 3);
    for (i, hb) in beats.iter().enumerate() {
        assert_eq!(hb.lag, i * 1000);
        assert_eq!(hb.total, n);
    }
}
