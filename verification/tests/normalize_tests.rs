use beecorr::errors::AnalysisError;
use beecorr::normalize::Normalizer;
use beecorr::window::SignalWindow;
use rand::{RngExt, SeedableRng};

#[test]
fn normalize_subtracts_exact_mean() {
    let w = SignalWindow::from_samples(vec![3, 5, 10]);
    let out = Normalizer::normalize(&w).unwrap();
    assert_eq!(out.samples().clone(), vec![-3, -1, 4]);
    let sum: i64 = out.samples().iter().sum();
    assert_eq!(sum, 0);
}

#[test]
fn normalize_negative_mean() {
    let w = SignalWindow::from_samples(vec![-3, -5, -10]);
    let out = Normalizer::normalize(&w).unwrap();
    assert_eq!(out.samples().clone(), vec![3, 1, -4]);
}

#[test]
fn normalize_truncated_mean_leaves_small_residual() {
    // Sum 4 over 3 samples: mean rounds toward zero to 1; the residual
    // sum is 4 - 3 * 1 = 1, smaller in magnitude than the length.
    let w = SignalWindow::from_samples(vec![1, 1, 2]);
    let out = Normalizer::normalize(&w).unwrap();
    assert_eq!(out.samples().clone(), vec![0, 0, 1]);
    let sum: i64 = out.samples().iter().sum();
    assert!(sum.abs() < 3);
}

#[test]
fn normalize_empty_window_fails() {
    let w = SignalWindow::from_samples(Vec::new());
    assert_eq!(Normalizer::normalize(&w).err(), Some(AnalysisError::EmptyWindow));
}

#[test]
fn normalized_mean_is_zero_within_tolerance() {
    // For any non-empty window the output mean has magnitude below one
    // quantization step (|sum| < length).
    let mut rng = rand::rngs::StdRng::seed_from_u64(7);
    for len in [1usize, 2, 3, 10, 997, 5000] {
        let samples: Vec<i64> = (0..len).map(|_| rng.random_range(-100000i64..=100000)).collect();
        let w = SignalWindow::from_samples(samples);
        let out = Normalizer::normalize(&w).unwrap();
        let sum: i64 = out.samples().iter().sum();
        assert!((sum.abs() as usize) < len);
        let mean = sum as f64 / len as f64;
        assert!(mean.abs() < 1.0);
    }
}

#[test]
fn normalize_single_sample_gives_zero() {
    let w = SignalWindow::from_samples(vec![12345]);
    let out = Normalizer::normalize(&w).unwrap();
    assert_eq!(out.samples().clone(), vec![0]);
}
