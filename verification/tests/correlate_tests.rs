use beecorr::correlate::{CorrelationEngine, Heartbeat};
use beecorr::errors::AnalysisError;
use beecorr::window::SignalWindow;
use rand::{RngExt, SeedableRng};

#[test]
fn correlate_exact_scores_small_example() {
    let mut engine = CorrelationEngine::new(1000);
    let a = SignalWindow::from_samples(vec![1, 2, 3]);
    let b = SignalWindow::from_samples(vec![1, 2, 3]);
    let r = engine.correlate(&a, &b).unwrap();
    assert_eq!(r.pairs, vec![(0, 14), (1, 8), (2, 3)]);
    assert_eq!(r.best_lag, 0);
}

#[test]
fn correlate_result_has_one_pair_per_lag() {
    // For windows of length n the result holds exactly n (lag, score)
    // pairs, the lags forming the contiguous range 0..n.
    let mut engine = CorrelationEngine::new(1000);
    let n = 257usize;
    let mut rng = rand::rngs::StdRng::seed_from_u64(3);
    let s: Vec<i64> = (0..n).map(|_| rng.random_range(-50i64..=50)).collect();
    let t: Vec<i64> = (0..n).map(|_| rng.random_range(-50i64..=50)).collect();
    let a = SignalWindow::from_samples(s);
    let b = SignalWindow::from_samples(t);
    let r = engine.correlate(&a, &b).unwrap();
    assert_eq!(r.pairs.len(), n);
    for (lag, pair) in r.pairs.iter().enumerate() {
        assert_eq!(pair.0, lag);
    }
}

#[test]
fn correlate_length_mismatch_fails() {
    let mut engine = CorrelationEngine::new(1000);
    let a = SignalWindow::from_samples(vec![1, 2, 3]);
    let b = SignalWindow::from_samples(vec![1, 2]);
    assert_eq!(engine.correlate(&a, &b).err(), Some(AnalysisError::LengthMismatch));
    let empty = SignalWindow::from_samples(Vec::new());
    // Unequal lengths win over emptiness.
    assert_eq!(engine.correlate(&a, &empty).err(), Some(AnalysisError::LengthMismatch));
}

#[test]
fn correlate_empty_windows_fail() {
    let mut engine = CorrelationEngine::new(1000);
    let a = SignalWindow::from_samples(Vec::new());
    let b = SignalWindow::from_samples(Vec::new());
    assert_eq!(engine.correlate(&a, &b).err(), Some(AnalysisError::EmptyWindow));
}

#[test]
fn self_correlation_peaks_at_lag_zero() {
    let mut engine = CorrelationEngine::new(1000);
    let mut rng = rand::rngs::StdRng::seed_from_u64(11);
    let s: Vec<i64> = (0..500).map(|_| rng.random_range(-1000i64..=1000)).collect();
    let a = SignalWindow::from_samples(s.clone());
    let b = SignalWindow::from_samples(s);
    let r = engine.correlate(&a, &b).unwrap();
    assert_eq!(r.best_lag, 0);
    let best = r.pairs[0].1;
    for pair in &r.pairs {
        assert!(pair.1 <= best);
    }
}

#[test]
fn ties_resolve_to_smallest_lag() {
    // Both lags score zero; the reported best lag is the smaller one.
    let mut engine = CorrelationEngine::new(1000);
    let a = SignalWindow::from_samples(vec![0, 1]);
    let b = SignalWindow::from_samples(vec![1, 0]);
    let r = engine.correlate(&a, &b).unwrap();
    assert_eq!(r.pairs, vec![(0, 0), (1, 0)]);
    assert_eq!(r.best_lag, 0);
}

#[test]
fn heartbeats_follow_cadence() {
    // Seven lags at a cadence of three: heartbeats at lags 0, 3 and 6.
    let mut engine = CorrelationEngine::new(3);
    let a = SignalWindow::from_samples(vec![1, 2, 3, 4, 5, 6, 7]);
    let b = SignalWindow::from_samples(vec![7, 6, 5, 4, 3, 2, 1]);
    engine.correlate(&a, &b).unwrap();
    assert_eq!(
        engine.events().clone(),
        vec![
            Heartbeat { lag: 0, total: 7 },
            Heartbeat { lag: 3, total: 7 },
            Heartbeat { lag: 6, total: 7 },
        ]
    );
    engine.clear_events();
    assert!(engine.events().is_empty());
}

#[test]
fn heartbeats_do_not_alter_scores() {
    // The same sweep at two different cadences yields identical scores.
    let s: Vec<i64> = (0..40).map(|i| (i * i % 17) as i64 - 8).collect();
    let t: Vec<i64> = (0..40).map(|i| (i * 7 % 23) as i64 - 11).collect();
    let mut fine = CorrelationEngine::new(1);
    let mut coarse = CorrelationEngine::new(1000);
    let ra = fine
        .correlate(&SignalWindow::from_samples(s.clone()), &SignalWindow::from_samples(t.clone()))
        .unwrap();
    let rb = coarse
        .correlate(&SignalWindow::from_samples(s), &SignalWindow::from_samples(t))
        .unwrap();
    assert_eq!(ra.pairs, rb.pairs);
    assert_eq!(ra.best_lag, rb.best_lag);
    assert_eq!(fine.events().len(), 40);
    assert_eq!(coarse.events().len(), 1);
}
