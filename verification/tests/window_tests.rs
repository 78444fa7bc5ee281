use beecorr::errors::AnalysisError;
use beecorr::window::SignalWindow;

#[test]
fn window_exposes_its_samples() {
    let w = SignalWindow::from_samples(vec![-7, 0, 42]);
    assert_eq!(w.len(), 3);
    assert!(!w.is_empty());
    assert_eq!(w.get(0), -7);
    assert_eq!(w.get(1), 0);
    assert_eq!(w.get(2), 42);
    assert_eq!(w.samples().clone(), vec![-7, 0, 42]);
}

#[test]
fn empty_window_is_empty() {
    let w = SignalWindow::from_samples(Vec::new());
    assert!(w.is_empty());
    assert_eq!(w.len(), 0);
}

#[test]
fn analysis_error_descriptions() {
    assert_eq!(AnalysisError::EmptyWindow.describe(), "empty window");
    assert_eq!(AnalysisError::LengthMismatch.describe(), "window lengths differ");
    assert_eq!(AnalysisError::OutOfRange.describe(), "snapshot range out of bounds");
}
