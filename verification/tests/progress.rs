use cvmodtool::Progress;

#[test]
fn test_indeterminate() {
    let mut progress = Progress::default();
    progress.set_indeterminate(true);
    assert!(progress.indeterminate());
}

#[test]
fn test_complete() {
    let mut progress = Progress::default();
    progress.set_complete(true);
    assert!(progress.complete());
}

#[test]
fn test_cancelled() {
    let mut progress = Progress::default();
    progress.set_cancelled(true);
    assert!(progress.cancelled());
}

#[test]
fn test_set_current() {
    let mut progress = Progress::default();
    progress.set_current(50);
    assert_eq!(progress.current(), 50);
}

#[test]
fn test_add_current() {
    let mut progress = Progress::default();
    progress.set_current(10);
    progress.add_current(10);
    assert_eq!(progress.current(), 20);
}

#[test]
fn test_add_current_after_set() {
    let mut progress = Progress::default();
    progress.set_current(50);
    progress.add_current(10);
    assert_eq!(progress.current(), 60);
}

#[test]
fn test_set_maximum() {
    let mut progress = Progress::default();
    progress.set_maximum(50);
    assert_eq!(progress.maximum(), 50);
}

#[test]
fn test_add_maximum() {
    let mut progress = Progress::default();
    progress.set_maximum(10);
    progress.add_maximum(10);
    assert_eq!(progress.maximum(), 20);
}

#[test]
fn test_percent() {
    let mut progress = Progress::default();
    progress.set_maximum(100);
    progress.set_current(50);
    let (num, den) = progress.percent();
    assert!((0.5 - num as f64 / den as f64).abs() < f64::EPSILON);
}

#[test]
fn test_percent_complete_is_one() {
    let mut progress = Progress::default();
    progress.set_maximum(100);
    progress.set_current(3);
    progress.set_complete(true);
    let (num, den) = progress.percent();
    assert_eq!(num, 1);
    assert_eq!(den, 1);
    assert_eq!(num as f64 / den as f64, 1.0);
}

#[test]
fn test_reset_clears_everything() {
    let mut progress = Progress::new(false, true, true, 7, 9);
    progress.reset();
    assert!(progress.indeterminate());
    assert!(!progress.complete());
    assert!(!progress.cancelled());
    assert_eq!(progress.current(), 0);
    assert_eq!(progress.maximum(), 0);
    let (num, den) = progress.percent();
    assert_eq!(num as f64 / den as f64, 0.0);
}

#[test]
fn test_percent_unknown_is_zero() {
    let mut progress = Progress::default();
    progress.set_current(10);
    let (num, den) = progress.percent();
    assert_eq!(num, 0);
    assert!(den != 0);
}
