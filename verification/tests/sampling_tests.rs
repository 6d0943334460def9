use pico_motor::sampling::SampleWindow;

#[test]
fn new_window_is_empty() {
    let w = SampleWindow::new();
    assert_eq!(w.sample_count(), 0);
    assert_eq!(w.last_a(), 0);
    assert_eq!(w.last_b(), 0);
}

#[test]
fn closing_empty_window_reports_nothing() {
    let mut w = SampleWindow::new();
    assert_eq!(w.close(), None);
    assert_eq!(w.sample_count(), 0);
}

#[test]
fn records_are_counted_and_reported() {
    let mut w = SampleWindow::new();
    w.record(2048, 100);
    w.record(3000, 4095);
    w.record(1, 2);
    assert_eq!(w.sample_count(), 3);
    assert_eq!(w.last_a(), 1);
    assert_eq!(w.last_b(), 2);
    assert_eq!(w.close(), Some(3));
    assert_eq!(w.sample_count(), 0);
    assert_eq!(w.last_a(), 1);
    assert_eq!(w.last_b(), 2);
}

#[test]
fn second_close_keeps_previous_report() {
    let mut w = SampleWindow::new();
    w.record(10, 20);
    assert_eq!(w.close(), Some(1));
    assert_eq!(w.close(), None);
    w.record(30, 40);
    w.record(50, 60);
    assert_eq!(w.close(), Some(2));
}
