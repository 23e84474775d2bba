use fanout::progress::{
    classify_size, select_monitor, u64_to_decimal, IndeterminateProgressMonitor, MonitorChoice,
};

#[test]
fn zero_size_is_unknown() {
    assert_eq!(classify_size(0), None);
    assert_eq!(classify_size(1), Some(1));
    assert_eq!(classify_size(123456), Some(123456));
}

#[test]
fn unknown_size_selects_indeterminate() {
    assert_eq!(select_monitor(false, None), MonitorChoice::Indeterminate);
    assert_eq!(
        select_monitor(false, classify_size(0)),
        MonitorChoice::Indeterminate
    );
}

#[test]
fn known_size_selects_determinate() {
    assert_eq!(
        select_monitor(false, Some(4096)),
        MonitorChoice::Determinate { total: 4096 }
    );
}

#[test]
fn quiet_selects_silent_whatever_the_size() {
    assert_eq!(select_monitor(true, None), MonitorChoice::Silent);
    assert_eq!(select_monitor(true, Some(4096)), MonitorChoice::Silent);
    assert_eq!(select_monitor(true, classify_size(0)), MonitorChoice::Silent);
}

#[test]
fn decimal_rendering() {
    assert_eq!(u64_to_decimal(0), "0");
    assert_eq!(u64_to_decimal(7), "7");
    assert_eq!(u64_to_decimal(10), "10");
    assert_eq!(u64_to_decimal(1234567890), "1234567890");
    assert_eq!(u64_to_decimal(u64::MAX), "18446744073709551615");
}

#[test]
fn status_line_with_rate() {
    let monitor = IndeterminateProgressMonitor::new(1000);
    // One mebibyte in one second: one mebibyte per second.
    let line = monitor.set_progress(1048576, 2000);
    assert_eq!(line, "1.00 MiB; 1.00 MiB/s");
}

#[test]
fn status_line_rate_halved_over_two_seconds() {
    let monitor = IndeterminateProgressMonitor::new(0);
    // Five mebibytes in two seconds.
    let line = monitor.set_progress(5 * 1048576, 2000);
    assert_eq!(line, "5.00 MiB; 2.50 MiB/s");
}

#[test]
fn status_line_without_elapsed_time() {
    let monitor = IndeterminateProgressMonitor::new(500);
    let line = monitor.set_progress(1048576, 500);
    assert_eq!(line, "1.00 MiB; -- MiB/s");
}

#[test]
fn status_line_pads_fraction() {
    let monitor = IndeterminateProgressMonitor::new(0);
    // 1.5 MiB transferred in one second.
    let line = monitor.set_progress(1572864, 1000);
    assert_eq!(line, "1.50 MiB; 1.50 MiB/s");
    // A few bytes round down to 0.00.
    let line = monitor.set_progress(100, 1000);
    assert_eq!(line, "0.00 MiB; 0.00 MiB/s");
    // 0.05 MiB keeps its leading zero in the fraction.
    let line = monitor.set_progress(52429, 1000);
    assert_eq!(line, "0.05 MiB; 0.05 MiB/s");
}

#[test]
fn clock_going_backwards_counts_as_no_time() {
    let monitor = IndeterminateProgressMonitor::new(10_000);
    let line = monitor.set_progress(1048576, 9_000);
    assert_eq!(line, "1.00 MiB; -- MiB/s");
}
