use sigma_racer_efi::datalog::{EdgeIntervals, EdgeReport};

#[test]
fn first_edge_yields_no_report() {
    let mut intervals = EdgeIntervals::new();
    assert_eq!(intervals.record(1_000), None);
    assert_eq!(intervals.count(), 1);
}

#[test]
fn uniform_edges_report_unity_gap_ratio() {
    let mut intervals = EdgeIntervals::new();
    intervals.record(0);
    intervals.record(1_000);
    let report = intervals.record(2_000).unwrap();
    assert_eq!(report.period_us, 1_000);
    assert_eq!(report.gap_ratio_x100, 100);
}

#[test]
fn missing_tooth_gap_shows_double_then_half_ratio() {
    let mut intervals = EdgeIntervals::new();
    intervals.record(0);
    intervals.record(1_000);
    intervals.record(2_000);
    let gap = intervals.record(4_000).unwrap();
    assert_eq!(gap.period_us, 2_000);
    assert_eq!(gap.gap_ratio_x100, 200);
    let after = intervals.record(5_000).unwrap();
    assert_eq!(after.period_us, 1_000);
    assert_eq!(after.gap_ratio_x100, 50);
}

#[test]
fn second_edge_reports_period_without_ratio() {
    let mut intervals = EdgeIntervals::new();
    intervals.record(10);
    assert_eq!(
        intervals.record(35),
        Some(EdgeReport { count: 2, period_us: 25, gap_ratio_x100: 0 })
    );
}

#[test]
fn backwards_and_huge_periods_are_clamped() {
    let mut intervals = EdgeIntervals::new();
    intervals.record(5_000);
    let back = intervals.record(1_000).unwrap();
    assert_eq!(back.period_us, 0);
    let huge = intervals.record(1_000 + 10_000_000_000).unwrap();
    assert_eq!(huge.period_us, u32::MAX);
    // The previous period was zero: no ratio.
    assert_eq!(huge.gap_ratio_x100, 0);
    let tiny = intervals.record(1_000 + 10_000_000_001).unwrap();
    assert_eq!(tiny.period_us, 1);
    assert_eq!(tiny.gap_ratio_x100, 0);
    let big = intervals.record(1_000 + 10_000_000_001 + 4_000_000_000).unwrap();
    assert_eq!(big.gap_ratio_x100, u32::MAX);
    assert_eq!(intervals.count(), 5);
}

#[test]
fn default_intervals_start_empty() {
    let mut intervals = EdgeIntervals::default();
    assert_eq!(intervals.count(), 0);
    assert_eq!(intervals.record(7), None);
}
