use smelter_vulkan::stats::{FrameRecord, FrameStats, StatsReport};

const MS: u64 = 1_000_000;

#[test]
fn disabled_stats_record_nothing() {
    let mut s = FrameStats::new(0);
    assert_eq!(s.record_frame(false, 10 * MS), FrameRecord { interval: None, large_gap: false, report: None });
    assert_eq!(s.last_frame, None);
}

#[test]
fn first_frame_has_no_interval() {
    let mut s = FrameStats::new(0);
    assert_eq!(s.record_frame(true, 5 * MS), FrameRecord { interval: None, large_gap: false, report: None });
    assert_eq!(s.last_frame, Some(5 * MS));
}

#[test]
fn intervals_accumulate_and_report_each_period() {
    let mut s = FrameStats::new(0);
    s.record_frame(true, 0);
    let r = s.record_frame(true, 10 * MS);
    assert_eq!(r.interval, Some(10 * MS));
    assert!(!r.large_gap);
    assert_eq!(r.report, None);
    let r = s.record_frame(true, 30 * MS);
    assert_eq!(r.interval, Some(20 * MS));
    assert_eq!(s.frame_count, 2);
    assert_eq!(s.min_ns, 10 * MS);
    assert_eq!(s.max_ns, 20 * MS);
    let r = s.record_frame(true, 1_000 * MS);
    assert!(r.large_gap);
    assert_eq!(
        r.report,
        Some(StatsReport { count: 3, average_ns: 1_000 * MS / 3, min_ns: 10 * MS, max_ns: 970 * MS, irregular: true })
    );
    assert_eq!(s.frame_count, 0);
    assert_eq!(s.total_ns, 0);
    assert_eq!(s.min_ns, u64::MAX);
    assert_eq!(s.last_report, 1_000 * MS);
}

#[test]
fn regular_frames_are_not_irregular() {
    let mut s = FrameStats::new(0);
    let mut report = None;
    let mut t = 0;
    s.record_frame(true, t);
    while report.is_none() {
        t += 20 * MS;
        report = s.record_frame(true, t).report;
    }
    let r = report.unwrap();
    assert_eq!(r.count, 50);
    assert_eq!(r.average_ns, 20 * MS);
    assert!(!r.irregular);
}

#[test]
fn clock_going_backwards_counts_as_zero_interval() {
    let mut s = FrameStats::new(0);
    s.record_frame(true, 50 * MS);
    assert_eq!(s.record_frame(true, 40 * MS).interval, Some(0));
}
