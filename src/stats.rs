//! Presentation timing statistics, kept in nanoseconds and summarised once per
//! reporting period.
use vstd::prelude::*;

use crate::presentation::sat_add;

verus! {

/// Length of one reporting period.
pub const REPORT_PERIOD_NS: u64 = 1_000_000_000;

/// A gap between presentations longer than this is worth a warning.
pub const LARGE_GAP_NS: u64 = 50_000_000;

/// Summary of one reporting period.
#[derive(Debug, Clone, Copy, PartialEq, Eq, Structural)]
pub struct StatsReport {
    pub count: u64,
    pub average_ns: u64,
    pub min_ns: u64,
    pub max_ns: u64,
    /// The longest interval is more than twice the average.
    pub irregular: bool,
}

/// What recording one presentation yields.
#[derive(Debug, Clone, Copy, PartialEq, Eq, Structural)]
pub struct FrameRecord {
    /// Time since the previous presentation, if there was one.
    pub interval: Option<u64>,
    /// The interval is longer than `LARGE_GAP_NS`.
    pub large_gap: bool,
    /// Present when this presentation closed a reporting period.
    pub report: Option<StatsReport>,
}

pub struct FrameStats {
    pub last_frame: Option<u64>,
    pub frame_count: u64,
    pub total_ns: u64,
    pub min_ns: u64,
    pub max_ns: u64,
    pub last_report: u64,
}

pub open spec fn sat_sub(a: u64, b: u64) -> u64 {
    if a >= b { (a - b) as u64 } else { 0 }
}

pub open spec fn min_u64(a: u64, b: u64) -> u64 {
    if a <= b { a } else { b }
}

pub open spec fn max_u64(a: u64, b: u64) -> u64 {
    if a >= b { a } else { b }
}

impl FrameStats {
    /// Statistics with nothing recorded; the first period starts at `now`.
    pub fn new(now: u64) -> (r: FrameStats)
        ensures
            r.last_frame is None,
            r.frame_count == 0,
            r.total_ns == 0,
            r.min_ns == u64::MAX,
            r.max_ns == 0,
            r.last_report == now,
    {
        FrameStats {
            last_frame: None,
            frame_count: 0,
            total_ns: 0,
            min_ns: u64::MAX,
            max_ns: 0,
            last_report: now,
        }
    }

    /// Records a presentation at `now`. When statistics are disabled nothing is
    /// recorded. Otherwise the interval since the previous presentation joins
    /// the period's count, total, minimum and maximum; once a period has
    /// lasted `REPORT_PERIOD_NS`, its summary is returned and a new one starts.
    pub fn record_frame(&mut self, enabled: bool, now: u64) -> (r: FrameRecord)
        ensures
            !enabled ==> r == (FrameRecord { interval: None, large_gap: false, report: None })
                && *final(self) == *old(self),
            enabled ==> final(self).last_frame == Some(now),
            enabled && old(self).last_frame is None ==> {
                &&& r == (FrameRecord { interval: None, large_gap: false, report: None })
                &&& final(self).frame_count == old(self).frame_count
                &&& final(self).total_ns == old(self).total_ns
                &&& final(self).last_report == old(self).last_report
            },
            enabled && old(self).last_frame is Some ==> ({
                let dt = sat_sub(now, old(self).last_frame->0);
                let count = sat_add(old(self).frame_count, 1);
                let total = sat_add(old(self).total_ns, dt);
                let lo = min_u64(old(self).min_ns, dt);
                let hi = max_u64(old(self).max_ns, dt);
                let due = sat_sub(now, old(self).last_report) >= REPORT_PERIOD_NS;
                let avg = total / count;
                &&& r.interval == Some(dt)
                &&& r.large_gap == (dt > LARGE_GAP_NS)
                &&& due ==> {
                    &&& r.report == Some(StatsReport {
                        count,
                        average_ns: avg as u64,
                        min_ns: lo,
                        max_ns: hi,
                        irregular: hi as int > 2 * avg,
                    })
                    &&& final(self).frame_count == 0
                    &&& final(self).total_ns == 0
                    &&& final(self).min_ns == u64::MAX
                    &&& final(self).max_ns == 0
                    &&& final(self).last_report == now
                }
                &&& !due ==> {
                    &&& r.report is None
                    &&& final(self).frame_count == count
                    &&& final(self).total_ns == total
                    &&& final(self).min_ns == lo
                    &&& final(self).max_ns == hi
                    &&& final(self).last_report == old(self).last_report
                }
            }),
    {
        if !enabled {
            return FrameRecord { interval: None, large_gap: false, report: None };
        }
        let mut record = FrameRecord { interval: None, large_gap: false, report: None };
        if let Some(last) = self.last_frame {
            let dt = if now >= last { now - last } else { 0 };
            self.frame_count = if self.frame_count == u64::MAX { u64::MAX } else { self.frame_count + 1 };
            self.total_ns = if self.total_ns > u64::MAX - dt { u64::MAX } else { self.total_ns + dt };
            if dt < self.min_ns {
                self.min_ns = dt;
            }
            if dt > self.max_ns {
                self.max_ns = dt;
            }
            record.interval = Some(dt);
            record.large_gap = dt > LARGE_GAP_NS;
            let since_report = if now >= self.last_report { now - self.last_report } else { 0 };
            if since_report >= REPORT_PERIOD_NS {
                let avg = self.total_ns / self.frame_count;
                let irregular = avg <= u64::MAX / 2 && self.max_ns > 2 * avg;
                record.report = Some(StatsReport {
                    count: self.frame_count,
                    average_ns: avg,
                    min_ns: self.min_ns,
                    max_ns: self.max_ns,
                    irregular,
                });
                self.frame_count = 0;
                self.total_ns = 0;
                self.min_ns = u64::MAX;
                self.max_ns = 0;
                self.last_report = now;
            }
        }
        self.last_frame = Some(now);
        record
    }
}

} // verus!
