//! The stored records the export reads, modelled as plain values: sessions,
//! timeline cards, captured frames, day summaries and per-day activity
//! rollups.

use vstd::prelude::*;

use crate::category::ActivityCategory;
use crate::dates::DateYmd;

verus! {

/// One instant of a session, as plain calendar and clock values plus its
/// minute offset from the Unix epoch (for span arithmetic).
#[derive(Clone, Debug)]
pub struct SessionStamp {
    pub date: DateYmd,
    pub hour: u64,
    pub minute: u64,
    pub epoch_minutes: i64,
}

impl SessionStamp {
    pub open spec fn wf(self) -> bool {
        &&& self.date.wf()
        &&& self.hour < 24
        &&& self.minute < 60
        &&& -200_000_000_000 <= self.epoch_minutes <= 200_000_000_000
    }
}

/// A tag attached to a session.
#[derive(Clone, Debug)]
pub struct ActivityTag {
    pub category: ActivityCategory,
}

/// A continuous block of captured screen activity. Owned by storage;
/// read-only here.
#[derive(Clone, Debug)]
pub struct Session {
    pub id: Option<i64>,
    pub start_time: SessionStamp,
    pub end_time: SessionStamp,
    pub title: String,
    pub summary: String,
    pub tags: Vec<ActivityTag>,
    pub video_path: Option<String>,
}

impl Session {
    pub open spec fn wf(self) -> bool {
        &&& self.start_time.wf()
        &&& self.end_time.wf()
    }
}

/// A sub-interval of a session classified into one category, with RFC 3339
/// start and end text. Ordered by time within a session; read-only here.
#[derive(Clone, Debug)]
pub struct TimelineCardRecord {
    pub start_time: String,
    pub end_time: String,
    pub category: String,
    pub subcategory: String,
    pub title: String,
    pub summary: String,
}

/// A captured screenshot of a session.
#[derive(Clone, Debug)]
pub struct Frame {
    pub file_path: String,
}

/// One label/value entry of a day summary's usage patterns.
#[derive(Clone, Debug)]
pub struct UsagePattern {
    pub label: String,
    pub value: String,
}

/// One device entry of a day summary.
#[derive(Clone, Debug)]
pub struct DeviceStat {
    pub name: String,
    pub device_type: String,
    pub total_time: String,
    pub screenshots: i64,
}

/// The narrative summary of one day, produced by the external summarizer.
#[derive(Clone, Debug)]
pub struct DaySummary {
    pub date: DateYmd,
    pub summary_text: String,
    pub usage_patterns: Vec<UsagePattern>,
    pub device_stats: Vec<DeviceStat>,
    pub active_device_count: i64,
}

impl DaySummary {
    pub open spec fn wf(self) -> bool {
        &&& self.date.wf()
        &&& 0 <= self.active_device_count
    }
}

/// The stored per-day activity rollup: session count, total minutes and the
/// day's main categories.
#[derive(Clone, Debug)]
pub struct ActivityRollup {
    pub date: DateYmd,
    pub session_count: i64,
    pub total_duration_minutes: i64,
    pub main_categories: Vec<String>,
}

impl ActivityRollup {
    pub open spec fn wf(self) -> bool {
        &&& self.date.wf()
        &&& 0 <= self.session_count <= 1_000_000_000
        &&& 0 <= self.total_duration_minutes <= 1_000_000_000
        &&& self.main_categories@.len() <= 1000
    }
}

} // verus!
