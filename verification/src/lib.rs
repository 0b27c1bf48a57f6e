//! Verified engine that turns stored screen-activity records (sessions,
//! timeline cards, screenshots, day summaries) into a linked set of Markdown
//! documents for a note vault: daily notes, per-session notes, month and week
//! index tables, a weekly report with focus/productivity scores, and an
//! overview page.

pub mod aggregate;
pub mod category;
pub mod config;
pub mod dates;
pub mod exporter;
pub mod metrics;
pub mod model;
pub mod notes;
pub mod template;
pub mod text;
