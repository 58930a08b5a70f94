//! Human-readable text for elapsed time: a full breakdown over eight units,
//! a short "N and M" summary, and relative phrases such as "3 days ago".
pub mod pretty;
pub mod relative;
pub mod split;

pub use pretty::{pretty_full, pretty_short, render_full, render_short};
pub use relative::{elapsed, relative_time, Timestamp};
pub use split::{split_duration, Duration, SplitDuration, TimePeriod};
