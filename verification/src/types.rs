//! Value types carried by the dashboard: one structured log line and one
//! windowed aggregation result, together with their mathematical views.

use vstd::prelude::*;
use vstd::string::StringExecFns;

verus! {

/// Mathematical view of a [`LogEntry`]: each field as a sequence of
/// characters.
pub struct LogView {
    pub timestamp: Seq<char>,
    pub level: Seq<char>,
    pub service: Seq<char>,
    pub message: Seq<char>,
}

/// One structured log line as delivered on the log channel. Immutable
/// once admitted to the buffer.
#[derive(Debug, Clone)]
pub struct LogEntry {
    pub timestamp: String,
    pub level: String,
    pub service: String,
    pub message: String,
}

impl View for LogEntry {
    type V = LogView;

    open spec fn view(&self) -> LogView {
        LogView {
            timestamp: self.timestamp@,
            level: self.level@,
            service: self.service@,
            message: self.message@,
        }
    }
}

/// The subject a filter pattern is tested against: level, service and
/// message joined by single spaces, in that order.
pub open spec fn subject_of(e: LogView) -> Seq<char> {
    e.level + " "@ + e.service + " "@ + e.message
}

impl LogEntry {
    /// Builds the filter-match subject for this record.
    pub fn match_subject(&self) -> (s: String)
        ensures
            s@ == subject_of(self@),
    {
        let mut s = self.level.clone();
        s.append(" ");
        s.append(self.service.as_str());
        s.append(" ");
        s.append(self.message.as_str());
        proof {
            assert(s@ =~= subject_of(self@));
        }
        s
    }
}

/// Mathematical view of an [`AggregatedStats`].
pub struct StatsView {
    pub window_start: Seq<char>,
    pub window_end: Seq<char>,
    pub total_count: u64,
    pub error_count: u64,
    pub top_service: Option<Seq<char>>,
}

/// One windowed aggregation result as delivered on the stats channel.
/// `top_service` is absent when the window contained no records.
#[derive(Debug, Clone)]
pub struct AggregatedStats {
    pub window_start: String,
    pub window_end: String,
    pub total_count: u64,
    pub error_count: u64,
    pub top_service: Option<String>,
}

impl View for AggregatedStats {
    type V = StatsView;

    open spec fn view(&self) -> StatsView {
        StatsView {
            window_start: self.window_start@,
            window_end: self.window_end@,
            total_count: self.total_count,
            error_count: self.error_count,
            top_service: match self.top_service {
                Some(s) => Some(s@),
                None => None,
            },
        }
    }
}

} // verus!
