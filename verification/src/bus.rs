//! The two logical bus channels and their classification. The event
//! loop hands the channel name of each incoming message to
//! [`classify_channel`] and decodes the payload accordingly.

use vstd::prelude::*;
use vstd::string::StringExecFns;

verus! {

/// Which logical channel a bus message arrived on.
#[derive(Debug, Clone, Copy, PartialEq, Eq, Structural)]
pub enum Channel {
    Logs,
    Stats,
    Unknown,
}

/// Name of the channel carrying single log records.
pub fn logs_channel() -> (s: &'static str)
    ensures
        s@ == "logs.ingest"@,
{
    "logs.ingest"
}

/// Name of the channel carrying arrays of stats snapshots.
pub fn stats_channel() -> (s: &'static str)
    ensures
        s@ == "stats.update"@,
{
    "stats.update"
}

/// Classifies a channel name: the log channel, the stats channel, or
/// an unrecognized one.
pub fn classify_channel(name: &String) -> (c: Channel)
    ensures
        c == (if name@ == "logs.ingest"@ {
            Channel::Logs
        } else if name@ == "stats.update"@ {
            Channel::Stats
        } else {
            Channel::Unknown
        }),
{
    if *name == String::from_str(logs_channel()) {
        Channel::Logs
    } else if *name == String::from_str(stats_channel()) {
        Channel::Stats
    } else {
        Channel::Unknown
    }
}

} // verus!
