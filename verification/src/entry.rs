//! One record of the activity log.

use vstd::prelude::*;

verus! {

/// Mathematical value of a [`LogEntry`].
pub struct EntryModel {
    /// Wall-clock text, hour:minute:second.
    pub timestamp: Seq<char>,
    /// HTTP status code of the response.
    pub status_code: u16,
    /// Request path.
    pub path: Seq<char>,
}

/// A served request: when it was answered, with which status, on which path.
///
/// The fields are private and there is no setter, so an entry never changes
/// after it has been made.
#[derive(Debug)]
pub struct LogEntry {
    timestamp: String,
    status_code: u16,
    path: String,
}

impl View for LogEntry {
    type V = EntryModel;

    closed spec fn view(&self) -> EntryModel {
        EntryModel {
            timestamp: self.timestamp@,
            status_code: self.status_code,
            path: self.path@,
        }
    }
}

/// The values of a list of entries, in the same order.
pub open spec fn entry_models(entries: Seq<LogEntry>) -> Seq<EntryModel> {
    entries.map_values(|entry: LogEntry| entry@)
}

impl Clone for LogEntry {
    fn clone(&self) -> (copy: Self)
        ensures
            copy@ == self@,
    {
        LogEntry {
            timestamp: self.timestamp.clone(),
            status_code: self.status_code,
            path: self.path.clone(),
        }
    }
}

impl LogEntry {
    /// Makes an entry from its three parts.
    pub fn new(timestamp: String, status_code: u16, path: String) -> (entry: Self)
        ensures
            entry@ == (EntryModel { timestamp: timestamp@, status_code, path: path@ }),
    {
        LogEntry { timestamp, status_code, path }
    }

    /// The wall-clock text of the entry.
    pub fn timestamp(&self) -> (text: &str)
        ensures
            text@ == self@.timestamp,
    {
        self.timestamp.as_str()
    }

    /// The status code of the entry.
    pub fn status_code(&self) -> (code: u16)
        ensures
            code == self@.status_code,
    {
        self.status_code
    }

    /// The request path of the entry.
    pub fn path(&self) -> (text: &str)
        ensures
            text@ == self@.path,
    {
        self.path.as_str()
    }
}

} // verus!
