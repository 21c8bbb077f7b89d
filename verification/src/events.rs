use vstd::prelude::*;

verus! {

/// One log line as the surface layers broadcast it.
#[derive(Debug)]
pub struct LogEvent {
    /// Milliseconds since the Unix epoch.
    pub timestamp: u64,
    pub level: String,
    pub message: String,
}

impl LogEvent {
    /// A log line stamped with the wall clock.
    pub fn new(level: &str, message: String) -> (r: LogEvent)
        ensures
            r.level@ == level@,
            r.message@ == message@,
    {
        LogEvent { timestamp: crate::clock::now_millis(), level: level.to_owned(), message }
    }
}

/// What the registry tells its listeners about instances.
#[derive(Debug)]
pub enum InstanceEvent {
    Created { id: String, torrent_name: String, info_hash: String, auto_started: bool },
    Deleted { id: String },
}

} // verus!
