//! What a meeting detector reports.

use vstd::prelude::*;

verus! {

/// The service that hosts a meeting.
#[derive(Clone, Copy, Debug, PartialEq, Eq, Structural)]
pub enum Source {
    Zoom,
    Meet,
    CalVideo,
}

/// What the detector sees at one moment.
#[derive(Clone, Copy, Debug, PartialEq, Eq, Structural)]
pub struct MeetingState {
    /// Some other program holds the microphone.
    pub recording: bool,
    /// The meeting that the microphone was attributed to.
    pub source: Option<Source>,
}

/// A running program.
#[derive(Debug, PartialEq, Eq)]
pub struct ProcessInfo {
    pub pid: Option<u32>,
    pub name: String,
    pub executable: Option<String>,
    pub bundle_id: Option<String>,
}

impl Clone for ProcessInfo {
    fn clone(&self) -> (copy: Self)
        ensures
            copy == *self,
    {
        ProcessInfo {
            pid: self.pid,
            name: self.name.clone(),
            executable: self.executable.clone(),
            bundle_id: self.bundle_id.clone(),
        }
    }
}

} // verus!
