//! A recording that was started without asking, from the request to open the microphone to the
//! moment it should end.

use vstd::prelude::*;

use crate::clock::{Instant, SECOND};
use crate::detect::Source;

verus! {

/// A meeting that ends is reported after the detector's own debounce; this grace on top of it
/// lets a dropped microphone that comes straight back keep one recording rather than two. The
/// end-of-call question shows for this long: "stop" ends the recording at once, "keep going"
/// waits for the meeting to come back. Ten seconds into the absence of the meeting the recording
/// still goes on.
pub const END_GRACE: u128 = 11 * SECOND;

/// Safety net for a call the detector never sees end.
pub const MAX_AUTO_RECORDING: u128 = 3 * 60 * 60 * SECOND;

/// How long the main window gets to actually open the microphone after being asked to.
pub const START_TIMEOUT: u128 = 15 * SECOND;

/// Where the transcript of an automatic recording goes: the destination everyone shares, or the
/// user's personal folder.
#[derive(Clone, Copy, Debug, PartialEq, Eq, Structural)]
pub enum RecordingScope {
    Shared,
    Personal,
}

/// What the main window needs to know about an automatic recording once it stopped.
#[derive(Clone, Copy, Debug, PartialEq, Eq, Structural)]
pub struct FinishedAutoRecording {
    /// None when nobody chose before the call ended; the main window applies its default.
    pub scope: Option<RecordingScope>,
}

/// Why an automatic recording should stop.
pub enum StopCause {
    NeverStarted,
    MaximumDuration,
    MeetingEnded,
}

impl StopCause {
    /// The cause in words.
    pub open spec fn text(self) -> Seq<char> {
        match self {
            StopCause::NeverStarted => "the recording never started"@,
            StopCause::MaximumDuration => "the maximum duration was reached"@,
            StopCause::MeetingEnded => "the meeting ended"@,
        }
    }
}

/// A recording that was started without asking, so that it can also be ended.
#[derive(Clone, Copy, Debug, PartialEq, Eq, Structural)]
pub struct AutoRecording {
    pub source: Source,
    pub requested_at: Instant,
    /// Set once the main window confirmed the microphone is open.
    pub started_at: Option<Instant>,
    /// Set while the detector reports the meeting gone; cleared if it comes back within the grace.
    pub ended_since: Option<Instant>,
    /// Where the user wants the transcript, once chosen on the notice.
    pub scope: Option<RecordingScope>,
    /// The user said the call is not over: the meeting being gone is not an end again until the
    /// detector has seen it come back.
    pub awaiting_return: bool,
    /// A stop was already sent to the main window; the finish clears this recording.
    pub stop_requested: bool,
}

impl AutoRecording {
    /// A recording of `source` that was just asked for.
    pub open spec fn requested(source: Source, now: Instant) -> AutoRecording {
        AutoRecording {
            source,
            requested_at: now,
            started_at: None,
            ended_since: None,
            scope: None,
            awaiting_return: false,
            stop_requested: false,
        }
    }

    /// The absence of the meeting would be news: nobody is being asked about it, and nobody said
    /// to wait for its return.
    pub open spec fn expects_meeting(self) -> bool {
        !self.awaiting_return && self.ended_since is None
    }

    /// This recording after the detector saw the meeting, or did not see it, at `now`.
    pub open spec fn observed(self, meeting_active: bool, now: Instant) -> AutoRecording {
        if meeting_active {
            AutoRecording { awaiting_return: false, ended_since: None, ..self }
        } else if self.expects_meeting() {
            AutoRecording { ended_since: Some(now), ..self }
        } else {
            self
        }
    }

    /// What becomes of the end-of-call question when the detector sees the meeting or does not:
    /// it is shown, taken away, or left as it is.
    pub open spec fn question(self, meeting_active: bool) -> Option<bool> {
        if meeting_active && self.ended_since is Some {
            Some(false)
        } else if !meeting_active && self.expects_meeting() {
            Some(true)
        } else {
            None
        }
    }

    /// This recording after the user said the call is not over.
    pub open spec fn kept_going(self) -> AutoRecording {
        AutoRecording { awaiting_return: true, ended_since: None, ..self }
    }

    /// Why this recording should stop at `now`, if it should.
    pub open spec fn stop_cause(self, now: Instant) -> Option<StopCause> {
        match self.started_at {
            None => if now.elapsed_since(self.requested_at) >= START_TIMEOUT {
                Some(StopCause::NeverStarted)
            } else {
                None
            },
            Some(started_at) => if now.elapsed_since(started_at) >= MAX_AUTO_RECORDING {
                Some(StopCause::MaximumDuration)
            } else if self.ended_since is Some && now.elapsed_since(self.ended_since->0)
                >= END_GRACE {
                Some(StopCause::MeetingEnded)
            } else {
                None
            },
        }
    }

    /// A recording of `source` that is being asked for at `now`.
    pub fn new(source: Source, now: Instant) -> (auto: AutoRecording)
        ensures
            auto == AutoRecording::requested(source, now),
    {
        AutoRecording {
            source,
            requested_at: now,
            started_at: None,
            ended_since: None,
            scope: None,
            awaiting_return: false,
            stop_requested: false,
        }
    }

    /// Whether the microphone is known to be open.
    pub fn is_running(&self) -> (r: bool)
        ensures
            r == self.started_at is Some,
    {
        self.started_at.is_some()
    }

    /// The detector's view of the meeting: starts the end-of-call grace when it goes away and
    /// cancels it when it comes back. Returns whether the end-of-call question should be shown
    /// (`Some(true)`) or taken away (`Some(false)`).
    pub fn observe(&mut self, meeting_active: bool, now: Instant) -> (question: Option<bool>)
        ensures
            *final(self) == old(self).observed(meeting_active, now),
            question == old(self).question(meeting_active),
    {
        if meeting_active {
            self.awaiting_return = false;
            match self.ended_since.take() {
                Some(_) => Some(false),
                None => None,
            }
        } else if self.awaiting_return || self.ended_since.is_some() {
            None
        } else {
            self.ended_since = Some(now);
            Some(true)
        }
    }

    /// The user answered "keep going" to the end-of-call question.
    pub fn keep_going(&mut self)
        ensures
            *final(self) == old(self).kept_going(),
    {
        self.awaiting_return = true;
        self.ended_since = None;
    }

    /// Why this recording should stop now, if it should.
    pub fn stop_reason(&self, now: Instant) -> (reason: Option<&'static str>)
        ensures
            match self.stop_cause(now) {
                None => reason is None,
                Some(cause) => reason is Some && reason->0@ == cause.text(),
            },
    {
        match self.started_at {
            None => if now.duration_since(self.requested_at) >= START_TIMEOUT {
                Some("the recording never started")
            } else {
                None
            },
            Some(started_at) => {
                if now.duration_since(started_at) >= MAX_AUTO_RECORDING {
                    return Some("the maximum duration was reached");
                }
                match self.ended_since {
                    Some(since) => if now.duration_since(since) >= END_GRACE {
                        Some("the meeting ended")
                    } else {
                        None
                    },
                    None => None,
                }
            },
        }
    }
}

} // verus!
