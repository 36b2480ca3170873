//! When to ask whether a detected meeting should be recorded.

use vstd::prelude::*;

use crate::detect::{MeetingState, Source};

verus! {

/// What the prompt window shows: the question whether to record, the notice that a recording
/// started on its own (and where its transcript should go), or the end-of-call question.
#[derive(Clone, Copy, Debug, PartialEq, Eq, Structural)]
pub enum PromptMode {
    Ask,
    Recording,
    Ending,
}

/// The content of the prompt window.
#[derive(Clone, Copy, Debug, PartialEq, Eq, Structural)]
pub struct MeetingPromptPayload {
    pub source: Source,
    pub mode: PromptMode,
}

/// What is known of the current microphone session, and whether to ask about it.
#[derive(Clone, Copy, Debug, PartialEq, Eq, Structural)]
pub struct PromptLogic {
    /// The meeting that holds the microphone.
    pub detected: Option<Source>,
    /// The question that is being asked.
    pub current: Option<MeetingPromptPayload>,
    /// Nothing is asked any more in this microphone session.
    pub dismissed: bool,
    /// The recordings that this program itself is making.
    pub own_recordings: u32,
}

impl Default for PromptLogic {
    fn default() -> (logic: PromptLogic)
        ensures
            logic == PromptLogic::idle(),
            logic.well_formed(),
    {
        PromptLogic { detected: None, current: None, dismissed: false, own_recordings: 0 }
    }
}

impl PromptLogic {
    /// Nothing detected, nothing asked, nothing being recorded.
    pub open spec fn idle() -> PromptLogic {
        PromptLogic { detected: None, current: None, dismissed: false, own_recordings: 0 }
    }

    /// A question is only ever asked about the meeting that was detected, while it is not
    /// dismissed and while this program records nothing itself.
    pub open spec fn well_formed(self) -> bool {
        self.current matches Some(payload) ==> {
            &&& payload.mode == PromptMode::Ask
            &&& self.detected == Some(payload.source)
            &&& !self.dismissed
            &&& self.own_recordings == 0
        }
    }

    /// After the detector reported `state`.
    pub open spec fn after_detection(self, state: MeetingState) -> PromptLogic {
        if !state.recording {
            self.after_reset()
        } else {
            let dismissed = self.dismissed || self.own_recordings > 0;
            PromptLogic {
                detected: state.source,
                current: if dismissed || state.source is None {
                    None
                } else {
                    Some(MeetingPromptPayload { source: state.source->0, mode: PromptMode::Ask })
                },
                dismissed,
                own_recordings: self.own_recordings,
            }
        }
    }

    /// After the question was withdrawn for the rest of the microphone session.
    pub open spec fn after_dismissal(self) -> PromptLogic {
        PromptLogic {
            current: None,
            dismissed: self.dismissed || self.detected is Some,
            ..self
        }
    }

    /// After this program started to record.
    pub open spec fn after_recording_started(self) -> PromptLogic {
        PromptLogic {
            own_recordings: if self.own_recordings < u32::MAX {
                (self.own_recordings + 1) as u32
            } else {
                u32::MAX
            },
            ..self.after_dismissal()
        }
    }

    /// After a recording of this program stopped.
    pub open spec fn after_recording_stopped(self) -> PromptLogic {
        PromptLogic {
            own_recordings: if self.own_recordings > 0 {
                (self.own_recordings - 1) as u32
            } else {
                0
            },
            ..self
        }
    }

    /// After everything about the microphone session was forgotten.
    pub open spec fn after_reset(self) -> PromptLogic {
        PromptLogic { detected: None, current: None, dismissed: false, ..self }
    }

    /// Takes in what the detector reports. Returns whether the question changed.
    pub fn detection(&mut self, state: MeetingState) -> (changed: bool)
        ensures
            *final(self) == old(self).after_detection(state),
            changed == (final(self).current != old(self).current),
            final(self).well_formed(),
    {
        let before = self.current;
        if !state.recording {
            self.detected = None;
            self.current = None;
            self.dismissed = false;
        } else {
            self.detected = state.source;
            if self.own_recordings > 0 {
                self.dismissed = true;
            }
            self.current = match self.detected {
                Some(source) => if !self.dismissed && self.own_recordings == 0 {
                    Some(MeetingPromptPayload { source, mode: PromptMode::Ask })
                } else {
                    None
                },
                None => None,
            };
        }
        before != self.current
    }

    /// The user closed the question. Returns whether one was being asked.
    pub fn dismiss(&mut self) -> (asked: bool)
        ensures
            *final(self) == old(self).after_dismissal(),
            asked == old(self).current is Some,
            final(self).well_formed(),
    {
        if self.detected.is_some() {
            self.dismissed = true;
        }
        self.current.take().is_some()
    }

    /// This program started to record. Returns whether a question was being asked.
    pub fn recording_started(&mut self) -> (asked: bool)
        ensures
            *final(self) == old(self).after_recording_started(),
            asked == old(self).current is Some,
            final(self).well_formed(),
    {
        self.own_recordings = self.own_recordings.saturating_add(1);
        if self.detected.is_some() {
            self.dismissed = true;
        }
        self.current.take().is_some()
    }

    /// Automatic recording takes the place of the question for this microphone session.
    pub fn suppress_question(&mut self)
        ensures
            *final(self) == old(self).after_dismissal(),
            final(self).well_formed(),
    {
        if self.detected.is_some() {
            self.dismissed = true;
        }
        self.current = None;
    }

    /// A recording of this program stopped. The question does not come back: starting to record
    /// dismissed this microphone session, and only the detector seeing it end clears that.
    pub fn recording_stopped(&mut self)
        ensures
            *final(self) == old(self).after_recording_stopped(),
            old(self).well_formed() ==> final(self).well_formed(),
    {
        self.own_recordings = self.own_recordings.saturating_sub(1);
    }

    /// Forgets the microphone session, but not the recordings of this program.
    pub fn reset_detection(&mut self)
        ensures
            *final(self) == old(self).after_reset(),
            final(self).well_formed(),
    {
        self.detected = None;
        self.current = None;
        self.dismissed = false;
    }
}

} // verus!
