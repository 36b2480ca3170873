//! The state behind the prompt window, and what each event asks of the program around it.
//!
//! An event changes the state and returns what to do: show or hide the window, start a recording
//! or stop one. Where what comes next depends on whether that worked, a second method takes in
//! the result.

use vstd::prelude::*;

use crate::auto_recording::{AutoRecording, FinishedAutoRecording, RecordingScope};
use crate::clock::Instant;
use crate::detect::{MeetingState, Source};
use crate::prompt_logic::{MeetingPromptPayload, PromptLogic, PromptMode};

#[allow(unused_imports)]
use crate::auto_recording::StopCause;

verus! {

/// What to record.
#[derive(Clone, Copy, Debug, PartialEq, Eq, Structural)]
pub struct RecordingOptions {
    pub microphone: bool,
    pub system_audio: bool,
}

/// What to do with the prompt window.
#[derive(Clone, Copy, Debug, PartialEq, Eq, Structural)]
pub enum PromptAction {
    Show(MeetingPromptPayload),
    Hide,
}

/// What a detector report asks for.
#[derive(Clone, Copy, Debug, PartialEq, Eq, Structural)]
pub enum DetectionOutcome {
    /// Ask the main window to record this meeting, and hand the result of asking to
    /// [`MeetingPromptRuntime::start_auto_recording`].
    Record { source: Source, options: RecordingOptions },
    /// Do with the window first what the end-of-call question asks for, then what the question
    /// whether to record asks for.
    Window { ending: Option<PromptAction>, question: Option<PromptAction> },
}

/// What a poll of the clock asks for.
#[derive(Clone, Copy, Debug, PartialEq, Eq)]
pub enum TickOutcome {
    Nothing,
    /// The recording was asked for but never started; there is nothing to stop.
    NeverStarted,
    /// Hide the window and stop the recording, for this reason.
    Stop(&'static str),
}

/// What the user's wish to stop asks for.
#[derive(Clone, Copy, Debug, PartialEq, Eq, Structural)]
pub enum StopRequest {
    Nothing,
    /// The microphone is not even open yet, so nothing is worth keeping: cancel the recording.
    Cancel,
    /// Stop the recording.
    Stop,
}

/// What the start of a recording asks for.
#[derive(Clone, Copy, Debug, PartialEq, Eq, Structural)]
pub struct StartedOutcome {
    /// Hide the window.
    pub hide: bool,
    /// Stop the recording that just started: it was cancelled before.
    pub stop: bool,
}

/// The state behind the prompt window.
#[derive(Clone, Copy, Debug, PartialEq, Eq, Structural)]
pub struct MeetingPromptRuntime {
    pub logic: PromptLogic,
    /// The automatic recording that is under way.
    pub auto: Option<AutoRecording>,
    /// The user cancelled an automatic recording before the microphone opened: stop it as soon
    /// as it does.
    pub cancel_pending: bool,
    /// The automatic recording that just stopped, until the main window collects it.
    pub finished: Option<FinishedAutoRecording>,
}

impl Default for MeetingPromptRuntime {
    fn default() -> (runtime: MeetingPromptRuntime)
        ensures
            runtime == MeetingPromptRuntime::idle(),
            runtime.well_formed(),
    {
        MeetingPromptRuntime {
            logic: PromptLogic::default(),
            auto: None,
            cancel_pending: false,
            finished: None,
        }
    }
}

/// What is shown of a window's content: nothing while meeting detection is off.
pub fn show_state(enabled: bool, state: MeetingPromptPayload) -> (shown: Option<
    MeetingPromptPayload,
>)
    ensures
        shown == (if enabled {
            Some(state)
        } else {
            None
        }),
{
    if !enabled {
        return None;
    }
    Some(state)
}

/// The notice that a recording of `source` started on its own, if the main window could be asked
/// for one.
pub fn recording_notice(source: Source, sent: bool) -> (notice: Option<MeetingPromptPayload>)
    ensures
        notice == (if sent {
            Some(MeetingPromptPayload { source, mode: PromptMode::Recording })
        } else {
            None
        }),
{
    if !sent {
        return None;
    }
    Some(MeetingPromptPayload { source, mode: PromptMode::Recording })
}

impl MeetingPromptRuntime {
    /// Nothing detected, nothing asked, nothing being recorded.
    pub open spec fn idle() -> MeetingPromptRuntime {
        MeetingPromptRuntime {
            logic: PromptLogic::idle(),
            auto: None,
            cancel_pending: false,
            finished: None,
        }
    }

    /// The question, if there is one, may be asked.
    pub open spec fn well_formed(self) -> bool {
        self.logic.well_formed()
    }

    /// The meeting that a detector report makes this program record without asking: one in a
    /// microphone session that was not dismissed, while nothing is being recorded or about to be.
    pub open spec fn starts(self, state: MeetingState, auto_record: bool) -> Option<Source> {
        if auto_record && state.recording && self.auto is None && self.logic.own_recordings == 0
            && !self.logic.dismissed {
            state.source
        } else {
            None
        }
    }

    /// After a detector report.
    pub open spec fn after_detection(
        self,
        state: MeetingState,
        auto_record: bool,
        now: Instant,
    ) -> MeetingPromptRuntime {
        match self.starts(state, auto_record) {
            Some(source) => MeetingPromptRuntime {
                logic: self.logic.after_detection(state).after_dismissal(),
                auto: Some(AutoRecording::requested(source, now)),
                ..self
            },
            None => MeetingPromptRuntime {
                logic: self.logic.after_detection(state),
                auto: match self.auto {
                    Some(auto) => Some(auto.observed(state.recording, now)),
                    None => None,
                },
                ..self
            },
        }
    }

    /// What becomes of the end-of-call question on a detector report.
    pub open spec fn ending_action(self, state: MeetingState) -> Option<PromptAction> {
        match self.auto {
            Some(auto) => match auto.question(state.recording) {
                Some(true) => Some(
                    PromptAction::Show(
                        MeetingPromptPayload { source: auto.source, mode: PromptMode::Ending },
                    ),
                ),
                Some(false) => Some(PromptAction::Hide),
                None => None,
            },
            None => None,
        }
    }

    /// What becomes of the question whether to record on a detector report.
    pub open spec fn question_action(self, state: MeetingState) -> Option<PromptAction> {
        let current = self.logic.after_detection(state).current;
        if current == self.logic.current {
            None
        } else {
            match current {
                Some(payload) => Some(PromptAction::Show(payload)),
                None => Some(PromptAction::Hide),
            }
        }
    }

    /// What a detector report asks for.
    pub open spec fn detection_outcome(
        self,
        state: MeetingState,
        auto_record: bool,
    ) -> DetectionOutcome {
        match self.starts(state, auto_record) {
            Some(source) => DetectionOutcome::Record {
                source,
                options: RecordingOptions { microphone: true, system_audio: true },
            },
            None => DetectionOutcome::Window {
                ending: self.ending_action(state),
                question: self.question_action(state),
            },
        }
    }

    /// Why the automatic recording should be stopped at `now`, if it should and no stop was sent.
    pub open spec fn due(self, now: Instant) -> Option<StopCause> {
        match self.auto {
            Some(auto) => if auto.stop_requested {
                None
            } else {
                auto.stop_cause(now)
            },
            None => None,
        }
    }

    /// After a poll of the clock: a recording that should stop is marked as told to, and one that
    /// never started is forgotten.
    pub open spec fn after_tick(self, now: Instant) -> MeetingPromptRuntime {
        match self.due(now) {
            Some(StopCause::NeverStarted) => MeetingPromptRuntime { auto: None, ..self },
            Some(_) => self.after_stop_sent(),
            None => self,
        }
    }

    /// After the automatic recording was told to stop.
    pub open spec fn after_stop_sent(self) -> MeetingPromptRuntime {
        MeetingPromptRuntime {
            auto: match self.auto {
                Some(auto) => Some(AutoRecording { stop_requested: true, ..auto }),
                None => None,
            },
            ..self
        }
    }

    /// What the user's wish to stop asks for.
    pub open spec fn stop_request(self) -> StopRequest {
        match self.auto {
            Some(auto) => if auto.stop_requested {
                StopRequest::Nothing
            } else if auto.started_at is None {
                StopRequest::Cancel
            } else {
                StopRequest::Stop
            },
            None => StopRequest::Nothing,
        }
    }

    /// After the automatic recording was cancelled.
    pub open spec fn after_cancel(self) -> MeetingPromptRuntime {
        MeetingPromptRuntime { logic: self.logic.after_dismissal(), auto: None, ..self }
    }

    /// After the main window was told to discard the recording that was `cancelled`.
    pub open spec fn after_discard(self, cancelled: AutoRecording) -> MeetingPromptRuntime {
        MeetingPromptRuntime {
            cancel_pending: self.cancel_pending || cancelled.started_at is None,
            ..self
        }
    }

    /// After a destination for the transcript was chosen.
    pub open spec fn after_scope(self, scope: RecordingScope) -> MeetingPromptRuntime {
        MeetingPromptRuntime {
            auto: match self.auto {
                Some(auto) => Some(AutoRecording { scope: Some(scope), ..auto }),
                None => None,
            },
            ..self
        }
    }

    /// After the user said the call is not over.
    pub open spec fn after_continue(self) -> MeetingPromptRuntime {
        MeetingPromptRuntime {
            auto: match self.auto {
                Some(auto) => Some(auto.kept_going()),
                None => None,
            },
            ..self
        }
    }

    /// After a recording of this program started at `now`.
    pub open spec fn after_started(self, now: Instant) -> MeetingPromptRuntime {
        MeetingPromptRuntime {
            logic: self.logic.after_recording_started(),
            auto: match self.auto {
                Some(auto) => Some(
                    AutoRecording {
                        started_at: Some(
                            match auto.started_at {
                                Some(at) => at,
                                None => now,
                            },
                        ),
                        ..auto
                    },
                ),
                None => None,
            },
            cancel_pending: false,
            ..self
        }
    }

    /// After a recording of this program stopped.
    pub open spec fn after_stopped(self) -> MeetingPromptRuntime {
        MeetingPromptRuntime {
            logic: self.logic.after_recording_stopped(),
            auto: None,
            finished: match self.auto {
                Some(auto) => Some(FinishedAutoRecording { scope: auto.scope }),
                None => self.finished,
            },
            ..self
        }
    }

    /// After the detector was switched off.
    pub open spec fn after_detector_stopped(self) -> MeetingPromptRuntime {
        MeetingPromptRuntime { logic: self.logic.after_reset(), auto: None, ..self }
    }

    /// Takes in a detector report. The meeting going away starts the end-of-call grace of an
    /// automatic recording and shows its question; coming back within it cancels both.
    pub fn apply_detection(
        &mut self,
        state: MeetingState,
        auto_record: bool,
        now: Instant,
    ) -> (outcome: DetectionOutcome)
        ensures
            *final(self) == old(self).after_detection(state, auto_record, now),
            outcome == old(self).detection_outcome(state, auto_record),
            final(self).well_formed(),
    {
        let changed = self.logic.detection(state);
        let mut ending: Option<PromptAction> = None;
        if let Some(recording) = self.auto {
            let mut auto = recording;
            let question = auto.observe(state.recording, now);
            self.auto = Some(auto);
            ending = match question {
                Some(true) => Some(
                    PromptAction::Show(
                        MeetingPromptPayload { source: auto.source, mode: PromptMode::Ending },
                    ),
                ),
                Some(false) => Some(PromptAction::Hide),
                None => None,
            };
        }
        let start = auto_record && state.recording && self.auto.is_none()
            && self.logic.own_recordings == 0 && !self.logic.dismissed;
        if let Some(source) = state.source {
            if start {
                self.auto = Some(AutoRecording::new(source, now));
                self.logic.suppress_question();
                return DetectionOutcome::Record {
                    source,
                    options: RecordingOptions { microphone: true, system_audio: true },
                };
            }
        }
        let question = if changed {
            match self.logic.current {
                Some(payload) => Some(PromptAction::Show(payload)),
                None => Some(PromptAction::Hide),
            }
        } else {
            None
        };
        DetectionOutcome::Window { ending, question }
    }

    /// Takes in whether the main window could be asked to record `source`. Returns the notice to
    /// show; without an answer to wait for, the recording is forgotten.
    pub fn start_auto_recording(&mut self, source: Source, sent: bool) -> (notice: Option<
        MeetingPromptPayload,
    >)
        ensures
            *final(self) == (if sent {
                *old(self)
            } else {
                MeetingPromptRuntime { auto: None, ..*old(self) }
            }),
            notice == (if sent {
                Some(MeetingPromptPayload { source, mode: PromptMode::Recording })
            } else {
                None
            }),
    {
        if !sent {
            self.clear_auto();
        }
        recording_notice(source, sent)
    }

    /// Forgets the automatic recording, and returns it.
    pub fn clear_auto(&mut self) -> (auto: Option<AutoRecording>)
        ensures
            *final(self) == (MeetingPromptRuntime { auto: None, ..*old(self) }),
            auto == old(self).auto,
    {
        self.auto.take()
    }

    /// To be called on every poll of the detector: ends an automatic recording whose meeting is
    /// over, that never started, or that has run for too long. The recording itself stays until
    /// the main window reports the finish, so that its scope can still be collected.
    pub fn tick_auto(&mut self, now: Instant) -> (outcome: TickOutcome)
        ensures
            *final(self) == old(self).after_tick(now),
            match old(self).due(now) {
                None => outcome == TickOutcome::Nothing,
                Some(StopCause::NeverStarted) => outcome == TickOutcome::NeverStarted,
                Some(cause) => outcome matches TickOutcome::Stop(reason) && reason@ == cause.text(),
            },
    {
        let mut auto = match self.auto {
            Some(auto) => auto,
            None => {
                return TickOutcome::Nothing;
            },
        };
        if auto.stop_requested {
            return TickOutcome::Nothing;
        }
        let reason = match auto.stop_reason(now) {
            Some(reason) => reason,
            None => {
                return TickOutcome::Nothing;
            },
        };
        if auto.started_at.is_none() {
            // A recording that never opened the microphone has nothing to stop.
            self.auto = None;
            return TickOutcome::NeverStarted;
        }
        auto.stop_requested = true;
        self.auto = Some(auto);
        TickOutcome::Stop(reason)
    }

    /// The detector was switched off. The count of this program's own recordings stays: otherwise
    /// switching it on again during one could prompt for the program's own microphone session. An
    /// automatic recording in flight keeps going; without the detector nobody would end it, so it
    /// becomes an ordinary recording the user stops.
    pub fn stop_worker(&mut self)
        ensures
            *final(self) == old(self).after_detector_stopped(),
            final(self).well_formed(),
    {
        self.logic.reset_detection();
        self.auto = None;
    }

    /// The question that is being asked.
    pub fn get_meeting_prompt_state(&self) -> (state: Option<MeetingPromptPayload>)
        ensures
            state == self.logic.current,
    {
        self.logic.current
    }

    /// The user closed the window. It is to be hidden whatever it shows: the notice of an
    /// automatic recording is not a question that is tracked here.
    pub fn dismiss_meeting_prompt(&mut self) -> (action: PromptAction)
        ensures
            *final(self) == (MeetingPromptRuntime {
                logic: old(self).logic.after_dismissal(),
                ..*old(self)
            }),
            action == PromptAction::Hide,
            final(self).well_formed(),
    {
        self.logic.dismiss();
        PromptAction::Hide
    }

    /// The user declined the recording that started on its own. Returns that recording, which the
    /// main window is to be told to discard; once it was, [`MeetingPromptRuntime::discarded`]
    /// says whether to stop it.
    pub fn cancel_auto_recording(&mut self) -> (cancelled: Option<AutoRecording>)
        ensures
            *final(self) == old(self).after_cancel(),
            cancelled == old(self).auto,
            final(self).well_formed(),
    {
        let cancelled = self.clear_auto();
        self.logic.suppress_question();
        cancelled
    }

    /// The main window was told to discard the recording that was `cancelled`, so that it knows
    /// what a stop means before the finish arrives. Returns whether to stop the recording now;
    /// one whose microphone may still be opening is stopped the moment it reports in.
    pub fn discarded(&mut self, cancelled: AutoRecording) -> (stop: bool)
        ensures
            *final(self) == old(self).after_discard(cancelled),
            stop == cancelled.started_at is Some,
    {
        if !cancelled.is_running() {
            self.cancel_pending = true;
            return false;
        }
        true
    }

    /// The user chose where the transcript of the automatic recording should go.
    pub fn choose_recording_scope(&mut self, scope: RecordingScope)
        ensures
            *final(self) == old(self).after_scope(scope),
    {
        if let Some(recording) = self.auto {
            let mut auto = recording;
            auto.scope = Some(scope);
            self.auto = Some(auto);
        }
    }

    /// The call looked over but the user says it is not: keep recording until the detector sees
    /// the meeting again and then end.
    pub fn continue_auto_recording(&mut self)
        ensures
            *final(self) == old(self).after_continue(),
    {
        if let Some(recording) = self.auto {
            let mut auto = recording;
            auto.keep_going();
            self.auto = Some(auto);
        }
    }

    /// The user confirmed the call is over: stop now instead of waiting out the grace.
    pub fn stop_auto_recording(&mut self) -> (request: StopRequest)
        ensures
            *final(self) == old(self).after_stop_sent(),
            request == old(self).stop_request(),
    {
        let mut auto = match self.auto {
            Some(auto) => auto,
            None => {
                return StopRequest::Nothing;
            },
        };
        if auto.stop_requested {
            return StopRequest::Nothing;
        }
        auto.stop_requested = true;
        self.auto = Some(auto);
        if auto.started_at.is_none() {
            StopRequest::Cancel
        } else {
            StopRequest::Stop
        }
    }

    /// The automatic recording that just stopped, once: the main window collects it to decide
    /// where the transcript goes.
    pub fn take_finished_auto_recording(&mut self) -> (finished: Option<FinishedAutoRecording>)
        ensures
            *final(self) == (MeetingPromptRuntime { finished: None, ..*old(self) }),
            finished == old(self).finished,
    {
        self.finished.take()
    }

    /// The window is ready for its content.
    pub fn meeting_prompt_ready(&self) -> (action: PromptAction)
        ensures
            action == (match self.logic.current {
                Some(payload) => PromptAction::Show(payload),
                None => PromptAction::Hide,
            }),
    {
        match self.get_meeting_prompt_state() {
            Some(payload) => PromptAction::Show(payload),
            None => PromptAction::Hide,
        }
    }

    /// A recording of this program started. The question hides when one does; the notice of an
    /// automatic one stays.
    pub fn recording_started(&mut self, now: Instant) -> (outcome: StartedOutcome)
        ensures
            *final(self) == old(self).after_started(now),
            outcome.hide == (old(self).logic.current is Some && old(self).auto is None),
            outcome.stop == old(self).cancel_pending,
            final(self).well_formed(),
    {
        if let Some(recording) = self.auto {
            let mut auto = recording;
            if auto.started_at.is_none() {
                auto.started_at = Some(now);
            }
            self.auto = Some(auto);
        }
        let stop = self.cancel_pending;
        self.cancel_pending = false;
        let asked = self.logic.recording_started();
        StartedOutcome { hide: asked && self.auto.is_none(), stop }
    }

    /// A recording of this program stopped. What the main window needs to know of an automatic
    /// one is kept until it asks.
    pub fn recording_stopped(&mut self)
        ensures
            *final(self) == old(self).after_stopped(),
            old(self).well_formed() ==> final(self).well_formed(),
    {
        self.logic.recording_stopped();
        if let Some(auto) = self.clear_auto() {
            self.finished = Some(FinishedAutoRecording { scope: auto.scope });
        }
    }
}

} // verus!
