//! What holds of the question whether to record, over any course of events.

use vstd::prelude::*;

use crate::detect::{MeetingState, Source};

#[allow(unused_imports)]
use crate::prompt_logic::{MeetingPromptPayload, PromptLogic, PromptMode};

verus! {

/// What can happen to the question.
pub ghost enum PromptEvent {
    Detection(MeetingState),
    Dismissed,
    RecordingStarted,
    Suppressed,
    RecordingStopped,
    Reset,
}

/// The state of the question after one event.
pub open spec fn after_event(logic: PromptLogic, event: PromptEvent) -> PromptLogic {
    match event {
        PromptEvent::Detection(state) => logic.after_detection(state),
        PromptEvent::Dismissed => logic.after_dismissal(),
        PromptEvent::RecordingStarted => logic.after_recording_started(),
        PromptEvent::Suppressed => logic.after_dismissal(),
        PromptEvent::RecordingStopped => logic.after_recording_stopped(),
        PromptEvent::Reset => logic.after_reset(),
    }
}

/// The state of the question after these events, in order.
pub open spec fn after_events(logic: PromptLogic, events: Seq<PromptEvent>) -> PromptLogic
    decreases events.len(),
{
    if events.len() == 0 {
        logic
    } else {
        after_event(after_events(logic, events.drop_last()), events.last())
    }
}

/// An event within a microphone session: neither the detector finding the microphone free, nor
/// the detector being switched off.
pub open spec fn within_session(event: PromptEvent) -> bool {
    match event {
        PromptEvent::Detection(state) => state.recording,
        PromptEvent::Reset => false,
        _ => true,
    }
}

/// All of these events are within one microphone session.
pub open spec fn all_within_session(events: Seq<PromptEvent>) -> bool {
    forall|i: int| 0 <= i < events.len() ==> within_session(#[trigger] events[i])
}

/// Whatever happens, a question is only ever asked about the meeting that was detected, while it
/// is not dismissed and while this program records nothing itself.
pub proof fn law_a_question_is_always_in_order(events: Seq<PromptEvent>)
    ensures
        after_events(PromptLogic::idle(), events).well_formed(),
    decreases events.len(),
{
    if events.len() > 0 {
        law_a_question_is_always_in_order(events.drop_last());
    }
}

/// Dismissal lasts as long as the microphone session: whatever happens within it, nothing is asked
/// and the session stays dismissed.
pub proof fn law_dismissal_lasts_for_the_session(logic: PromptLogic, events: Seq<PromptEvent>)
    requires
        logic.dismissed,
        logic.current is None,
        all_within_session(events),
    ensures
        after_events(logic, events).dismissed,
        after_events(logic, events).current is None,
    decreases events.len(),
{
    if events.len() > 0 {
        law_dismissal_lasts_for_the_session(logic, events.drop_last());
    }
}

/// Of all events only the detector finding the microphone free, or being switched off, clears
/// dismissal.
pub proof fn law_only_the_end_of_the_session_clears_dismissal(
    logic: PromptLogic,
    event: PromptEvent,
)
    requires
        logic.dismissed,
        !after_event(logic, event).dismissed,
    ensures
        event == PromptEvent::Reset || (event matches PromptEvent::Detection(state)
            && !state.recording),
{
}

/// A meeting that was detected is not asked about again in its microphone session once the
/// question was closed, was replaced by an automatic recording, or this program started to record;
/// not even after that recording stopped.
pub proof fn law_a_session_is_asked_about_once(
    logic: PromptLogic,
    event: PromptEvent,
    events: Seq<PromptEvent>,
)
    requires
        logic.detected is Some,
        event == PromptEvent::Dismissed || event == PromptEvent::Suppressed || event
            == PromptEvent::RecordingStarted,
        all_within_session(events),
    ensures
        after_events(after_event(logic, event), events).current is None,
{
    law_dismissal_lasts_for_the_session(after_event(logic, event), events);
}

/// A meeting that is detected while this program records is not asked about in its microphone
/// session either, not even after the recording stopped.
pub proof fn law_a_meeting_detected_while_recording_is_not_asked_about(
    logic: PromptLogic,
    state: MeetingState,
    events: Seq<PromptEvent>,
)
    requires
        logic.own_recordings > 0,
        state.recording,
        all_within_session(events),
    ensures
        after_events(logic.after_detection(state), events).current is None,
{
    law_dismissal_lasts_for_the_session(logic.after_detection(state), events);
}

/// Once the microphone was free, the next meeting is asked about, whatever happened before, unless
/// this program is recording.
pub proof fn law_a_new_session_is_asked_about(
    logic: PromptLogic,
    free: MeetingState,
    next: MeetingState,
    source: Source,
)
    requires
        !free.recording,
        next.recording,
        next.source == Some(source),
        logic.own_recordings == 0,
    ensures
        logic.after_detection(free).after_detection(next).current == Some(
            MeetingPromptPayload { source, mode: PromptMode::Ask },
        ),
{
}

/// A report that tells nothing new changes nothing.
pub proof fn law_a_repeated_report_changes_nothing(logic: PromptLogic, state: MeetingState)
    ensures
        logic.after_detection(state).after_detection(state) == logic.after_detection(state),
{
}

/// The end of a recording undoes its start as far as the count of recordings goes, unless that
/// count has reached its limit.
pub proof fn law_a_stop_undoes_the_count_of_a_start(logic: PromptLogic)
    requires
        logic.own_recordings < u32::MAX,
    ensures
        logic.after_recording_started().after_recording_stopped().own_recordings
            == logic.own_recordings,
{
}

} // verus!
