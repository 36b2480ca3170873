//! What the operations on the question do, in terms of what goes in and what comes out.

use vstd::prelude::*;

use crate::detect::{MeetingState, Source};
use crate::prompt_laws::PromptEvent;
use crate::prompt_logic::PromptLogic;

#[allow(unused_imports)]
use crate::prompt_laws::after_events;
#[allow(unused_imports)]
use crate::prompt_logic::PromptMode;

verus! {

/// How the question follows a detector report.
pub open spec fn follows_report(
    before: PromptLogic,
    state: MeetingState,
    after: PromptLogic,
) -> bool {
    // A report says nothing of this program's own recordings.
    &&& after.own_recordings == before.own_recordings
    // A free microphone ends the session, whatever there was of it.
    &&& !state.recording ==> after.detected is None && after.current is None && !after.dismissed
    // Otherwise the meeting is the one reported, and the session is dismissed if it was before or
    // if this program records.
    &&& state.recording ==> after.detected == state.source
    &&& state.recording ==> (after.dismissed <==> before.dismissed || before.own_recordings != 0)
    // A meeting is asked about exactly if it is named and its session is not dismissed.
    &&& state.recording ==> (after.current is Some <==> state.source is Some && !after.dismissed)
    &&& after.current is Some ==> after.current->0.mode == PromptMode::Ask
    &&& after.current is Some ==> Some(after.current->0.source) == state.source
}

/// How the question follows being withdrawn for the rest of the session, if there is a session.
pub open spec fn follows_withdrawal(before: PromptLogic, after: PromptLogic) -> bool {
    &&& after.detected == before.detected
    &&& after.current is None
    &&& after.dismissed <==> before.dismissed || before.detected is Some
}

/// How the question follows the session being forgotten.
pub open spec fn follows_reset(before: PromptLogic, after: PromptLogic) -> bool {
    &&& after.detected is None
    &&& after.current is None
    &&& !after.dismissed
    &&& after.own_recordings == before.own_recordings
}

/// One recording more, unless there are as many as can be counted.
pub open spec fn one_more(before: u32, after: u32) -> bool {
    if before == u32::MAX {
        after == u32::MAX
    } else {
        after == before + 1
    }
}

/// One recording less, unless there is none.
pub open spec fn one_less(before: u32, after: u32) -> bool {
    if before == 0 {
        after == 0
    } else {
        after == before - 1
    }
}

/// In the beginning nothing is detected, asked, dismissed or being recorded.
pub proof fn law_in_the_beginning_there_is_nothing(logic: PromptLogic)
    requires
        call_ensures(<PromptLogic as Default>::default, (), logic),
    ensures
        logic.detected is None,
        logic.current is None,
        !logic.dismissed,
        logic.own_recordings == 0,
{
}

/// A detection follows the report, and tells whether the question changed.
pub proof fn law_a_detection_follows_the_report(
    logic: &mut PromptLogic,
    state: MeetingState,
    changed: bool,
)
    requires
        call_ensures(PromptLogic::detection, (logic, state), changed),
    ensures
        follows_report(*old(logic), state, *final(logic)),
        changed <==> old(logic).current != final(logic).current,
{
}

/// Closing the question withdraws it for the session, and tells whether there was one.
pub proof fn law_closing_the_question_withdraws_it(logic: &mut PromptLogic, asked: bool)
    requires
        call_ensures(PromptLogic::dismiss, (logic,), asked),
    ensures
        follows_withdrawal(*old(logic), *final(logic)),
        final(logic).own_recordings == old(logic).own_recordings,
        asked <==> old(logic).current is Some,
{
}

/// Suppressing the question withdraws it just as closing it does.
pub proof fn law_suppressing_is_closing(
    suppressed: &mut PromptLogic,
    closed: &mut PromptLogic,
    asked: bool,
)
    requires
        *old(suppressed) == *old(closed),
        call_ensures(PromptLogic::suppress_question, (suppressed,), ()),
        call_ensures(PromptLogic::dismiss, (closed,), asked),
    ensures
        *final(suppressed) == *final(closed),
        follows_withdrawal(*old(suppressed), *final(suppressed)),
        final(suppressed).own_recordings == old(suppressed).own_recordings,
{
}

/// A start withdraws the question for the session and counts one recording more, and tells whether
/// there was a question.
pub proof fn law_a_start_withdraws_the_question(logic: &mut PromptLogic, asked: bool)
    requires
        call_ensures(PromptLogic::recording_started, (logic,), asked),
    ensures
        follows_withdrawal(*old(logic), *final(logic)),
        one_more(old(logic).own_recordings, final(logic).own_recordings),
        asked <==> old(logic).current is Some,
{
}

/// A stop counts one recording less and changes nothing else.
pub proof fn law_a_stop_only_counts(logic: &mut PromptLogic)
    requires
        call_ensures(PromptLogic::recording_stopped, (logic,), ()),
    ensures
        one_less(old(logic).own_recordings, final(logic).own_recordings),
        final(logic).detected == old(logic).detected,
        final(logic).current == old(logic).current,
        final(logic).dismissed == old(logic).dismissed,
{
}

/// Forgetting the session is as good as the microphone being free, and keeps the count.
pub proof fn law_forgetting_is_a_free_microphone(
    forgotten: &mut PromptLogic,
    reported: &mut PromptLogic,
    free: MeetingState,
    changed: bool,
)
    requires
        *old(forgotten) == *old(reported),
        !free.recording,
        call_ensures(PromptLogic::reset_detection, (forgotten,), ()),
        call_ensures(PromptLogic::detection, (reported, free), changed),
    ensures
        *final(forgotten) == *final(reported),
        follows_reset(*old(forgotten), *final(forgotten)),
{
}

/// A detection treats all meetings alike: of two states that agree, two reports that differ in
/// nothing but the meeting lead to states that differ in nothing but the meeting.
pub proof fn law_all_meetings_are_asked_about_alike(
    a: &mut PromptLogic,
    b: &mut PromptLogic,
    source_a: Source,
    source_b: Source,
    changed_a: bool,
    changed_b: bool,
)
    requires
        *old(a) == *old(b),
        call_ensures(
            PromptLogic::detection,
            (a, MeetingState { recording: true, source: Some(source_a) }),
            changed_a,
        ),
        call_ensures(
            PromptLogic::detection,
            (b, MeetingState { recording: true, source: Some(source_b) }),
            changed_b,
        ),
    ensures
        final(a).dismissed == final(b).dismissed,
        final(a).own_recordings == final(b).own_recordings,
        final(a).current is Some <==> final(b).current is Some,
        final(a).detected == Some(source_a),
        final(b).detected == Some(source_b),
{
}

/// No detector report is among the events.
pub open spec fn no_report(events: Seq<PromptEvent>) -> bool {
    forall|i: int| 0 <= i < events.len() ==> !((#[trigger] events[i]) is Detection)
}

/// Outside a session nothing dismisses one.
proof fn lemma_no_session_stays_open(logic: PromptLogic, events: Seq<PromptEvent>)
    requires
        logic.detected is None,
        logic.current is None,
        !logic.dismissed,
        no_report(events),
    ensures
        after_events(logic, events).detected is None,
        after_events(logic, events).current is None,
        !after_events(logic, events).dismissed,
    decreases events.len(),
{
    if events.len() > 0 {
        lemma_no_session_stays_open(logic, events.drop_last());
    }
}

/// Once the microphone was free, the next meeting is asked about as soon as this program records
/// nothing any more, whatever happened before, and whatever happens before the next report: in any
/// state, with any count of recordings that were still running.
pub proof fn law_the_next_meeting_is_asked_about(
    before: PromptLogic,
    free: MeetingState,
    events: Seq<PromptEvent>,
    next: MeetingState,
    source: Source,
)
    requires
        !free.recording,
        no_report(events),
        after_events(before.after_detection(free), events).own_recordings == 0,
        next.recording,
        next.source == Some(source),
    ensures
        ({
            let asked = after_events(before.after_detection(free), events).after_detection(next);
            &&& asked.current is Some
            &&& asked.current->0.source == source
            &&& asked.current->0.mode == PromptMode::Ask
            &&& !asked.dismissed
        }),
{
    lemma_no_session_stays_open(before.after_detection(free), events);
}

} // verus!
