//! What each event does to the state behind the prompt window and asks of the program around it,
//! in terms of what goes in and what comes out.

use vstd::prelude::*;

use crate::auto_recording::{AutoRecording, FinishedAutoRecording, RecordingScope};
use crate::clock::Instant;
use crate::detect::{MeetingState, Source};
use crate::prompt_logic::MeetingPromptPayload;
use crate::runtime::{
    DetectionOutcome, MeetingPromptRuntime, PromptAction, StartedOutcome, StopRequest, TickOutcome,
};
use crate::runtime_laws::Event;

#[allow(unused_imports)]
use crate::prompt_call_laws::{
    follows_report, follows_reset, follows_withdrawal, one_less, one_more,
};
#[allow(unused_imports)]
use crate::prompt_logic::PromptMode;
#[allow(unused_imports)]
use crate::recording_call_laws::{follows_observation, passed, same_but_for_the_absence};
#[allow(unused_imports)]
use crate::runtime::{recording_notice, show_state};
#[allow(unused_imports)]
use crate::runtime_laws::after_events;

verus! {

/// The action shows the window with this content.
pub open spec fn shows(action: PromptAction, source: Source, mode: PromptMode) -> bool {
    match action {
        PromptAction::Show(payload) => payload.source == source && payload.mode == mode,
        PromptAction::Hide => false,
    }
}

/// Whether an action shows the window or hides it.
pub open spec fn shown_or_hidden(action: Option<PromptAction>) -> Option<bool> {
    match action {
        Some(PromptAction::Show(_)) => Some(true),
        Some(PromptAction::Hide) => Some(false),
        None => None,
    }
}

/// A recording of `source` that was asked for at `now`, with nothing else settled.
pub open spec fn just_asked_for(auto: AutoRecording, source: Source, now: Instant) -> bool {
    &&& auto.source == source
    &&& auto.requested_at == now
    &&& auto.started_at is None
    &&& auto.ended_since is None
    &&& auto.scope is None
    &&& !auto.awaiting_return
    &&& !auto.stop_requested
}

/// Two states that agree in all but the automatic recording.
pub open spec fn same_but_for_auto(a: MeetingPromptRuntime, b: MeetingPromptRuntime) -> bool {
    &&& a.logic == b.logic
    &&& a.cancel_pending == b.cancel_pending
    &&& a.finished == b.finished
}

/// Two automatic recordings that agree in all but whether they were told to stop.
pub open spec fn same_but_for_the_stop(a: AutoRecording, b: AutoRecording) -> bool {
    &&& a.source == b.source
    &&& a.requested_at == b.requested_at
    &&& a.started_at == b.started_at
    &&& a.ended_since == b.ended_since
    &&& a.scope == b.scope
    &&& a.awaiting_return == b.awaiting_return
}

/// In the beginning nothing is detected, asked, dismissed, recorded, pending or to be collected.
pub proof fn law_in_the_beginning_there_is_nothing(runtime: MeetingPromptRuntime)
    requires
        call_ensures(<MeetingPromptRuntime as Default>::default, (), runtime),
    ensures
        runtime.logic.detected is None,
        runtime.logic.current is None,
        !runtime.logic.dismissed,
        runtime.logic.own_recordings == 0,
        runtime.auto is None,
        !runtime.cancel_pending,
        runtime.finished is None,
{
}

/// With the opt-in, every meeting that is reported is recorded on its own, with both inputs, as
/// long as nothing is recorded already and the session was not dismissed, and only then; whichever
/// meeting it is. The recording is of that meeting from that moment, and takes the place of the
/// question.
pub proof fn law_a_reported_meeting_is_recorded(
    runtime: &mut MeetingPromptRuntime,
    state: MeetingState,
    auto_record: bool,
    now: Instant,
    outcome: DetectionOutcome,
)
    requires
        call_ensures(
            MeetingPromptRuntime::apply_detection,
            (runtime, state, auto_record, now),
            outcome,
        ),
    ensures
        outcome is Record <==> {
            &&& auto_record
            &&& state.recording
            &&& state.source is Some
            &&& old(runtime).auto is None
            &&& old(runtime).logic.own_recordings == 0
            &&& !old(runtime).logic.dismissed
        },
        match outcome {
            DetectionOutcome::Record { source, options } => {
                &&& state.source == Some(source)
                &&& options.microphone
                &&& options.system_audio
                &&& final(runtime).auto is Some
                &&& just_asked_for(final(runtime).auto->0, source, now)
                &&& final(runtime).logic.detected == Some(source)
                &&& final(runtime).logic.current is None
                &&& final(runtime).logic.dismissed
                &&& final(runtime).logic.own_recordings == 0
            },
            DetectionOutcome::Window { .. } => true,
        },
        final(runtime).cancel_pending == old(runtime).cancel_pending,
        final(runtime).finished == old(runtime).finished,
{
}

/// Otherwise a report goes to the question and to the automatic recording, and the window shows
/// what becomes of either: the end-of-call question of that recording's meeting when the meeting
/// goes away, and the question whether to record when it changes.
pub proof fn law_a_report_goes_to_the_question_and_the_recording(
    runtime: &mut MeetingPromptRuntime,
    state: MeetingState,
    auto_record: bool,
    now: Instant,
    ending: Option<PromptAction>,
    question: Option<PromptAction>,
)
    requires
        call_ensures(
            MeetingPromptRuntime::apply_detection,
            (runtime, state, auto_record, now),
            (DetectionOutcome::Window { ending, question }),
        ),
    ensures
        follows_report(old(runtime).logic, state, final(runtime).logic),
        old(runtime).auto is None ==> final(runtime).auto is None && ending is None,
        old(runtime).auto is Some ==> {
            &&& final(runtime).auto is Some
            &&& follows_observation(
                old(runtime).auto->0,
                state.recording,
                now,
                final(runtime).auto->0,
                shown_or_hidden(ending),
            )
            &&& shown_or_hidden(ending) == Some(true) ==> shows(
                ending->0,
                old(runtime).auto->0.source,
                PromptMode::Ending,
            )
        },
        question is Some <==> final(runtime).logic.current != old(runtime).logic.current,
        question is Some ==> match final(runtime).logic.current {
            Some(payload) => shows(question->0, payload.source, payload.mode),
            None => question == Some(PromptAction::Hide),
        },
{
}

/// The opt-in treats all meetings alike: of two states that agree, two reports that differ in
/// nothing but the meeting either both lead to a recording or neither does.
pub proof fn law_all_meetings_are_recorded_alike(
    a: &mut MeetingPromptRuntime,
    b: &mut MeetingPromptRuntime,
    source_a: Source,
    source_b: Source,
    auto_record: bool,
    now: Instant,
    outcome_a: DetectionOutcome,
    outcome_b: DetectionOutcome,
)
    requires
        *old(a) == *old(b),
        call_ensures(
            MeetingPromptRuntime::apply_detection,
            (a, MeetingState { recording: true, source: Some(source_a) }, auto_record, now),
            outcome_a,
        ),
        call_ensures(
            MeetingPromptRuntime::apply_detection,
            (b, MeetingState { recording: true, source: Some(source_b) }, auto_record, now),
            outcome_b,
        ),
    ensures
        outcome_a is Record <==> outcome_b is Record,
        outcome_a is Record ==> final(a).auto->0.source == source_a && final(b).auto->0.source
            == source_b,
{
}

/// A request that was sent is followed by the notice of its meeting; one that was not leaves no
/// automatic recording and no notice. Nothing else changes.
pub proof fn law_a_request_is_followed_by_its_notice(
    runtime: &mut MeetingPromptRuntime,
    source: Source,
    sent: bool,
    notice: Option<MeetingPromptPayload>,
    alone: Option<MeetingPromptPayload>,
)
    requires
        call_ensures(
            MeetingPromptRuntime::start_auto_recording,
            (runtime, source, sent),
            notice,
        ),
        call_ensures(recording_notice, (source, sent), alone),
    ensures
        same_but_for_auto(*old(runtime), *final(runtime)),
        sent ==> final(runtime).auto == old(runtime).auto,
        !sent ==> final(runtime).auto is None,
        notice is Some <==> sent,
        notice is Some ==> notice->0.source == source && notice->0.mode == PromptMode::Recording,
        alone == notice,
{
}

/// The automatic recording that is forgotten is handed back, and nothing else changes.
pub proof fn law_a_forgotten_recording_is_handed_back(
    runtime: &mut MeetingPromptRuntime,
    auto: Option<AutoRecording>,
)
    requires
        call_ensures(MeetingPromptRuntime::clear_auto, (runtime,), auto),
    ensures
        auto == old(runtime).auto,
        final(runtime).auto is None,
        same_but_for_auto(*old(runtime), *final(runtime)),
{
}

/// A poll of the clock gives up a recording that did not start within 15 seconds of the request,
/// and tells one that started to stop 3 hours after that, or 11 seconds after its meeting was first
/// missed; each at its first poll only. A recording that it tells to stop stays, told so; nothing
/// else changes.
pub proof fn law_the_clock_ends_recordings(
    runtime: &mut MeetingPromptRuntime,
    now: Instant,
    outcome: TickOutcome,
)
    requires
        call_ensures(MeetingPromptRuntime::tick_auto, (runtime, now), outcome),
    ensures
        same_but_for_auto(*old(runtime), *final(runtime)),
        outcome is NeverStarted <==> {
            &&& old(runtime).auto is Some
            &&& !old(runtime).auto->0.stop_requested
            &&& old(runtime).auto->0.started_at is None
            &&& passed(old(runtime).auto->0.requested_at, 15_000_000_000, now)
        },
        outcome is NeverStarted ==> final(runtime).auto is None,
        outcome is Stop <==> {
            &&& old(runtime).auto is Some
            &&& !old(runtime).auto->0.stop_requested
            &&& old(runtime).auto->0.started_at is Some
            &&& {
                ||| passed(old(runtime).auto->0.started_at->0, 10_800_000_000_000, now)
                ||| old(runtime).auto->0.ended_since is Some && passed(
                    old(runtime).auto->0.ended_since->0,
                    11_000_000_000,
                    now,
                )
            }
        },
        outcome matches TickOutcome::Stop(reason) ==> reason@ == (if passed(
            old(runtime).auto->0.started_at->0,
            10_800_000_000_000,
            now,
        ) {
            "the maximum duration was reached"@
        } else {
            "the meeting ended"@
        }),
        outcome is Stop ==> final(runtime).auto is Some && final(runtime).auto->0.stop_requested
            && same_but_for_the_stop(old(runtime).auto->0, final(runtime).auto->0),
        outcome is Nothing ==> final(runtime).auto == old(runtime).auto,
{
}

/// The clock and the recording agree: the clock acts exactly on a recording that was not told to
/// stop and has a reason to, and gives that reason.
pub proof fn law_the_clock_gives_the_reason_of_the_recording(
    runtime: &mut MeetingPromptRuntime,
    auto: &AutoRecording,
    now: Instant,
    outcome: TickOutcome,
    reason: Option<&'static str>,
)
    requires
        old(runtime).auto == Some(*auto),
        call_ensures(MeetingPromptRuntime::tick_auto, (runtime, now), outcome),
        call_ensures(AutoRecording::stop_reason, (auto, now), reason),
    ensures
        outcome is Nothing <==> auto.stop_requested || reason is None,
        outcome matches TickOutcome::Stop(given) ==> given@ == reason->0@,
{
}

/// Switching the detector off forgets the session and the automatic recording, and keeps the count
/// of recordings, a pending cancellation and what is to be collected.
pub proof fn law_switching_the_detector_off_forgets_the_session(runtime: &mut MeetingPromptRuntime)
    requires
        call_ensures(MeetingPromptRuntime::stop_worker, (runtime,), ()),
    ensures
        follows_reset(old(runtime).logic, final(runtime).logic),
        final(runtime).auto is None,
        final(runtime).cancel_pending == old(runtime).cancel_pending,
        final(runtime).finished == old(runtime).finished,
{
}

/// A window that is ready shows the question that is being asked, and hides if there is none.
pub proof fn law_a_ready_window_shows_the_question(
    runtime: &MeetingPromptRuntime,
    state: Option<MeetingPromptPayload>,
    action: PromptAction,
)
    requires
        call_ensures(MeetingPromptRuntime::get_meeting_prompt_state, (runtime,), state),
        call_ensures(MeetingPromptRuntime::meeting_prompt_ready, (runtime,), action),
    ensures
        state == runtime.logic.current,
        action == PromptAction::Hide <==> state is None,
        state is Some ==> shows(action, state->0.source, state->0.mode),
{
}

/// Content is shown as it is if detection is on, and not at all if it is off.
pub proof fn law_content_shows_only_while_detection_is_on(
    enabled: bool,
    state: MeetingPromptPayload,
    shown: Option<MeetingPromptPayload>,
)
    requires
        call_ensures(show_state, (enabled, state), shown),
    ensures
        shown is Some <==> enabled,
        shown is Some ==> shown->0.source == state.source && shown->0.mode == state.mode,
{
}

/// Closing the window hides it and withdraws the question for the session; an automatic recording
/// goes on as it is.
pub proof fn law_closing_the_window_leaves_the_recording(
    runtime: &mut MeetingPromptRuntime,
    action: PromptAction,
)
    requires
        call_ensures(MeetingPromptRuntime::dismiss_meeting_prompt, (runtime,), action),
    ensures
        action == PromptAction::Hide,
        follows_withdrawal(old(runtime).logic, final(runtime).logic),
        final(runtime).logic.own_recordings == old(runtime).logic.own_recordings,
        final(runtime).auto == old(runtime).auto,
        final(runtime).cancel_pending == old(runtime).cancel_pending,
        final(runtime).finished == old(runtime).finished,
{
}

/// Cancelling hands the automatic recording back and forgets it, so that nothing of it is to be
/// collected, and withdraws the question for the session.
pub proof fn law_cancelling_forgets_the_recording(
    runtime: &mut MeetingPromptRuntime,
    cancelled: Option<AutoRecording>,
)
    requires
        call_ensures(MeetingPromptRuntime::cancel_auto_recording, (runtime,), cancelled),
    ensures
        cancelled == old(runtime).auto,
        final(runtime).auto is None,
        follows_withdrawal(old(runtime).logic, final(runtime).logic),
        final(runtime).logic.own_recordings == old(runtime).logic.own_recordings,
        final(runtime).cancel_pending == old(runtime).cancel_pending,
        final(runtime).finished == old(runtime).finished,
{
}

/// A cancelled recording that started is stopped now; one that did not is stopped by the next start
/// that is reported. Nothing but its start decides.
pub proof fn law_a_discarded_recording_is_stopped_now_or_at_its_start(
    runtime: &mut MeetingPromptRuntime,
    cancelled: AutoRecording,
    stop: bool,
)
    requires
        call_ensures(MeetingPromptRuntime::discarded, (runtime, cancelled), stop),
    ensures
        stop <==> cancelled.started_at is Some,
        final(runtime).cancel_pending <==> old(runtime).cancel_pending || !stop,
        final(runtime).logic == old(runtime).logic,
        final(runtime).auto == old(runtime).auto,
        final(runtime).finished == old(runtime).finished,
{
}

/// A destination is noted on the automatic recording, if there is one, and changes nothing else.
pub proof fn law_a_choice_is_noted_on_the_recording(
    runtime: &mut MeetingPromptRuntime,
    scope: RecordingScope,
)
    requires
        call_ensures(MeetingPromptRuntime::choose_recording_scope, (runtime, scope), ()),
    ensures
        same_but_for_auto(*old(runtime), *final(runtime)),
        final(runtime).auto is Some <==> old(runtime).auto is Some,
        old(runtime).auto is Some ==> {
            let before = old(runtime).auto->0;
            let after = final(runtime).auto->0;
            &&& after.scope == Some(scope)
            &&& after.source == before.source
            &&& after.requested_at == before.requested_at
            &&& after.started_at == before.started_at
            &&& after.ended_since == before.ended_since
            &&& after.awaiting_return == before.awaiting_return
            &&& after.stop_requested == before.stop_requested
        },
{
}

/// "Keep going" makes the automatic recording, if there is one, wait for the return of its meeting,
/// and changes nothing else.
pub proof fn law_continuing_waits_for_the_meeting(runtime: &mut MeetingPromptRuntime)
    requires
        call_ensures(MeetingPromptRuntime::continue_auto_recording, (runtime,), ()),
    ensures
        same_but_for_auto(*old(runtime), *final(runtime)),
        final(runtime).auto is Some <==> old(runtime).auto is Some,
        old(runtime).auto is Some ==> {
            &&& same_but_for_the_absence(old(runtime).auto->0, final(runtime).auto->0)
            &&& final(runtime).auto->0.awaiting_return
            &&& final(runtime).auto->0.ended_since is None
        },
{
}

/// The user's wish to stop stops a recording that started and keeps its audio, whether its meeting
/// is gone or not; cancels one if and only if it did not start; and does nothing where there is
/// none or it was told to stop before. Afterwards it was told to stop, and nothing else changed.
pub proof fn law_the_user_stops_what_started_and_cancels_what_did_not(
    runtime: &mut MeetingPromptRuntime,
    request: StopRequest,
)
    requires
        call_ensures(MeetingPromptRuntime::stop_auto_recording, (runtime,), request),
    ensures
        request == StopRequest::Stop <==> {
            &&& old(runtime).auto is Some
            &&& !old(runtime).auto->0.stop_requested
            &&& old(runtime).auto->0.started_at is Some
        },
        request == StopRequest::Cancel <==> {
            &&& old(runtime).auto is Some
            &&& !old(runtime).auto->0.stop_requested
            &&& old(runtime).auto->0.started_at is None
        },
        same_but_for_auto(*old(runtime), *final(runtime)),
        final(runtime).auto is Some <==> old(runtime).auto is Some,
        old(runtime).auto is Some ==> {
            &&& final(runtime).auto->0.stop_requested
            &&& same_but_for_the_stop(old(runtime).auto->0, final(runtime).auto->0)
        },
{
}

/// The wish to stop and the discarding of a cancelled recording agree: what is worth a stop is
/// never cancelled, and what is cancelled is never worth a stop.
pub proof fn law_what_is_cancelled_had_nothing_to_stop(
    runtime: &mut MeetingPromptRuntime,
    other: &mut MeetingPromptRuntime,
    auto: AutoRecording,
    request: StopRequest,
    stop: bool,
)
    requires
        old(runtime).auto == Some(auto),
        !auto.stop_requested,
        call_ensures(MeetingPromptRuntime::stop_auto_recording, (runtime,), request),
        call_ensures(MeetingPromptRuntime::discarded, (other, auto), stop),
    ensures
        request == StopRequest::Stop <==> stop,
        request == StopRequest::Cancel <==> !stop,
{
}

/// What is to be collected is handed over and then gone; nothing else changes.
pub proof fn law_what_is_collected_is_gone(
    runtime: &mut MeetingPromptRuntime,
    finished: Option<FinishedAutoRecording>,
)
    requires
        call_ensures(MeetingPromptRuntime::take_finished_auto_recording, (runtime,), finished),
    ensures
        finished == old(runtime).finished,
        final(runtime).finished is None,
        final(runtime).logic == old(runtime).logic,
        final(runtime).auto == old(runtime).auto,
        final(runtime).cancel_pending == old(runtime).cancel_pending,
{
}

/// A start is noted on the automatic recording, if there is one and it has none yet; it withdraws
/// the question, which hides unless the notice of an automatic recording shows; and it uses up a
/// pending cancellation, by a stop.
pub proof fn law_a_start_is_noted(
    runtime: &mut MeetingPromptRuntime,
    now: Instant,
    outcome: StartedOutcome,
)
    requires
        call_ensures(MeetingPromptRuntime::recording_started, (runtime, now), outcome),
    ensures
        follows_withdrawal(old(runtime).logic, final(runtime).logic),
        one_more(old(runtime).logic.own_recordings, final(runtime).logic.own_recordings),
        outcome.hide <==> old(runtime).logic.current is Some && old(runtime).auto is None,
        outcome.stop <==> old(runtime).cancel_pending,
        !final(runtime).cancel_pending,
        final(runtime).finished == old(runtime).finished,
        final(runtime).auto is Some <==> old(runtime).auto is Some,
        old(runtime).auto is Some ==> {
            let before = old(runtime).auto->0;
            let after = final(runtime).auto->0;
            &&& after.started_at is Some
            &&& before.started_at is None ==> after.started_at == Some(now)
            &&& before.started_at is Some ==> after.started_at == before.started_at
            &&& after.source == before.source
            &&& after.requested_at == before.requested_at
            &&& after.ended_since == before.ended_since
            &&& after.scope == before.scope
            &&& after.awaiting_return == before.awaiting_return
            &&& after.stop_requested == before.stop_requested
        },
{
}

/// A stop counts, ends the automatic recording if there is one and leaves its destination to be
/// collected; without one what was to be collected stays.
pub proof fn law_a_stop_leaves_the_destination(runtime: &mut MeetingPromptRuntime)
    requires
        call_ensures(MeetingPromptRuntime::recording_stopped, (runtime,), ()),
    ensures
        one_less(old(runtime).logic.own_recordings, final(runtime).logic.own_recordings),
        final(runtime).logic.detected == old(runtime).logic.detected,
        final(runtime).logic.current == old(runtime).logic.current,
        final(runtime).logic.dismissed == old(runtime).logic.dismissed,
        final(runtime).auto is None,
        final(runtime).cancel_pending == old(runtime).cancel_pending,
        old(runtime).auto is None ==> final(runtime).finished == old(runtime).finished,
        old(runtime).auto is Some ==> final(runtime).finished is Some
            && final(runtime).finished->0.scope == old(runtime).auto->0.scope,
{
}

/// No detector report is among the events.
pub open spec fn no_report(events: Seq<Event>) -> bool {
    forall|i: int| 0 <= i < events.len() ==> !((#[trigger] events[i]) is Detection)
}

/// Outside a session nothing dismisses one, and nothing is asked.
proof fn lemma_no_session_stays_open(runtime: MeetingPromptRuntime, events: Seq<Event>)
    requires
        runtime.logic.detected is None,
        runtime.logic.current is None,
        !runtime.logic.dismissed,
        no_report(events),
    ensures
        after_events(runtime, events).logic.detected is None,
        after_events(runtime, events).logic.current is None,
        !after_events(runtime, events).logic.dismissed,
    decreases events.len(),
{
    if events.len() > 0 {
        lemma_no_session_stays_open(runtime, events.drop_last());
    }
}

/// Once the microphone was free, the next meeting is asked about, or with the opt-in recorded, as
/// soon as this program records nothing any more, whatever happened before, and whatever happens
/// before the next report.
pub proof fn law_the_next_meeting_is_asked_about_or_recorded(
    before: MeetingPromptRuntime,
    free: MeetingState,
    auto_record: bool,
    now: Instant,
    events: Seq<Event>,
    next: MeetingState,
    source: Source,
    later: Instant,
)
    requires
        !free.recording,
        no_report(events),
        ({
            let idle = after_events(before.after_detection(free, auto_record, now), events);
            idle.logic.own_recordings == 0 && idle.auto is None
        }),
        next.recording,
        next.source == Some(source),
    ensures
        ({
            let idle = after_events(before.after_detection(free, auto_record, now), events);
            let recorded = idle.after_detection(next, true, later);
            let asked = idle.after_detection(next, false, later);
            &&& idle.detection_outcome(next, true) is Record
            &&& recorded.auto is Some
            &&& just_asked_for(recorded.auto->0, source, later)
            &&& recorded.logic.current is None
            &&& asked.auto is None
            &&& asked.logic.current is Some
            &&& asked.logic.current->0.source == source
            &&& asked.logic.current->0.mode == PromptMode::Ask
        }),
{
    lemma_no_session_stays_open(before.after_detection(free, auto_record, now), events);
}

} // verus!
