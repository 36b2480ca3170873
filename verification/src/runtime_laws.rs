//! What holds of the state behind the prompt window, over any course of events.

use vstd::prelude::*;

use crate::auto_recording::{AutoRecording, FinishedAutoRecording, RecordingScope};
use crate::clock::Instant;
use crate::detect::MeetingState;

#[allow(unused_imports)]
use crate::auto_recording::{StopCause, END_GRACE, MAX_AUTO_RECORDING};
#[allow(unused_imports)]
use crate::prompt_logic::{MeetingPromptPayload, PromptMode};
#[allow(unused_imports)]
use crate::runtime::{MeetingPromptRuntime, PromptAction, StopRequest};

verus! {

/// What can happen to the prompt.
pub ghost enum Event {
    Detection { state: MeetingState, auto_record: bool, now: Instant },
    AskedToRecord { sent: bool },
    Tick { now: Instant },
    DetectorStopped,
    Dismissed,
    Cancelled,
    Discarded { cancelled: AutoRecording },
    ScopeChosen { scope: RecordingScope },
    Continued,
    StopSent,
    Collected,
    Started { now: Instant },
    Stopped,
}

/// The state after one event.
pub open spec fn after_event(runtime: MeetingPromptRuntime, event: Event) -> MeetingPromptRuntime {
    match event {
        Event::Detection { state, auto_record, now } => runtime.after_detection(
            state,
            auto_record,
            now,
        ),
        Event::AskedToRecord { sent } => if sent {
            runtime
        } else {
            MeetingPromptRuntime { auto: None, ..runtime }
        },
        Event::Tick { now } => runtime.after_tick(now),
        Event::DetectorStopped => runtime.after_detector_stopped(),
        Event::Dismissed => MeetingPromptRuntime {
            logic: runtime.logic.after_dismissal(),
            ..runtime
        },
        Event::Cancelled => runtime.after_cancel(),
        Event::Discarded { cancelled } => runtime.after_discard(cancelled),
        Event::ScopeChosen { scope } => runtime.after_scope(scope),
        Event::Continued => runtime.after_continue(),
        Event::StopSent => runtime.after_stop_sent(),
        Event::Collected => MeetingPromptRuntime { finished: None, ..runtime },
        Event::Started { now } => runtime.after_started(now),
        Event::Stopped => runtime.after_stopped(),
    }
}

/// The state after these events, in order.
pub open spec fn after_events(
    runtime: MeetingPromptRuntime,
    events: Seq<Event>,
) -> MeetingPromptRuntime
    decreases events.len(),
{
    if events.len() == 0 {
        runtime
    } else {
        after_event(after_events(runtime, events.drop_last()), events.last())
    }
}

/// An event within a microphone session: neither the detector finding the microphone free, nor
/// the detector being switched off.
pub open spec fn within_session(event: Event) -> bool {
    match event {
        Event::Detection { state, .. } => state.recording,
        Event::DetectorStopped => false,
        _ => true,
    }
}

/// All of these events are within one microphone session.
pub open spec fn all_within_session(events: Seq<Event>) -> bool {
    forall|i: int| 0 <= i < events.len() ==> within_session(#[trigger] events[i])
}

/// An automatic recording is under way before, between and after these events. As none starts
/// while another is under way, it is one and the same.
pub open spec fn keeps_recording(runtime: MeetingPromptRuntime, events: Seq<Event>) -> bool
    decreases events.len(),
{
    &&& after_events(runtime, events).auto is Some
    &&& events.len() > 0 ==> keeps_recording(runtime, events.drop_last())
}

/// Nobody chooses a destination for a transcript.
pub open spec fn no_choice(events: Seq<Event>) -> bool {
    forall|i: int| 0 <= i < events.len() ==> !((#[trigger] events[i]) is ScopeChosen)
}

/// While an automatic recording goes on, it keeps its meeting, the moment it was asked for, and
/// what has been settled of it: that it was told to stop, when it started, and, without another
/// choice, where its transcript goes.
proof fn lemma_what_is_settled_stays(runtime: MeetingPromptRuntime, events: Seq<Event>)
    requires
        keeps_recording(runtime, events),
    ensures
        runtime.auto is Some,
        after_events(runtime, events).auto is Some,
        ({
            let before = runtime.auto->0;
            let after = after_events(runtime, events).auto->0;
            &&& after.source == before.source
            &&& after.requested_at == before.requested_at
            &&& before.stop_requested ==> after.stop_requested
            &&& before.started_at is Some ==> after.started_at == before.started_at
            &&& no_choice(events) ==> after.scope == before.scope
        }),
    decreases events.len(),
{
    if events.len() > 0 {
        lemma_what_is_settled_stays(runtime, events.drop_last());
    }
}

/// Whatever happens, a question is only ever asked about the meeting that was detected, while it
/// is not dismissed and while this program records nothing itself.
pub proof fn law_a_question_is_always_in_order(events: Seq<Event>)
    ensures
        after_events(MeetingPromptRuntime::idle(), events).well_formed(),
    decreases events.len(),
{
    if events.len() > 0 {
        law_a_question_is_always_in_order(events.drop_last());
    }
}

/// In a microphone session that was dismissed nothing is asked and no recording starts without
/// asking, whatever happens within it.
pub proof fn law_a_dismissed_session_is_left_alone(
    runtime: MeetingPromptRuntime,
    events: Seq<Event>,
    state: MeetingState,
    auto_record: bool,
)
    requires
        runtime.logic.dismissed,
        runtime.logic.current is None,
        all_within_session(events),
    ensures
        after_events(runtime, events).logic.dismissed,
        after_events(runtime, events).logic.current is None,
        after_events(runtime, events).starts(state, auto_record) is None,
    decreases events.len(),
{
    if events.len() > 0 {
        law_a_dismissed_session_is_left_alone(runtime, events.drop_last(), state, auto_record);
    }
}

/// A recording that starts without asking takes the place of the question: the session is
/// dismissed and nothing is asked, so that after the recording was cancelled, or ended, neither a
/// question nor another recording follows in the same session.
pub proof fn law_an_automatic_recording_replaces_the_question(
    runtime: MeetingPromptRuntime,
    state: MeetingState,
    auto_record: bool,
    now: Instant,
    events: Seq<Event>,
    later: MeetingState,
)
    requires
        runtime.starts(state, auto_record) is Some,
        all_within_session(events),
    ensures
        ({
            let recording = runtime.after_detection(state, auto_record, now);
            &&& recording.auto is Some
            &&& recording.logic.current is None
            &&& after_events(recording, events).logic.current is None
            &&& after_events(recording, events).starts(later, auto_record) is None
        }),
{
    law_a_dismissed_session_is_left_alone(
        runtime.after_detection(state, auto_record, now),
        events,
        later,
        auto_record,
    );
}

/// No recording starts without asking unless the user opted in, and none while another automatic
/// recording is under way or this program records anyway.
pub proof fn law_nothing_is_recorded_without_the_opt_in(
    runtime: MeetingPromptRuntime,
    state: MeetingState,
    auto_record: bool,
    now: Instant,
)
    requires
        !auto_record || runtime.auto is Some || runtime.logic.own_recordings > 0,
    ensures
        runtime.detection_outcome(state, auto_record) is Window,
        runtime.auto is None ==> runtime.after_detection(state, auto_record, now).auto is None,
{
}

/// An automatic recording is told to stop once: after it was, by the clock or by the user, neither
/// asks for it again, whatever else happens while it goes on.
pub proof fn law_a_recording_is_told_to_stop_once(
    runtime: MeetingPromptRuntime,
    now: Instant,
    events: Seq<Event>,
    later: Instant,
)
    ensures
        runtime.due(now) is Some ==> runtime.after_tick(now) == (if runtime.due(now) == Some(
            StopCause::NeverStarted,
        ) {
            MeetingPromptRuntime { auto: None, ..runtime }
        } else {
            runtime.after_stop_sent()
        }),
        runtime.auto is None ==> runtime.due(later) is None && runtime.stop_request()
            == StopRequest::Nothing,
        keeps_recording(runtime.after_stop_sent(), events) ==> {
            let told = after_events(runtime.after_stop_sent(), events);
            &&& told.auto->0.stop_requested
            &&& told.due(later) is None
            &&& told.after_tick(later) == told
            &&& told.stop_request() == StopRequest::Nothing
        },
{
    if keeps_recording(runtime.after_stop_sent(), events) {
        lemma_what_is_settled_stays(runtime.after_stop_sent(), events);
    }
}

/// The clock only ever touches the automatic recording; it forgets one that never started, and
/// keeps one that did until its finish is reported, with its scope.
pub proof fn law_a_stopped_recording_keeps_its_scope(runtime: MeetingPromptRuntime, now: Instant)
    ensures
        runtime.after_tick(now).logic == runtime.logic,
        runtime.after_tick(now).finished == runtime.finished,
        runtime.after_tick(now).cancel_pending == runtime.cancel_pending,
        runtime.auto is Some && runtime.auto->0.started_at is Some ==> {
            &&& runtime.after_tick(now).auto is Some
            &&& runtime.after_tick(now).auto->0.scope == runtime.auto->0.scope
            &&& runtime.after_tick(now).after_stopped().finished == Some(
                FinishedAutoRecording { scope: runtime.auto->0.scope },
            )
        },
{
}

/// What is to be collected waits for the main window, whatever else happens, until it is collected
/// or the next recording stops.
proof fn lemma_what_is_finished_waits(runtime: MeetingPromptRuntime, events: Seq<Event>)
    requires
        forall|i: int|
            0 <= i < events.len() ==> !((#[trigger] events[i]) is Stopped) && !(
            events[i] is Collected),
    ensures
        after_events(runtime, events).finished == runtime.finished,
    decreases events.len(),
{
    if events.len() > 0 {
        lemma_what_is_finished_waits(runtime, events.drop_last());
    }
}

/// The destination that the user chose last is the one that the main window collects, whatever
/// else happens between the choice and the end of the recording, and between that and the
/// collection; and it collects it once.
pub proof fn law_the_chosen_destination_is_collected_once(
    runtime: MeetingPromptRuntime,
    scope: RecordingScope,
    events: Seq<Event>,
    waiting: Seq<Event>,
)
    requires
        keeps_recording(runtime.after_scope(scope), events),
        no_choice(events),
        forall|i: int|
            0 <= i < waiting.len() ==> !((#[trigger] waiting[i]) is Stopped) && !(
            waiting[i] is Collected),
    ensures
        ({
            let stopped = after_events(runtime.after_scope(scope), events).after_stopped();
            let kept = after_events(stopped, waiting);
            &&& stopped.auto is None
            &&& kept.finished == Some(FinishedAutoRecording { scope: Some(scope) })
            &&& after_event(kept, Event::Collected).finished is None
        }),
{
    lemma_what_is_settled_stays(runtime.after_scope(scope), events);
    lemma_what_is_finished_waits(
        after_events(runtime.after_scope(scope), events).after_stopped(),
        waiting,
    );
}

/// Where nobody chose a destination from the request of a recording to its end, the main window
/// collects that nobody did.
pub proof fn law_without_a_choice_none_is_collected(
    runtime: MeetingPromptRuntime,
    state: MeetingState,
    auto_record: bool,
    now: Instant,
    events: Seq<Event>,
    waiting: Seq<Event>,
)
    requires
        runtime.starts(state, auto_record) is Some,
        keeps_recording(runtime.after_detection(state, auto_record, now), events),
        no_choice(events),
        forall|i: int|
            0 <= i < waiting.len() ==> !((#[trigger] waiting[i]) is Stopped) && !(
            waiting[i] is Collected),
    ensures
        ({
            let requested = runtime.after_detection(state, auto_record, now);
            let stopped = after_events(requested, events).after_stopped();
            after_events(stopped, waiting).finished == Some(FinishedAutoRecording { scope: None })
        }),
{
    let requested = runtime.after_detection(state, auto_record, now);
    lemma_what_is_settled_stays(requested, events);
    lemma_what_is_finished_waits(after_events(requested, events).after_stopped(), waiting);
}

/// A recording that nobody started automatically leaves nothing to collect.
pub proof fn law_an_ordinary_recording_leaves_nothing_to_collect(runtime: MeetingPromptRuntime)
    requires
        runtime.auto is None,
    ensures
        runtime.after_stopped().finished == runtime.finished,
{
}

/// No event but the start of a recording uses up a pending cancellation.
proof fn lemma_cancellation_stays_pending(runtime: MeetingPromptRuntime, events: Seq<Event>)
    requires
        runtime.cancel_pending,
        forall|i: int| 0 <= i < events.len() ==> !((#[trigger] events[i]) is Started),
    ensures
        after_events(runtime, events).cancel_pending,
    decreases events.len(),
{
    if events.len() > 0 {
        lemma_cancellation_stays_pending(runtime, events.drop_last());
    }
}

/// A recording that was cancelled before its microphone opened is stopped by the next start that
/// is reported, whatever happens in between, and by that one alone.
pub proof fn law_a_cancelled_recording_is_stopped_when_it_starts(
    runtime: MeetingPromptRuntime,
    cancelled: AutoRecording,
    events: Seq<Event>,
    now: Instant,
)
    requires
        runtime.auto == Some(cancelled),
        cancelled.started_at is None,
        forall|i: int| 0 <= i < events.len() ==> !((#[trigger] events[i]) is Started),
    ensures
        ({
            let discarded = runtime.after_cancel().after_discard(cancelled);
            let before = after_events(discarded, events);
            &&& discarded.auto is None
            &&& before.cancel_pending
            &&& !before.after_started(now).cancel_pending
        }),
{
    lemma_cancellation_stays_pending(runtime.after_cancel().after_discard(cancelled), events);
}

/// A recording that had started when it was cancelled leaves no cancellation behind for another
/// one to be stopped by.
pub proof fn law_cancelling_a_running_recording_leaves_nothing_pending(
    runtime: MeetingPromptRuntime,
    cancelled: AutoRecording,
)
    requires
        runtime.auto == Some(cancelled),
        cancelled.started_at is Some,
    ensures
        runtime.after_cancel().after_discard(cancelled).cancel_pending == runtime.cancel_pending,
        runtime.after_cancel().auto is None,
{
}

/// When a recording was first reported to have started is when it started, whatever else happens
/// while it goes on, further reports of a start included.
pub proof fn law_the_first_start_counts(
    runtime: MeetingPromptRuntime,
    first: Instant,
    events: Seq<Event>,
)
    requires
        runtime.auto matches Some(auto) && auto.started_at is None,
        keeps_recording(runtime.after_started(first), events),
    ensures
        after_events(runtime.after_started(first), events).auto->0.started_at == Some(first),
{
    lemma_what_is_settled_stays(runtime.after_started(first), events);
}

/// Switching the detector off and on again forgets the microphone session, but neither the count
/// of this program's own recordings, nor what is to be collected, nor a pending cancellation; so a
/// meeting that is detected during one of these recordings is not asked about.
pub proof fn law_switching_the_detector_off_keeps_the_count(
    runtime: MeetingPromptRuntime,
    state: MeetingState,
    auto_record: bool,
    now: Instant,
)
    ensures
        ({
            let stopped = runtime.after_detector_stopped();
            &&& stopped.logic.own_recordings == runtime.logic.own_recordings
            &&& stopped.finished == runtime.finished
            &&& stopped.cancel_pending == runtime.cancel_pending
            &&& stopped.auto is None
            &&& runtime.logic.own_recordings > 0 ==> stopped.after_detection(
                state,
                auto_record,
                now,
            ).logic.current is None
        }),
{
}

/// An event while the meeting of a recording that runs since `started_at` is gone since `gone_at`: the detector still
/// does not see it, or the clock is polled before the grace, and before the maximum duration, is
/// over.
pub open spec fn within_grace(started_at: Instant, gone_at: Instant, event: Event) -> bool {
    match event {
        Event::Detection { state, .. } => !state.recording,
        Event::Tick { now } => now.nanos < gone_at.nanos + END_GRACE && now.nanos
            < started_at.nanos + MAX_AUTO_RECORDING,
        _ => false,
    }
}

/// Within the grace nothing becomes of a recording that runs.
proof fn lemma_nothing_happens_within_the_grace(
    runtime: MeetingPromptRuntime,
    auto: AutoRecording,
    gone_at: Instant,
    events: Seq<Event>,
)
    requires
        runtime.auto == Some(auto),
        auto.started_at is Some,
        auto.ended_since == Some(gone_at),
        forall|i: int|
            0 <= i < events.len() ==> within_grace(
                auto.started_at->0,
                gone_at,
                #[trigger] events[i],
            ),
    ensures
        after_events(runtime, events).auto == Some(auto),
    decreases events.len(),
{
    if events.len() > 0 {
        lemma_nothing_happens_within_the_grace(runtime, auto, gone_at, events.drop_last());
    }
}

/// A dropped microphone that comes back within the grace keeps one recording rather than two:
/// however often the detector reports and the clock is polled meanwhile, the recording is not told
/// to stop, the question is shown once and taken away, no second recording starts, and in the end
/// it is as if the microphone had not been dropped. At its maximum duration a recording ends in
/// any case.
pub proof fn law_a_short_absence_keeps_one_recording(
    runtime: MeetingPromptRuntime,
    auto: AutoRecording,
    gone: MeetingState,
    gone_at: Instant,
    events: Seq<Event>,
    polled_at: Instant,
    back: MeetingState,
    back_at: Instant,
    auto_record: bool,
)
    requires
        runtime.auto == Some(auto),
        auto.expects_meeting(),
        auto.started_at is Some,
        !gone.recording,
        back.recording,
        forall|i: int|
            0 <= i < events.len() ==> within_grace(
                auto.started_at->0,
                gone_at,
                #[trigger] events[i],
            ),
        within_grace(auto.started_at->0, gone_at, Event::Tick { now: polled_at }),
    ensures
        ({
            let absent = runtime.after_detection(gone, auto_record, gone_at);
            let still = after_events(absent, events);
            &&& runtime.ending_action(gone) == Some(
                PromptAction::Show(
                    MeetingPromptPayload { source: auto.source, mode: PromptMode::Ending },
                ),
            )
            &&& still.ending_action(gone) is None
            &&& still.due(polled_at) is None
            &&& still.detection_outcome(back, auto_record) is Window
            &&& still.ending_action(back) == Some(PromptAction::Hide)
            &&& still.after_detection(back, auto_record, back_at).auto == Some(auto)
        }),
{
    let absent = runtime.after_detection(gone, auto_record, gone_at);
    lemma_nothing_happens_within_the_grace(absent, absent.auto->0, gone_at, events);
}

/// A meeting that stays gone ends a recording that runs: however often the detector reports and
/// the clock is polled within the grace, the first poll after it tells the recording to stop.
pub proof fn law_a_lasting_absence_ends_the_recording(
    runtime: MeetingPromptRuntime,
    auto: AutoRecording,
    gone: MeetingState,
    gone_at: Instant,
    events: Seq<Event>,
    now: Instant,
    auto_record: bool,
)
    requires
        runtime.auto == Some(auto),
        auto.expects_meeting(),
        auto.started_at is Some,
        !auto.stop_requested,
        !gone.recording,
        forall|i: int|
            0 <= i < events.len() ==> within_grace(
                auto.started_at->0,
                gone_at,
                #[trigger] events[i],
            ),
        now.nanos >= gone_at.nanos + END_GRACE,
    ensures
        ({
            let absent = runtime.after_detection(gone, auto_record, gone_at);
            let still = after_events(absent, events);
            &&& still.due(now) == Some(
                if now.elapsed_since(auto.started_at->0) >= MAX_AUTO_RECORDING {
                    StopCause::MaximumDuration
                } else {
                    StopCause::MeetingEnded
                },
            )
            &&& still.after_tick(now).auto == Some(
                AutoRecording { ended_since: Some(gone_at), stop_requested: true, ..auto },
            )
        }),
{
    let absent = runtime.after_detection(gone, auto_record, gone_at);
    lemma_nothing_happens_within_the_grace(absent, absent.auto->0, gone_at, events);
}

} // verus!
