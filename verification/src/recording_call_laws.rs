//! What the operations on an automatic recording do, in terms of what goes in and what comes out.

use vstd::prelude::*;

use crate::auto_recording::AutoRecording;
use crate::clock::Instant;
use crate::detect::Source;

#[allow(unused_imports)]
use crate::auto_recording::StopCause;
#[allow(unused_imports)]
use crate::recording_laws::law_reasons_read_differently;

verus! {

/// `now` is at least that many nanoseconds after `at`.
pub open spec fn passed(at: Instant, nanos: int, now: Instant) -> bool {
    now.nanos >= at.nanos + nanos
}

/// Everything that the user or the main window settled of a recording is the same.
pub open spec fn same_but_for_the_absence(a: AutoRecording, b: AutoRecording) -> bool {
    &&& a.source == b.source
    &&& a.requested_at == b.requested_at
    &&& a.started_at == b.started_at
    &&& a.scope == b.scope
    &&& a.stop_requested == b.stop_requested
}

/// How a recording and the end-of-call question follow the detector seeing the meeting or not.
pub open spec fn follows_observation(
    before: AutoRecording,
    meeting_active: bool,
    now: Instant,
    after: AutoRecording,
    question: Option<bool>,
) -> bool {
    &&& same_but_for_the_absence(before, after)
    // A meeting that is there is not gone, and nobody waits for its return.
    &&& meeting_active ==> after.ended_since is None && !after.awaiting_return
    // One that is not there leaves the wish to wait as it was.
    &&& !meeting_active ==> after.awaiting_return == before.awaiting_return
    // The moment it was first missed stays; it is now only if it was there before, and missed only
    // if nobody waits for it.
    &&& !meeting_active && before.ended_since is Some ==> after.ended_since == before.ended_since
    &&& !meeting_active && before.ended_since is None && before.awaiting_return
        ==> after.ended_since is None
    &&& !meeting_active && before.ended_since is None && !before.awaiting_return
        ==> after.ended_since == Some(now)
    // The question shows when the absence begins and goes when it ends, and at no other time.
    &&& question == Some(true) <==> before.ended_since is None && after.ended_since is Some
    &&& question == Some(false) <==> before.ended_since is Some && after.ended_since is None
}

/// Time between two moments is their distance, and none if they come in the other order.
pub proof fn law_duration_is_the_distance(
    earlier: Instant,
    later: Instant,
    forth: u128,
    back: u128,
)
    requires
        call_ensures(Instant::duration_since, (later, earlier), forth),
        call_ensures(Instant::duration_since, (earlier, later), back),
        earlier.nanos <= later.nanos,
    ensures
        earlier.nanos + forth == later.nanos,
        back == 0,
{
}

/// A recording that is asked for is of the meeting and from the moment given, and nothing else is
/// settled of it.
pub proof fn law_a_new_recording_is_only_asked_for(source: Source, now: Instant, auto: AutoRecording)
    requires
        call_ensures(AutoRecording::new, (source, now), auto),
    ensures
        auto.source == source,
        auto.requested_at == now,
        auto.started_at is None,
        auto.ended_since is None,
        auto.scope is None,
        !auto.awaiting_return,
        !auto.stop_requested,
{
}

/// A recording runs if and only if its start was reported.
pub proof fn law_a_recording_runs_once_it_started(auto: &AutoRecording, running: bool)
    requires
        call_ensures(AutoRecording::is_running, (auto,), running),
    ensures
        running <==> exists|at: Instant| auto.started_at == Some(at),
{
    if auto.started_at is Some {
        assert(auto.started_at == Some(auto.started_at->0));
    }
}

/// Observing follows the detector.
pub proof fn law_observing_follows_the_detector(
    auto: &mut AutoRecording,
    meeting_active: bool,
    now: Instant,
    question: Option<bool>,
)
    requires
        call_ensures(AutoRecording::observe, (auto, meeting_active, now), question),
    ensures
        follows_observation(*old(auto), meeting_active, now, *final(auto), question),
{
}

/// Keeping going forgets the absence and waits for the return, and settles nothing else.
pub proof fn law_keeping_going_only_forgets_the_absence(auto: &mut AutoRecording)
    requires
        call_ensures(AutoRecording::keep_going, (auto,), ()),
    ensures
        same_but_for_the_absence(*old(auto), *final(auto)),
        final(auto).awaiting_return,
        final(auto).ended_since is None,
{
}

/// Why a recording should stop, as the text that says so.
pub open spec fn says(reason: Option<&'static str>, text: Seq<char>) -> bool {
    reason is Some && reason->0@ == text
}

/// A recording that did not start is given up 15 seconds after the request; one that did ends 3
/// hours after its start; and before that, 11 seconds after its meeting was first missed. It is
/// stopped for no other reason, and nothing else of it matters.
pub proof fn law_a_recording_stops_for_three_reasons(
    auto: &AutoRecording,
    now: Instant,
    reason: Option<&'static str>,
)
    requires
        call_ensures(AutoRecording::stop_reason, (auto, now), reason),
    ensures
        says(reason, "the recording never started"@) <==> {
            &&& auto.started_at is None
            &&& passed(auto.requested_at, 15_000_000_000, now)
        },
        says(reason, "the maximum duration was reached"@) <==> {
            &&& auto.started_at is Some
            &&& passed(auto.started_at->0, 10_800_000_000_000, now)
        },
        says(reason, "the meeting ended"@) <==> {
            &&& auto.started_at is Some
            &&& !passed(auto.started_at->0, 10_800_000_000_000, now)
            &&& auto.ended_since is Some
            &&& passed(auto.ended_since->0, 11_000_000_000, now)
        },
        reason is Some ==> says(reason, "the recording never started"@) || says(
            reason,
            "the maximum duration was reached"@,
        ) || says(reason, "the meeting ended"@),
{
    let never = StopCause::NeverStarted;
    let maximum = StopCause::MaximumDuration;
    let ended = StopCause::MeetingEnded;
    if never.text() == maximum.text() {
        law_reasons_read_differently(never, maximum);
    }
    if never.text() == ended.text() {
        law_reasons_read_differently(never, ended);
    }
    if maximum.text() == ended.text() {
        law_reasons_read_differently(maximum, ended);
    }
}

/// Two recordings with the same request, start and absence stop at the same times for the same
/// reasons, whatever else differs between them.
pub proof fn law_only_times_decide_when_to_stop(
    a: &AutoRecording,
    b: &AutoRecording,
    now: Instant,
    reason_a: Option<&'static str>,
    reason_b: Option<&'static str>,
)
    requires
        a.requested_at == b.requested_at,
        a.started_at == b.started_at,
        a.ended_since == b.ended_since,
        call_ensures(AutoRecording::stop_reason, (a, now), reason_a),
        call_ensures(AutoRecording::stop_reason, (b, now), reason_b),
    ensures
        reason_a is Some <==> reason_b is Some,
        reason_a is Some ==> reason_a->0@ == reason_b->0@,
{
}

} // verus!
