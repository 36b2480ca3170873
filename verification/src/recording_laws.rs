//! What holds of every automatic recording.

use vstd::prelude::*;

use crate::clock::Instant;

#[allow(unused_imports)]
use crate::auto_recording::{AutoRecording, StopCause, END_GRACE, MAX_AUTO_RECORDING, START_TIMEOUT};

verus! {

/// What the detector saw at one moment.
pub ghost struct Observation {
    pub meeting_active: bool,
    pub at: Instant,
}

/// An automatic recording after the detector saw all this, in order.
pub open spec fn after_observations(auto: AutoRecording, seen: Seq<Observation>) -> AutoRecording
    decreases seen.len(),
{
    if seen.len() == 0 {
        auto
    } else {
        after_observations(auto, seen.drop_last()).observed(
            seen.last().meeting_active,
            seen.last().at,
        )
    }
}

/// The detector did not see the meeting once.
pub open spec fn never_active(seen: Seq<Observation>) -> bool {
    forall|i: int| 0 <= i < seen.len() ==> !(#[trigger] seen[i]).meeting_active
}

/// The end-of-call question shows once: when the meeting goes away it is asked, however often the
/// detector then finds the meeting still gone it is not asked again and the grace is not put off,
/// and when the meeting returns it is taken away.
pub proof fn law_the_question_shows_once(
    auto: AutoRecording,
    gone_at: Instant,
    seen: Seq<Observation>,
)
    requires
        auto.expects_meeting(),
        never_active(seen),
    ensures
        auto.question(false) == Some(true),
        ({
            let later = after_observations(auto.observed(false, gone_at), seen);
            &&& later == auto.observed(false, gone_at)
            &&& later.ended_since == Some(gone_at)
            &&& later.question(false) is None
            &&& later.question(true) == Some(false)
        }),
    decreases seen.len(),
{
    if seen.len() > 0 {
        law_the_question_shows_once(auto, gone_at, seen.drop_last());
    }
}

/// When the meeting comes back, it is as if it had never been gone, and its next absence is asked
/// about again.
pub proof fn law_a_returning_meeting_is_expected_again(auto: AutoRecording, at: Instant)
    ensures
        auto.observed(true, at).expects_meeting(),
        auto.observed(true, at).question(true) is None,
        auto.observed(true, at).question(false) == Some(true),
        auto.expects_meeting() ==> auto.observed(false, at).observed(true, at) == auto,
{
}

/// After "keep going" the absence of the meeting is no end: however often the detector finds it
/// gone nothing is asked and it never ends the recording, until the meeting has come back; from
/// then on its absence counts again.
pub proof fn law_keeping_going_waits_for_the_meeting(
    auto: AutoRecording,
    seen: Seq<Observation>,
    now: Instant,
    back_at: Instant,
    gone_at: Instant,
)
    requires
        never_active(seen),
    ensures
        ({
            let waiting = after_observations(auto.kept_going(), seen);
            &&& waiting == auto.kept_going()
            &&& waiting.question(false) is None
            &&& waiting.stop_cause(now) != Some(StopCause::MeetingEnded)
            &&& waiting.question(true) is None
            &&& waiting.observed(true, back_at).question(false) == Some(true)
            &&& waiting.observed(true, back_at).observed(false, gone_at).ended_since == Some(
                gone_at,
            )
        }),
    decreases seen.len(),
{
    if seen.len() > 0 {
        law_keeping_going_waits_for_the_meeting(auto, seen.drop_last(), now, back_at, gone_at);
    }
}

/// Once the meeting was seen, its absence was noticed no earlier than that.
proof fn lemma_absence_noticed_after(
    auto: AutoRecording,
    seen_at: Instant,
    seen: Seq<Observation>,
)
    requires
        forall|i: int| 0 <= i < seen.len() ==> seen_at.nanos <= (#[trigger] seen[i]).at.nanos,
    ensures
        after_observations(auto.observed(true, seen_at), seen).ended_since matches Some(since)
            ==> seen_at.nanos <= since.nanos,
    decreases seen.len(),
{
    if seen.len() > 0 {
        lemma_absence_noticed_after(auto, seen_at, seen.drop_last());
    }
}

/// A recording ends because its meeting did only once the meeting stayed gone for the grace:
/// whatever the detector saw after it last saw the meeting at `seen_at`, at least that long has
/// passed since.
pub proof fn law_the_meeting_ended_only_after_the_grace(
    auto: AutoRecording,
    seen_at: Instant,
    seen: Seq<Observation>,
    now: Instant,
)
    requires
        forall|i: int| 0 <= i < seen.len() ==> seen_at.nanos <= (#[trigger] seen[i]).at.nanos,
        after_observations(auto.observed(true, seen_at), seen).stop_cause(now) == Some(
            StopCause::MeetingEnded,
        ),
    ensures
        now.nanos >= seen_at.nanos + END_GRACE,
{
    lemma_absence_noticed_after(auto, seen_at, seen);
}

/// Whether and since when a recording runs, and that it waits to start, is nothing the detector
/// changes.
proof fn lemma_observations_keep_the_start(auto: AutoRecording, seen: Seq<Observation>)
    ensures
        after_observations(auto, seen).started_at == auto.started_at,
        after_observations(auto, seen).requested_at == auto.requested_at,
    decreases seen.len(),
{
    if seen.len() > 0 {
        lemma_observations_keep_the_start(auto, seen.drop_last());
    }
}

/// A recording that started stops after the maximum duration at the latest, and one that did not
/// start is given up after the start timeout, whatever the detector sees.
pub proof fn law_no_recording_goes_on_forever(
    auto: AutoRecording,
    seen: Seq<Observation>,
    now: Instant,
)
    ensures
        auto.started_at matches Some(at) && now.nanos >= at.nanos + MAX_AUTO_RECORDING
            ==> after_observations(auto, seen).stop_cause(now) == Some(StopCause::MaximumDuration),
        auto.started_at is None ==> (after_observations(auto, seen).stop_cause(now) == Some(
            StopCause::NeverStarted,
        ) <==> now.nanos >= auto.requested_at.nanos + START_TIMEOUT),
{
    lemma_observations_keep_the_start(auto, seen);
}

/// A recording that should stop still should at any later time.
pub proof fn law_a_reason_to_stop_does_not_go_away(
    auto: AutoRecording,
    now: Instant,
    later: Instant,
)
    requires
        now.nanos <= later.nanos,
        auto.stop_cause(now) is Some,
    ensures
        auto.stop_cause(later) is Some,
{
}

/// The three reasons to stop read differently.
pub proof fn law_reasons_read_differently(a: StopCause, b: StopCause)
    requires
        a.text() == b.text(),
    ensures
        a == b,
{
    reveal_strlit("the recording never started");
    reveal_strlit("the maximum duration was reached");
    reveal_strlit("the meeting ended");
    assert("the recording never started"@.len() == 27);
    assert("the maximum duration was reached"@.len() == 32);
    assert("the meeting ended"@.len() == 17);
}

} // verus!
