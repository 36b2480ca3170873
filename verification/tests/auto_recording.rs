use meeting_prompt::auto_recording::{
    AutoRecording, END_GRACE, MAX_AUTO_RECORDING, START_TIMEOUT,
};
use meeting_prompt::clock::{Instant, SECOND};
use meeting_prompt::detect::Source;

fn after(t: Instant, nanos: u128) -> Instant {
    Instant {
        nanos: t.nanos + nanos,
    }
}

const T0: Instant = Instant {
    nanos: 1_000_000_000_000,
};

#[test]
fn an_automatic_recording_stops_only_after_the_meeting_stayed_gone_for_the_grace() {
    let t0 = T0;
    let mut auto = AutoRecording::new(Source::Meet, t0);
    assert_eq!(auto.stop_reason(t0), None);
    assert_eq!(auto.stop_reason(after(t0, START_TIMEOUT)), Some("the recording never started"));
    auto.started_at = Some(after(t0, SECOND));
    assert_eq!(auto.stop_reason(after(t0, START_TIMEOUT)), None);
    auto.ended_since = Some(after(t0, 60 * SECOND));
    assert_eq!(auto.stop_reason(after(t0, 70 * SECOND)), None);
    assert_eq!(
        auto.stop_reason(after(t0, 60 * SECOND + END_GRACE)),
        Some("the meeting ended")
    );
    auto.ended_since = None;
    assert_eq!(
        auto.stop_reason(after(t0, SECOND + MAX_AUTO_RECORDING)),
        Some("the maximum duration was reached")
    );
}

#[test]
fn the_end_of_call_question_shows_once_and_goes_away_when_the_meeting_returns() {
    let t0 = T0;
    let mut auto = AutoRecording::new(Source::Meet, t0);
    assert_eq!(auto.observe(true, t0), None);
    assert_eq!(auto.observe(false, t0), Some(true));
    assert_eq!(auto.observe(false, after(t0, SECOND)), None);
    assert_eq!(auto.ended_since, Some(t0));
    assert_eq!(auto.observe(true, after(t0, 2 * SECOND)), Some(false));
    assert_eq!(auto.ended_since, None);
}

#[test]
fn keeping_going_after_an_apparent_end_waits_for_the_meeting_to_come_back() {
    let t0 = T0;
    let mut auto = AutoRecording::new(Source::Meet, t0);
    auto.started_at = Some(t0);
    assert_eq!(auto.observe(false, t0), Some(true));
    auto.keep_going();
    assert_eq!(auto.stop_reason(after(t0, END_GRACE)), None);
    assert_eq!(auto.observe(false, after(t0, 5 * SECOND)), None);
    assert_eq!(auto.observe(true, after(t0, 6 * SECOND)), None);
    assert_eq!(auto.observe(false, after(t0, 7 * SECOND)), Some(true));
    assert_eq!(
        auto.stop_reason(after(t0, 7 * SECOND + END_GRACE)),
        Some("the meeting ended")
    );
}

#[test]
fn every_limit_is_reached_to_the_nanosecond() {
    assert_eq!(START_TIMEOUT, 15_000_000_000);
    assert_eq!(MAX_AUTO_RECORDING, 10_800_000_000_000);
    assert!(END_GRACE > 10_000_000_000);
    let mut auto = AutoRecording::new(Source::Zoom, T0);
    assert_eq!(auto.stop_reason(after(T0, START_TIMEOUT - 1)), None);
    auto.started_at = Some(T0);
    assert_eq!(auto.stop_reason(after(T0, MAX_AUTO_RECORDING - 1)), None);
    auto.ended_since = Some(T0);
    assert_eq!(auto.stop_reason(after(T0, END_GRACE - 1)), None);
    // A recording at its maximum duration says so even if its meeting is gone too.
    assert_eq!(
        auto.stop_reason(after(T0, MAX_AUTO_RECORDING)),
        Some("the maximum duration was reached")
    );
}

#[test]
fn an_absence_does_not_end_a_recording_that_never_started() {
    let mut auto = AutoRecording::new(Source::Zoom, T0);
    assert_eq!(auto.observe(false, T0), Some(true));
    assert_eq!(auto.stop_reason(after(T0, END_GRACE)), None);
    assert_eq!(auto.stop_reason(after(T0, START_TIMEOUT)), Some("the recording never started"));
}

#[test]
fn a_clock_that_runs_backwards_measures_nothing() {
    let earlier = Instant { nanos: 5 };
    let later = Instant { nanos: 12 };
    assert_eq!(later.duration_since(earlier), 7);
    assert_eq!(earlier.duration_since(later), 0);
}
