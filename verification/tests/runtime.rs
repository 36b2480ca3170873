use meeting_prompt::auto_recording::{
    AutoRecording, FinishedAutoRecording, RecordingScope, END_GRACE, MAX_AUTO_RECORDING,
    START_TIMEOUT,
};
use meeting_prompt::clock::{Instant, SECOND};
use meeting_prompt::detect::{MeetingState, Source};
use meeting_prompt::placement::beside_main_window;
use meeting_prompt::prompt_logic::{MeetingPromptPayload, PromptMode};
use meeting_prompt::runtime::{
    recording_notice, show_state, DetectionOutcome, MeetingPromptRuntime, PromptAction, RecordingOptions,
    StartedOutcome, StopRequest, TickOutcome,
};
use meeting_prompt::settings::{store_flag, StoredValue};
use meeting_prompt::worker::{keeps_running, worker_step, DetectorPoll, StopPoll, WorkerStep};

const T0: Instant = Instant {
    nanos: 1_000_000_000_000,
};

fn after(nanos: u128) -> Instant {
    Instant {
        nanos: T0.nanos + nanos,
    }
}

fn zoom(active: bool) -> MeetingState {
    MeetingState {
        recording: active,
        source: active.then_some(Source::Zoom),
    }
}

fn payload(mode: PromptMode) -> MeetingPromptPayload {
    MeetingPromptPayload {
        source: Source::Zoom,
        mode,
    }
}

fn nothing() -> DetectionOutcome {
    DetectionOutcome::Window {
        ending: None,
        question: None,
    }
}

fn requested() -> MeetingPromptRuntime {
    let mut runtime = MeetingPromptRuntime::default();
    assert_eq!(
        runtime.apply_detection(zoom(true), true, T0),
        DetectionOutcome::Record {
            source: Source::Zoom,
            options: RecordingOptions {
                microphone: true,
                system_audio: true
            }
        }
    );
    assert_eq!(
        runtime.start_auto_recording(Source::Zoom, true),
        Some(payload(PromptMode::Recording))
    );
    runtime
}

fn running() -> MeetingPromptRuntime {
    let mut runtime = requested();
    assert_eq!(
        runtime.recording_started(after(SECOND)),
        StartedOutcome {
            hide: false,
            stop: false
        }
    );
    runtime
}

#[test]
fn without_the_opt_in_a_meeting_is_asked_about() {
    let mut runtime = MeetingPromptRuntime::default();
    assert_eq!(
        runtime.apply_detection(zoom(true), false, T0),
        DetectionOutcome::Window {
            ending: None,
            question: Some(PromptAction::Show(payload(PromptMode::Ask)))
        }
    );
    assert_eq!(runtime.auto, None);
    assert_eq!(runtime.get_meeting_prompt_state(), Some(payload(PromptMode::Ask)));
    assert_eq!(
        runtime.meeting_prompt_ready(),
        PromptAction::Show(payload(PromptMode::Ask))
    );
    assert_eq!(runtime.apply_detection(zoom(true), false, T0), nothing());
    assert_eq!(
        runtime.apply_detection(zoom(false), false, T0),
        DetectionOutcome::Window {
            ending: None,
            question: Some(PromptAction::Hide)
        }
    );
    assert_eq!(runtime.meeting_prompt_ready(), PromptAction::Hide);
}

#[test]
fn with_the_opt_in_a_meeting_is_recorded_instead() {
    let runtime = requested();
    assert_eq!(runtime.auto, Some(AutoRecording::new(Source::Zoom, T0)));
    assert_eq!(runtime.get_meeting_prompt_state(), None);
    assert!(runtime.logic.dismissed);
}

#[test]
fn an_unnamed_meeting_is_neither_asked_about_nor_recorded() {
    let mut runtime = MeetingPromptRuntime::default();
    let unnamed = MeetingState {
        recording: true,
        source: None,
    };
    assert_eq!(runtime.apply_detection(unnamed, true, T0), nothing());
    assert_eq!(runtime, MeetingPromptRuntime::default());
}

#[test]
fn a_dismissed_session_is_not_recorded_either() {
    let mut runtime = MeetingPromptRuntime::default();
    runtime.apply_detection(zoom(true), false, T0);
    assert_eq!(runtime.dismiss_meeting_prompt(), PromptAction::Hide);
    assert_eq!(runtime.apply_detection(zoom(true), true, T0), nothing());
    assert_eq!(runtime.auto, None);
}

#[test]
fn a_recording_that_could_not_be_asked_for_is_forgotten() {
    let mut runtime = MeetingPromptRuntime::default();
    runtime.apply_detection(zoom(true), true, T0);
    assert_eq!(runtime.start_auto_recording(Source::Zoom, false), None);
    assert_eq!(runtime.auto, None);
    assert_eq!(runtime.clear_auto(), None);
}

#[test]
fn a_dropped_microphone_that_comes_back_keeps_one_recording() {
    let mut runtime = running();
    let before = runtime.auto;
    assert_eq!(
        runtime.apply_detection(zoom(false), true, after(60 * SECOND)),
        DetectionOutcome::Window {
            ending: Some(PromptAction::Show(payload(PromptMode::Ending))),
            question: None
        }
    );
    assert_eq!(runtime.tick_auto(after(60 * SECOND + END_GRACE - 1)), TickOutcome::Nothing);
    assert_eq!(
        runtime.apply_detection(zoom(true), true, after(61 * SECOND)),
        DetectionOutcome::Window {
            ending: Some(PromptAction::Hide),
            question: None
        }
    );
    assert_eq!(runtime.auto, before);
}

#[test]
fn a_recording_whose_meeting_ended_is_told_to_stop_once() {
    let mut runtime = running();
    runtime.choose_recording_scope(RecordingScope::Shared);
    runtime.choose_recording_scope(RecordingScope::Personal);
    runtime.apply_detection(zoom(false), true, after(60 * SECOND));
    let end = after(60 * SECOND + END_GRACE);
    assert_eq!(runtime.tick_auto(end), TickOutcome::Stop("the meeting ended"));
    assert_eq!(runtime.tick_auto(end), TickOutcome::Nothing);
    assert_eq!(runtime.stop_auto_recording(), StopRequest::Nothing);
    runtime.recording_stopped();
    assert_eq!(runtime.auto, None);
    assert_eq!(
        runtime.take_finished_auto_recording(),
        Some(FinishedAutoRecording {
            scope: Some(RecordingScope::Personal)
        })
    );
    assert_eq!(runtime.take_finished_auto_recording(), None);
}

#[test]
fn nothing_in_between_makes_a_recording_stop_twice() {
    let mut runtime = running();
    runtime.choose_recording_scope(RecordingScope::Shared);
    assert_eq!(runtime.stop_auto_recording(), StopRequest::Stop);
    runtime.apply_detection(zoom(false), true, after(60 * SECOND));
    runtime.apply_detection(zoom(true), true, after(61 * SECOND));
    runtime.apply_detection(zoom(false), true, after(62 * SECOND));
    runtime.continue_auto_recording();
    runtime.dismiss_meeting_prompt();
    runtime.recording_started(after(63 * SECOND));
    assert_eq!(runtime.tick_auto(after(2 * MAX_AUTO_RECORDING)), TickOutcome::Nothing);
    assert_eq!(runtime.stop_auto_recording(), StopRequest::Nothing);
    assert_eq!(runtime.auto.unwrap().started_at, Some(after(SECOND)));
    runtime.recording_stopped();
    runtime.apply_detection(zoom(true), false, after(64 * SECOND));
    assert_eq!(
        runtime.take_finished_auto_recording(),
        Some(FinishedAutoRecording {
            scope: Some(RecordingScope::Shared)
        })
    );
}

#[test]
fn without_a_choice_the_main_window_collects_none() {
    let mut runtime = running();
    runtime.apply_detection(zoom(false), true, after(60 * SECOND));
    runtime.tick_auto(after(60 * SECOND + END_GRACE));
    runtime.recording_stopped();
    assert_eq!(
        runtime.take_finished_auto_recording(),
        Some(FinishedAutoRecording { scope: None })
    );
}

#[test]
fn the_notice_follows_a_request_that_was_sent() {
    assert_eq!(
        recording_notice(Source::Zoom, true),
        Some(payload(PromptMode::Recording))
    );
    assert_eq!(recording_notice(Source::Zoom, false), None);
    assert!(!requested().auto.unwrap().is_running());
    assert!(running().auto.unwrap().is_running());
}

#[test]
fn a_recording_that_never_started_is_given_up() {
    let mut runtime = requested();
    assert_eq!(runtime.tick_auto(after(START_TIMEOUT - 1)), TickOutcome::Nothing);
    assert_eq!(runtime.tick_auto(after(START_TIMEOUT)), TickOutcome::NeverStarted);
    assert_eq!(runtime.auto, None);
    assert_eq!(runtime.tick_auto(after(START_TIMEOUT)), TickOutcome::Nothing);
}

#[test]
fn a_recording_ends_at_its_maximum_duration() {
    let mut runtime = running();
    assert_eq!(
        runtime.tick_auto(after(SECOND + MAX_AUTO_RECORDING)),
        TickOutcome::Stop("the maximum duration was reached")
    );
}

#[test]
fn keeping_going_outlasts_the_grace() {
    let mut runtime = running();
    runtime.apply_detection(zoom(false), true, after(60 * SECOND));
    runtime.continue_auto_recording();
    assert_eq!(runtime.tick_auto(after(60 * SECOND + END_GRACE)), TickOutcome::Nothing);
    assert_eq!(
        runtime.apply_detection(zoom(false), true, after(90 * SECOND)),
        nothing()
    );
}

#[test]
fn the_user_can_stop_before_the_grace_is_over() {
    let mut runtime = running();
    assert_eq!(runtime.stop_auto_recording(), StopRequest::Stop);
    assert!(runtime.auto.unwrap().stop_requested);
    assert_eq!(runtime.stop_auto_recording(), StopRequest::Nothing);
    assert_eq!(
        MeetingPromptRuntime::default().stop_auto_recording(),
        StopRequest::Nothing
    );
}

#[test]
fn stopping_before_the_microphone_opened_cancels() {
    let mut runtime = requested();
    assert_eq!(runtime.stop_auto_recording(), StopRequest::Cancel);
    let cancelled = runtime.cancel_auto_recording();
    assert_eq!(cancelled.unwrap().started_at, None);
    assert!(!runtime.discarded(cancelled.unwrap()));
    assert!(runtime.cancel_pending);
    runtime.apply_detection(zoom(true), true, after(SECOND));
    assert_eq!(runtime.auto, None);
    assert_eq!(
        runtime.recording_started(after(2 * SECOND)),
        StartedOutcome {
            hide: false,
            stop: true
        }
    );
    assert_eq!(
        runtime.recording_started(after(3 * SECOND)),
        StartedOutcome {
            hide: false,
            stop: false
        }
    );
}

#[test]
fn cancelling_a_running_recording_stops_it_now() {
    let mut runtime = running();
    let cancelled = runtime.cancel_auto_recording().unwrap();
    assert_eq!(cancelled.started_at, Some(after(SECOND)));
    assert!(runtime.discarded(cancelled));
    assert!(!runtime.cancel_pending);
    runtime.recording_stopped();
    assert_eq!(runtime.take_finished_auto_recording(), None);
    assert_eq!(runtime.cancel_auto_recording(), None);
}

#[test]
fn only_the_first_start_counts() {
    let mut runtime = running();
    runtime.recording_started(after(9 * SECOND));
    assert_eq!(runtime.auto.unwrap().started_at, Some(after(SECOND)));
}

#[test]
fn the_question_hides_when_a_recording_starts() {
    let mut runtime = MeetingPromptRuntime::default();
    runtime.apply_detection(zoom(true), false, T0);
    assert_eq!(
        runtime.recording_started(T0),
        StartedOutcome {
            hide: true,
            stop: false
        }
    );
    assert_eq!(runtime.get_meeting_prompt_state(), None);
}

#[test]
fn switching_the_detector_off_keeps_the_count_of_recordings() {
    let mut runtime = running();
    runtime.stop_worker();
    assert_eq!(runtime.auto, None);
    assert_eq!(runtime.logic.own_recordings, 1);
    assert!(!runtime.logic.dismissed);
    assert_eq!(runtime.apply_detection(zoom(true), true, after(SECOND)), nothing());
}

#[test]
fn choices_without_an_automatic_recording_change_nothing() {
    let mut runtime = MeetingPromptRuntime::default();
    runtime.choose_recording_scope(RecordingScope::Shared);
    runtime.continue_auto_recording();
    assert_eq!(runtime.tick_auto(T0), TickOutcome::Nothing);
    assert_eq!(runtime, MeetingPromptRuntime::default());
}

#[test]
fn nothing_is_shown_while_detection_is_off() {
    assert_eq!(show_state(false, payload(PromptMode::Ask)), None);
    assert_eq!(
        show_state(true, payload(PromptMode::Ending)),
        Some(payload(PromptMode::Ending))
    );
}

#[test]
fn a_switch_is_on_only_if_the_store_says_true() {
    assert!(store_flag(Some(StoredValue::Bool(true))));
    assert!(!store_flag(Some(StoredValue::Bool(false))));
    assert!(!store_flag(Some(StoredValue::Other)));
    assert!(!store_flag(None));
}

#[test]
fn the_thread_ends_when_it_is_told_to_or_nobody_is_left() {
    assert!(keeps_running(StopPoll::Empty));
    assert!(!keeps_running(StopPoll::Stop));
    assert!(!keeps_running(StopPoll::Disconnected));
    assert_eq!(
        worker_step(DetectorPoll::State(zoom(true))),
        WorkerStep::Tick(Some(zoom(true)))
    );
    assert_eq!(worker_step(DetectorPoll::Timeout), WorkerStep::Tick(None));
    assert_eq!(worker_step(DetectorPoll::Disconnected), WorkerStep::Exit);
}

#[test]
fn without_a_monitor_the_window_goes_beside_the_main_one() {
    assert_eq!(beside_main_window(100, -50), (120, -30));
}
