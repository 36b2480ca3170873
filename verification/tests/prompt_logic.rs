use meeting_prompt::detect::{MeetingState, Source};
use meeting_prompt::prompt_logic::{MeetingPromptPayload, PromptLogic, PromptMode};

fn zoom(active: bool) -> MeetingState {
    MeetingState {
        recording: active,
        source: active.then_some(Source::Zoom),
    }
}

#[test]
fn dismissal_lasts_until_the_detected_session_ends() {
    let mut state = PromptLogic::default();
    state.detection(zoom(true));
    assert!(state.current.is_some());
    state.dismiss();
    state.detection(zoom(true));
    assert!(state.current.is_none());
    state.detection(zoom(false));
    state.detection(zoom(true));
    assert!(state.current.is_some());
}

#[test]
fn vibe_recording_dismisses_the_whole_current_mic_session() {
    let mut state = PromptLogic::default();
    state.detection(zoom(true));
    assert!(state.recording_started());
    state.recording_stopped();
    state.detection(zoom(true));
    assert!(state.current.is_none());
    state.detection(zoom(false));
    state.detection(zoom(true));
    assert!(state.current.is_some());
}

#[test]
fn suppressing_the_question_dismisses_the_current_mic_session() {
    let mut state = PromptLogic::default();
    state.detection(zoom(true));
    assert!(state.current.is_some());
    state.suppress_question();
    assert!(state.current.is_none());
    assert!(!state.detection(zoom(true)));
    state.detection(zoom(false));
    state.detection(zoom(true));
    assert!(state.current.is_some());
}

#[test]
fn meeting_detected_during_vibe_recording_is_also_suppressed_until_mic_release() {
    let mut state = PromptLogic::default();
    state.recording_started();
    state.detection(zoom(true));
    state.recording_stopped();
    assert!(state.current.is_none());
    state.detection(zoom(false));
    state.detection(zoom(true));
    assert!(state.current.is_some());
}

#[test]
fn a_detection_reports_whether_the_question_changed() {
    let mut state = PromptLogic::default();
    assert!(!state.detection(zoom(false)));
    assert!(state.detection(zoom(true)));
    assert_eq!(
        state.current,
        Some(MeetingPromptPayload {
            source: Source::Zoom,
            mode: PromptMode::Ask
        })
    );
    assert!(!state.detection(zoom(true)));
    let meet = MeetingState {
        recording: true,
        source: Some(Source::Meet),
    };
    assert!(state.detection(meet));
    let unknown = MeetingState {
        recording: true,
        source: None,
    };
    assert!(state.detection(unknown));
    assert_eq!(state.current, None);
    assert!(!state.dismissed);
}

#[test]
fn dismissing_without_a_meeting_dismisses_nothing() {
    let mut state = PromptLogic::default();
    assert!(!state.dismiss());
    state.suppress_question();
    assert!(!state.dismissed);
    assert!(state.detection(zoom(true)));
    assert!(state.dismiss());
    assert!(!state.dismiss());
}

#[test]
fn the_count_of_recordings_stays_in_range() {
    let mut state = PromptLogic::default();
    state.recording_stopped();
    assert_eq!(state.own_recordings, 0);
    assert!(!state.recording_started());
    assert!(!state.recording_started());
    state.recording_stopped();
    assert_eq!(state.own_recordings, 1);
    state.own_recordings = u32::MAX;
    state.recording_started();
    assert_eq!(state.own_recordings, u32::MAX);
}

#[test]
fn a_reset_keeps_the_count_of_recordings() {
    let mut state = PromptLogic::default();
    state.detection(zoom(true));
    state.recording_started();
    state.reset_detection();
    assert_eq!(
        state,
        PromptLogic {
            own_recordings: 1,
            ..PromptLogic::default()
        }
    );
}
