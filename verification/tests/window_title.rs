use meeting_prompt::detect::{ProcessInfo, Source};
use meeting_prompt::text::{latin1_text, utf16_text};
use meeting_prompt::window_title::{
    has_browser, is_cal_video_title, is_meet_title, matching_browser, meeting_process,
    source_for_title, window_identity, Search, WindowIdentity,
};

fn browser(pid: Option<u32>, name: &str) -> ProcessInfo {
    ProcessInfo {
        pid,
        name: name.into(),
        executable: None,
        bundle_id: None,
    }
}

fn window(pid: u32, title: &str) -> WindowIdentity {
    WindowIdentity {
        pid,
        title: title.into(),
    }
}

fn units(title: &str) -> Vec<u16> {
    title.encode_utf16().collect()
}

#[test]
fn recognizes_only_meet_window_titles() {
    assert!(is_meet_title("Meet – Daily standup"));
    assert!(is_meet_title("Meet - Daily standup"));
    assert!(is_meet_title("  Google Meet  "));
    assert!(!is_meet_title("Google Meet - Google Chrome"));
    assert!(!is_meet_title("Inbox - Google Chrome"));
}

#[test]
fn recognizes_cal_video_titles_with_or_without_the_browser_suffix() {
    assert!(is_cal_video_title("Cal.com Video"));
    assert!(is_cal_video_title("Cal.com Video - Google Chrome"));
    assert!(is_cal_video_title("Cal.com Video – Brave"));
    assert!(!is_cal_video_title("No meeting found | Cal.com"));
    assert!(!is_cal_video_title("Cal.com | Scheduling"));
    assert_eq!(source_for_title("Cal.com Video"), Some(Source::CalVideo));
    assert_eq!(source_for_title("Meet – Daily standup"), Some(Source::Meet));
    assert_eq!(source_for_title("Inbox"), None);
}

#[test]
fn matches_only_a_supplied_browser_pid() {
    let browsers = [browser(Some(42), "chrome"), browser(None, "firefox")];
    assert_eq!(
        matching_browser(&browsers, 42, "Meet – Daily standup"),
        Some((browsers[0].clone(), Source::Meet))
    );
    assert_eq!(
        matching_browser(&browsers, 42, "Cal.com Video - Google Chrome"),
        Some((browsers[0].clone(), Source::CalVideo))
    );
    assert_eq!(matching_browser(&browsers, 7, "Google Meet"), None);
    assert_eq!(matching_browser(&browsers, 42, "Inbox"), None);
}

#[test]
fn a_clone_of_a_process_keeps_every_field() {
    let process = ProcessInfo {
        pid: Some(9),
        name: "chrome".into(),
        executable: Some("/usr/bin/chrome".into()),
        bundle_id: Some("com.google.Chrome".into()),
    };
    assert_eq!(process.clone(), process);
}

#[test]
fn every_kind_of_white_space_around_a_title_is_ignored() {
    assert!(is_meet_title("\t\u{85}\u{A0}\u{1680}\u{2003}Google Meet\u{2028}\u{202F}\u{205F}\u{3000}\n"));
    assert!(is_cal_video_title("\u{200A}\r\n Cal.com Video\u{B}"));
    // A zero-width space is not white space.
    assert!(!is_meet_title("\u{200B}Google Meet"));
    assert!(!is_meet_title("Google\u{A0}Meet"));
}

#[test]
fn a_meet_title_needs_a_name_after_the_dash() {
    assert!(!is_meet_title("Meet - "));
    assert!(!is_meet_title("Meet – "));
    assert!(is_meet_title("Meet -  x "));
    assert!(!is_meet_title("Meet -x"));
    assert!(!is_meet_title(""));
    assert!(!is_meet_title("google meet"));
}

#[test]
fn the_first_browser_with_the_pid_is_taken() {
    let browsers = [
        browser(Some(1), "a"),
        browser(Some(2), "b"),
        browser(Some(2), "c"),
    ];
    assert_eq!(
        matching_browser(&browsers, 2, "Google Meet"),
        Some((browsers[1].clone(), Source::Meet))
    );
    assert!(has_browser(&browsers, 2));
    assert!(!has_browser(&browsers, 3));
    assert!(!has_browser(&[], 1));
}

#[test]
fn the_first_window_with_a_meeting_wins() {
    let browsers = [browser(Some(1), "a"), browser(Some(2), "b")];
    let windows = [
        window(3, "Google Meet"),
        window(1, "Inbox"),
        window(2, "Cal.com Video"),
        window(1, "Google Meet"),
    ];
    assert_eq!(
        meeting_process(&browsers, &windows),
        Some((browsers[1].clone(), Source::CalVideo))
    );
    assert_eq!(meeting_process(&browsers, &windows[..2]), None);
    assert_eq!(meeting_process(&[], &windows), None);
    assert_eq!(meeting_process(&browsers, &[]), None);
}

#[test]
fn a_window_without_a_process_number_has_no_identity() {
    assert_eq!(
        window_identity(Some(7), Some("Google Meet".into())),
        Some(window(7, "Google Meet"))
    );
    assert_eq!(
        window_identity(Some(u32::MAX as i64), Some("x".into())),
        Some(window(u32::MAX, "x"))
    );
    assert_eq!(window_identity(Some(u32::MAX as i64 + 1), Some("x".into())), None);
    assert_eq!(window_identity(Some(-1), Some("x".into())), None);
    assert_eq!(window_identity(None, Some("x".into())), None);
    assert_eq!(window_identity(Some(7), None), None);
}

#[test]
fn an_enumeration_goes_on_until_a_meeting_is_found() {
    let browsers = [browser(Some(42), "chrome")];
    let meet = units("Meet – Daily standup");
    let inbox = units("Inbox");
    let mut search = Search::new(&browsers);
    assert!(search.inspect_window(false, 42, &meet, meet.len() as i32));
    assert!(search.inspect_window(true, 7, &meet, meet.len() as i32));
    assert!(search.inspect_window(true, 42, &meet, 0));
    assert!(search.inspect_window(true, 42, &meet, -1));
    assert!(search.inspect_window(true, 42, &inbox, inbox.len() as i32));
    // Only the units that were written count.
    assert!(search.inspect_window(true, 42, &meet, 4));
    assert!(search.found.is_none());
    assert!(!search.inspect_window(true, 42, &meet, meet.len() as i32));
    assert_eq!(search.found, Some((browsers[0].clone(), Source::Meet)));
}

#[test]
fn a_title_is_read_only_of_a_visible_browser_window() {
    let browsers = [browser(Some(42), "chrome")];
    let search = Search::new(&browsers);
    assert!(search.needs_title(true, 42));
    assert!(!search.needs_title(false, 42));
    assert!(!search.needs_title(true, 7));
}

#[test]
fn utf16_is_read_as_std_reads_it() {
    let cases: [&[u16]; 9] = [
        &[],
        &[0x4D, 0x65, 0x65, 0x74, 0x20, 0x2013],
        &[0xD83D, 0xDE00, 0x41],
        &[0xD83D],
        &[0xD83D, 0x41],
        &[0xDE00, 0xD83D],
        &[0xD83D, 0xD83D, 0xDE00],
        &[0xD800, 0xDC00, 0xDBFF, 0xDFFF],
        &[0xD7FF, 0xE000, 0xFFFF],
    ];
    for case in cases {
        assert_eq!(utf16_text(case), String::from_utf16_lossy(case));
    }
    assert_eq!(utf16_text(&[0xD83D, 0x41]), "\u{FFFD}A");
}

#[test]
fn latin1_gives_every_byte_its_character() {
    assert_eq!(latin1_text(&[0x4D, 0xE9, 0xFF, 0x00]), "M\u{E9}\u{FF}\u{0}");
    assert_eq!(latin1_text(&[]), "");
}
