use meeting_prompt::detect::{ProcessInfo, Source};
use meeting_prompt::x11::{
    environment_is_wayland, first_cardinal, first_of, legacy_title, utf8_title, PropertyReply,
    Request, WindowSearch,
};

fn reply(format: u8, value: &[u8]) -> PropertyReply {
    PropertyReply {
        format,
        value: value.to_vec(),
    }
}

fn cardinals(numbers: &[u32]) -> PropertyReply {
    let mut value = Vec::new();
    for number in numbers {
        value.extend_from_slice(&number.to_ne_bytes());
    }
    PropertyReply { format: 32, value }
}

fn text(title: &str) -> PropertyReply {
    reply(8, title.as_bytes())
}

fn browser(pid: u32) -> ProcessInfo {
    ProcessInfo {
        pid: Some(pid),
        name: "chrome".into(),
        executable: None,
        bundle_id: None,
    }
}

#[test]
fn x11_property_parsers_reject_wrong_formats() {
    assert_eq!(first_cardinal(&reply(8, &[42])), None);
    assert_eq!(utf8_title(reply(8, &[42])).as_deref(), Some("*"));
}

#[test]
fn a_cardinal_takes_four_bytes_in_the_order_of_the_machine() {
    assert_eq!(first_cardinal(&reply(32, &[1, 2, 3, 4])), Some(u32::from_ne_bytes([1, 2, 3, 4])));
    assert_eq!(first_cardinal(&cardinals(&[0xDEAD_BEEF, 5])), Some(0xDEAD_BEEF));
    assert_eq!(first_cardinal(&reply(32, &[1, 2, 3])), None);
    assert_eq!(first_cardinal(&reply(32, &[])), None);
    assert_eq!(first_cardinal(&reply(16, &[1, 2, 3, 4])), None);
}

#[test]
fn the_first_of_some_numbers_is_the_owner() {
    assert_eq!(first_of(&[7, 8]), Some(7));
    assert_eq!(first_of(&[]), None);
}

#[test]
fn titles_are_read_in_their_encoding() {
    assert_eq!(utf8_title(text("Meet – x")).as_deref(), Some("Meet – x"));
    assert_eq!(utf8_title(reply(8, &[0xE9])), None);
    assert_eq!(utf8_title(reply(8, &[0xED, 0xA0, 0x80])), None);
    assert_eq!(utf8_title(reply(32, &[42])), None);
    assert_eq!(legacy_title(reply(8, &[0xE9])).as_deref(), Some("\u{E9}"));
    assert_eq!(legacy_title(reply(16, &[0xE9])), None);
}

#[test]
fn a_wayland_session_is_told_by_its_type_or_its_displays() {
    assert!(environment_is_wayland("wayland", None, None));
    assert!(environment_is_wayland("Wayland", None, Some(b":0")));
    assert!(!environment_is_wayland("wayland2", None, None));
    assert!(!environment_is_wayland("x11", None, None));
    assert!(environment_is_wayland("", Some(b"wayland-0"), None));
    assert!(environment_is_wayland("tty", Some(b"wayland-0"), Some(b"")));
    assert!(!environment_is_wayland("", Some(b"wayland-0"), Some(b":0")));
    assert!(!environment_is_wayland("", Some(b""), None));
    assert!(!environment_is_wayland("", None, Some(b":0")));
}

#[test]
fn a_search_asks_for_one_thing_at_a_time() {
    let browsers = [browser(42)];
    let mut search = WindowSearch::new(&browsers, false);
    assert_eq!(search.request(), Some(Request::ClientList));
    search.answer(Some(cardinals(&[10, 11, 12, 13, 14])));
    // Nobody tells who owns the first window, and the second one is no browser's.
    assert_eq!(search.request(), Some(Request::OwnerPid { window: 10 }));
    search.answer(None);
    assert_eq!(search.request(), Some(Request::OwnerPid { window: 11 }));
    search.answer(Some(cardinals(&[7])));
    // The third one is called something else.
    assert_eq!(search.request(), Some(Request::OwnerPid { window: 12 }));
    search.answer(Some(cardinals(&[42])));
    assert_eq!(search.request(), Some(Request::Name { window: 12 }));
    search.answer(Some(text("Inbox")));
    // The fourth one has no title at all.
    assert_eq!(search.request(), Some(Request::OwnerPid { window: 13 }));
    search.answer(Some(cardinals(&[42])));
    assert_eq!(search.request(), Some(Request::Name { window: 13 }));
    search.answer(None);
    assert_eq!(search.request(), Some(Request::LegacyName { window: 13 }));
    search.answer(None);
    // The last one has only the older one.
    assert_eq!(search.request(), Some(Request::OwnerPid { window: 14 }));
    search.answer(Some(cardinals(&[42])));
    assert_eq!(search.request(), Some(Request::Name { window: 14 }));
    search.answer(Some(reply(32, b"Inbox")));
    assert_eq!(search.request(), Some(Request::LegacyName { window: 14 }));
    search.answer(Some(text("Cal.com Video")));
    assert_eq!(search.request(), None);
    assert_eq!(search.into_found(), Some((browsers[0].clone(), Source::CalVideo)));
}

#[test]
fn a_search_stops_at_the_first_meeting() {
    let browsers = [browser(42)];
    let mut search = WindowSearch::new(&browsers, false);
    search.take_windows(Some(vec![1, 2]));
    search.take_owner(Some(42));
    search.take_name(42, Some("Google Meet".into()));
    assert_eq!(search.request(), None);
    search.answer(Some(text("Cal.com Video")));
    assert_eq!(search.into_found(), Some((browsers[0].clone(), Source::Meet)));
}

#[test]
fn a_title_that_was_told_is_not_asked_for_again() {
    let browsers = [browser(42)];
    let mut search = WindowSearch::new(&browsers, false);
    search.take_windows(Some(vec![1, 2]));
    search.take_owner(Some(42));
    search.take_name(42, Some("Inbox".into()));
    assert_eq!(search.request(), Some(Request::OwnerPid { window: 2 }));
    search.take_owner(Some(42));
    search.take_name(42, None);
    search.take_legacy_name(42, Some("Inbox".into()));
    assert_eq!(search.request(), None);
    assert_eq!(search.into_found(), None);
}

#[test]
fn a_search_with_nothing_to_find_asks_for_nothing() {
    let browsers = [browser(42)];
    assert_eq!(WindowSearch::new(&[], false).request(), None);
    assert_eq!(WindowSearch::new(&browsers, true).request(), None);
    for list in [None, Some(reply(8, &[1, 2, 3, 4])), Some(cardinals(&[]))] {
        let mut search = WindowSearch::new(&browsers, false);
        search.answer(list);
        assert_eq!(search.request(), None);
        assert_eq!(search.into_found(), None);
    }
}
