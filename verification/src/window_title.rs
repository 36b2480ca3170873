//! Finding the browser that hosts a meeting, and which meeting it is, by window title.

use vstd::prelude::*;

use crate::detect::{ProcessInfo, Source};
use crate::text::{same_text, starts_with, utf16_text};

#[allow(unused_imports)]
use crate::text::{decode_utf16, trimmed};

verus! {

/// The titles that a Google Meet window has, once surrounding white space is gone.
pub open spec fn meet_title(title: Seq<char>) -> bool {
    ||| trimmed(title) == "Google Meet"@
    ||| "Meet – "@.is_prefix_of(trimmed(title))
    ||| "Meet - "@.is_prefix_of(trimmed(title))
}

/// The titles that a Cal Video window has, once surrounding white space is gone.
pub open spec fn cal_video_title(title: Seq<char>) -> bool {
    "Cal.com Video"@.is_prefix_of(trimmed(title))
}

/// The meeting that a window title names.
pub open spec fn title_source(title: Seq<char>) -> Option<Source> {
    if meet_title(title) {
        Some(Source::Meet)
    } else if cal_video_title(title) {
        Some(Source::CalVideo)
    } else {
        None
    }
}

/// The first of `browsers` that runs under `pid`.
pub open spec fn browser_with_pid(browsers: Seq<ProcessInfo>, pid: u32) -> Option<ProcessInfo>
    decreases browsers.len(),
{
    if browsers.len() == 0 {
        None
    } else if browsers.first().pid == Some(pid) {
        Some(browsers.first())
    } else {
        browser_with_pid(browsers.drop_first(), pid)
    }
}

/// The browser and the meeting that a window of process `pid` with this title stands for.
pub open spec fn window_match(
    browsers: Seq<ProcessInfo>,
    pid: u32,
    title: Seq<char>,
) -> Option<(ProcessInfo, Source)> {
    match (browser_with_pid(browsers, pid), title_source(title)) {
        (Some(browser), Some(source)) => Some((browser, source)),
        _ => None,
    }
}

/// What is known of a window: who owns it and what it is called, where either can be told.
pub ghost struct WindowView {
    pub pid: Option<u32>,
    pub title: Option<Seq<char>>,
}

impl WindowView {
    /// The browser and the meeting that this window stands for.
    pub open spec fn meeting(self, browsers: Seq<ProcessInfo>) -> Option<(ProcessInfo, Source)> {
        match (self.pid, self.title) {
            (Some(pid), Some(title)) => window_match(browsers, pid, title),
            _ => None,
        }
    }
}

/// The meeting of the first window that stands for one.
pub open spec fn first_meeting(
    browsers: Seq<ProcessInfo>,
    windows: Seq<WindowView>,
) -> Option<(ProcessInfo, Source)>
    decreases windows.len(),
{
    if windows.len() == 0 {
        None
    } else if windows.first().meeting(browsers) is Some {
        windows.first().meeting(browsers)
    } else {
        first_meeting(browsers, windows.drop_first())
    }
}

/// Whether a window title is that of a Google Meet call.
pub fn is_meet_title(title: &str) -> (r: bool)
    ensures
        r == meet_title(title@),
{
    let title = title.trim();
    same_text(title, "Google Meet") || starts_with(title, "Meet – ") || starts_with(
        title,
        "Meet - ",
    )
}

/// Whether a window title is that of a Cal Video call. The page is titled "Cal.com Video"; some
/// browsers append their own name.
pub fn is_cal_video_title(title: &str) -> (r: bool)
    ensures
        r == cal_video_title(title@),
{
    starts_with(title.trim(), "Cal.com Video")
}

/// The meeting that a window title names.
pub fn source_for_title(title: &str) -> (r: Option<Source>)
    ensures
        r == title_source(title@),
{
    if is_meet_title(title) {
        Some(Source::Meet)
    } else if is_cal_video_title(title) {
        Some(Source::CalVideo)
    } else {
        None
    }
}

/// The position in `browsers` of the first one that runs under `pid`.
fn find_browser(browsers: &[ProcessInfo], pid: u32) -> (r: Option<usize>)
    ensures
        match r {
            Some(i) => i < browsers@.len() && browser_with_pid(browsers@, pid) == Some(
                browsers@[i as int],
            ),
            None => browser_with_pid(browsers@, pid) is None,
        },
{
    let mut i: usize = 0;
    assert(browsers@.skip(0) =~= browsers@);
    while i < browsers.len()
        invariant
            i <= browsers@.len(),
            browser_with_pid(browsers@.skip(i as int), pid) == browser_with_pid(browsers@, pid),
        decreases browsers@.len() - i,
    {
        assert(browsers@.skip(i as int).first() == browsers@[i as int]);
        assert(browsers@.skip(i as int).drop_first() =~= browsers@.skip(i + 1));
        if let Some(own) = browsers[i].pid {
            if own == pid {
                return Some(i);
            }
        }
        i = i + 1;
    }
    None
}

/// Whether one of `browsers` runs under `pid`.
pub fn has_browser(browsers: &[ProcessInfo], pid: u32) -> (r: bool)
    ensures
        r == browser_with_pid(browsers@, pid) is Some,
{
    find_browser(browsers, pid).is_some()
}

/// The browser and the meeting that a window of process `pid` with this title stands for.
pub fn matching_browser(browsers: &[ProcessInfo], pid: u32, title: &str) -> (r: Option<
    (ProcessInfo, Source),
>)
    ensures
        r == window_match(browsers@, pid, title@),
{
    match source_for_title(title) {
        None => None,
        Some(source) => match find_browser(browsers, pid) {
            None => None,
            Some(i) => Some((browsers[i].clone(), source)),
        },
    }
}

/// A window whose owner and title are both known.
#[derive(Debug, PartialEq, Eq)]
pub struct WindowIdentity {
    pub pid: u32,
    pub title: String,
}

impl View for WindowIdentity {
    type V = WindowView;

    open spec fn view(&self) -> WindowView {
        WindowView { pid: Some(self.pid), title: Some(self.title@) }
    }
}

/// The identity of a window, from the signed process number and the title that the system
/// reports for it. There is none where either is missing or the number is no process number.
pub fn window_identity(pid: Option<i64>, title: Option<String>) -> (r: Option<WindowIdentity>)
    ensures
        match r {
            Some(window) => pid == Some(window.pid as i64) && title == Some(window.title),
            None => title is None || pid is None || pid->0 < 0 || pid->0 > u32::MAX,
        },
{
    match (pid, title) {
        (Some(pid), Some(title)) => if 0 <= pid && pid <= u32::MAX as i64 {
            Some(WindowIdentity { pid: pid as u32, title })
        } else {
            None
        },
        _ => None,
    }
}

/// A window that an enumeration hands out.
pub ghost struct EnumeratedWindow {
    pub visible: bool,
    pub pid: u32,
    /// The UTF-16 units of the title; none where it cannot be read or is empty.
    pub title: Seq<u16>,
}

impl EnumeratedWindow {
    /// The title of this window is worth reading, and there is one.
    pub open spec fn inspected(self, browsers: Seq<ProcessInfo>) -> bool {
        &&& self.visible
        &&& browser_with_pid(browsers, self.pid) is Some
        &&& self.title.len() > 0
    }

    /// What has been found once this window was taken in, given what was found before it.
    pub open spec fn found(
        self,
        browsers: Seq<ProcessInfo>,
        before: Option<(ProcessInfo, Source)>,
    ) -> Option<(ProcessInfo, Source)> {
        if self.inspected(browsers) {
            window_match(browsers, self.pid, decode_utf16(self.title))
        } else {
            before
        }
    }

    /// Whether the enumeration goes on after this window.
    pub open spec fn goes_on(self, browsers: Seq<ProcessInfo>) -> bool {
        self.inspected(browsers) ==> self.found(browsers, None) is None
    }

    /// What can be known of this window: one that cannot be seen has no owner that matters, and
    /// an empty title is none.
    pub open spec fn window(self) -> WindowView {
        WindowView {
            pid: if self.visible {
                Some(self.pid)
            } else {
                None
            },
            title: if self.title.len() > 0 {
                Some(decode_utf16(self.title))
            } else {
                None
            },
        }
    }
}

/// A search through windows that are handed out one at a time, until one of them stands for a
/// meeting.
pub struct Search<'a> {
    pub browsers: &'a [ProcessInfo],
    pub found: Option<(ProcessInfo, Source)>,
}

impl<'a> Search<'a> {
    /// A search that has found nothing yet.
    pub fn new(browsers: &'a [ProcessInfo]) -> (search: Search<'a>)
        ensures
            search.browsers@ == browsers@,
            search.found is None,
    {
        Search { browsers, found: None }
    }

    /// Whether the title of a window could matter, so that it should be read.
    pub fn needs_title(&self, visible: bool, pid: u32) -> (r: bool)
        ensures
            r == (visible && browser_with_pid(self.browsers@, pid) is Some),
    {
        visible && has_browser(self.browsers, pid)
    }

    /// Takes in the next window. The title stands in the first `length` units of `buffer`; a
    /// `length` that is not positive means that there is none. Returns whether to go on with the
    /// enumeration.
    pub fn inspect_window(&mut self, visible: bool, pid: u32, buffer: &[u16], length: i32) -> (r:
        bool)
        requires
            length <= buffer@.len(),
        ensures
            final(self).browsers == old(self).browsers,
            ({
                let window = EnumeratedWindow {
                    visible,
                    pid,
                    title: if length > 0 {
                        buffer@.take(length as int)
                    } else {
                        Seq::empty()
                    },
                };
                &&& final(self).found == window.found(old(self).browsers@, old(self).found)
                &&& r == window.goes_on(old(self).browsers@)
            }),
    {
        if !self.needs_title(visible, pid) || length <= 0 {
            return true;
        }
        let title = utf16_text(vstd::slice::slice_subrange(buffer, 0, length as usize));
        assert(buffer@.subrange(0, length as int) =~= buffer@.take(length as int));
        self.found = matching_browser(self.browsers, pid, title.as_str());
        self.found.is_none()
    }
}

/// The browser hosting a meeting, and which meeting it is, among windows listed in order: that of
/// the first window that stands for one.
pub fn meeting_process(browsers: &[ProcessInfo], windows: &[WindowIdentity]) -> (r: Option<
    (ProcessInfo, Source),
>)
    ensures
        r == first_meeting(browsers@, windows@.map_values(|window: WindowIdentity| window@)),
{
    let ghost views = windows@.map_values(|window: WindowIdentity| window@);
    let mut i: usize = 0;
    assert(views.skip(0) =~= views);
    while i < windows.len()
        invariant
            i <= windows@.len(),
            views == windows@.map_values(|window: WindowIdentity| window@),
            first_meeting(browsers@, views.skip(i as int)) == first_meeting(browsers@, views),
        decreases windows@.len() - i,
    {
        assert(views.skip(i as int).first() == windows@[i as int]@);
        assert(views.skip(i as int).drop_first() =~= views.skip(i + 1));
        let found = matching_browser(browsers, windows[i].pid, windows[i].title.as_str());
        if found.is_some() {
            return found;
        }
        i = i + 1;
    }
    None
}

} // verus!
