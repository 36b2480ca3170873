//! What holds of every search for a meeting.

use vstd::prelude::*;

use crate::detect::{ProcessInfo, Source};

#[allow(unused_imports)]
use crate::window_title::{
    browser_with_pid, first_meeting, title_source, window_match, EnumeratedWindow, WindowView,
};
#[allow(unused_imports)]
use crate::x11::{ByteOrder, PropertyReply, Request, SearchView, Stage};

verus! {

/// A browser that is found is one of those supplied, and it runs under the process number that
/// was looked for; none is found only if none does.
pub proof fn law_only_a_supplied_browser_matches(browsers: Seq<ProcessInfo>, pid: u32)
    ensures
        match browser_with_pid(browsers, pid) {
            Some(browser) => browsers.contains(browser) && browser.pid == Some(pid),
            None => forall|i: int|
                0 <= i < browsers.len() ==> (#[trigger] browsers[i]).pid != Some(pid),
        },
    decreases browsers.len(),
{
    if browsers.len() > 0 && browsers.first().pid != Some(pid) {
        let rest = browsers.drop_first();
        law_only_a_supplied_browser_matches(rest, pid);
        match browser_with_pid(rest, pid) {
            Some(browser) => {
                let i = choose|i: int| 0 <= i < rest.len() && rest[i] == browser;
                assert(browsers[i + 1] == browser);
            },
            None => {
                assert forall|i: int| 0 <= i < browsers.len() implies (#[trigger] browsers[i]).pid
                    != Some(pid) by {
                    if i > 0 {
                        assert(rest[i - 1] == browsers[i]);
                    }
                }
            },
        }
    } else if browsers.len() > 0 {
        assert(browsers[0] == browsers.first());
    }
}

/// The meeting that a search reports is that of the first window that stands for one, and it
/// reports none only if no window does.
pub proof fn law_the_first_meeting_wins(browsers: Seq<ProcessInfo>, windows: Seq<WindowView>)
    ensures
        match first_meeting(browsers, windows) {
            Some(found) => exists|i: int|
                {
                    &&& 0 <= i < windows.len()
                    &&& (#[trigger] windows[i]).meeting(browsers) == Some(found)
                    &&& forall|j: int|
                        0 <= j < i ==> (#[trigger] windows[j]).meeting(browsers) is None
                },
            None => forall|i: int|
                0 <= i < windows.len() ==> (#[trigger] windows[i]).meeting(browsers) is None,
        },
    decreases windows.len(),
{
    if windows.len() > 0 {
        assert(windows[0] == windows.first());
        if windows.first().meeting(browsers) is None {
            let rest = windows.drop_first();
            law_the_first_meeting_wins(browsers, rest);
            match first_meeting(browsers, rest) {
                Some(found) => {
                    let k = choose|i: int|
                        {
                            &&& 0 <= i < rest.len()
                            &&& (#[trigger] rest[i]).meeting(browsers) == Some(found)
                            &&& forall|j: int|
                                0 <= j < i ==> (#[trigger] rest[j]).meeting(browsers) is None
                        };
                    assert(windows[k + 1] == rest[k]);
                    assert forall|j: int| 0 <= j < k + 1 implies (#[trigger] windows[j]).meeting(
                        browsers,
                    ) is None by {
                        if j > 0 {
                            assert(rest[j - 1] == windows[j]);
                        }
                    }
                },
                None => {
                    assert forall|i: int| 0 <= i < windows.len() implies (
                    #[trigger] windows[i]).meeting(browsers) is None by {
                        if i > 0 {
                            assert(rest[i - 1] == windows[i]);
                        }
                    }
                },
            }
        }
    }
}

/// What an enumeration has found when it ends: it hands out windows until it is told to stop.
pub open spec fn enumerated(
    browsers: Seq<ProcessInfo>,
    found: Option<(ProcessInfo, Source)>,
    windows: Seq<EnumeratedWindow>,
) -> Option<(ProcessInfo, Source)>
    decreases windows.len(),
{
    if windows.len() == 0 {
        found
    } else if windows.first().goes_on(browsers) {
        enumerated(browsers, windows.first().found(browsers, found), windows.drop_first())
    } else {
        windows.first().found(browsers, found)
    }
}

/// An enumeration of windows finds the meeting of the first one that stands for one.
pub proof fn law_enumeration_finds_the_first_meeting(
    browsers: Seq<ProcessInfo>,
    windows: Seq<EnumeratedWindow>,
)
    ensures
        enumerated(browsers, None, windows) == first_meeting(
            browsers,
            windows.map_values(|window: EnumeratedWindow| window.window()),
        ),
    decreases windows.len(),
{
    let views = windows.map_values(|window: EnumeratedWindow| window.window());
    if windows.len() > 0 {
        let first = windows.first();
        assert(views.first() == first.window());
        assert(views.drop_first() =~= windows.drop_first().map_values(
            |window: EnumeratedWindow| window.window(),
        ));
        law_enumeration_finds_the_first_meeting(browsers, windows.drop_first());
    }
}

/// A display, as the reply that it gives to every request. Numbers in a reply are in the byte
/// order of the machine.
pub ghost struct Display {
    pub reply: spec_fn(Request) -> Option<PropertyReply>,
}

impl Display {
    /// The windows that the display lists.
    pub open spec fn windows(self) -> Seq<u32> {
        match (self.reply)(Request::ClientList) {
            Some(reply) => match reply.numbers(ByteOrder::native()) {
                Some(windows) => windows,
                None => Seq::empty(),
            },
            None => Seq::empty(),
        }
    }

    /// What the display tells of a window. The older title counts only where there is no other.
    pub open spec fn window(self, window: u32) -> WindowView {
        WindowView {
            pid: match (self.reply)(Request::OwnerPid { window }) {
                Some(reply) => reply.first_number(ByteOrder::native()),
                None => None,
            },
            title: match self.utf8_title(window) {
                Some(title) => Some(title),
                None => match (self.reply)(Request::LegacyName { window }) {
                    Some(reply) => reply.legacy_text(),
                    None => None,
                },
            },
        }
    }

    /// The UTF-8 title of a window.
    pub open spec fn utf8_title(self, window: u32) -> Option<Seq<char>> {
        match (self.reply)(Request::Name { window }) {
            Some(reply) => reply.utf8_text(),
            None => None,
        }
    }

    /// A search after the display answered what it asked for.
    pub open spec fn answered(self, browsers: Seq<ProcessInfo>, search: SearchView) -> SearchView {
        match search.request() {
            Some(request) => search.after_reply(browsers, (self.reply)(request), ByteOrder::native()),
            None => search,
        }
    }

    /// A search after the display answered that many requests.
    pub open spec fn run(
        self,
        browsers: Seq<ProcessInfo>,
        search: SearchView,
        requests: nat,
    ) -> SearchView
        decreases requests,
    {
        if requests == 0 {
            search
        } else {
            self.run(browsers, self.answered(browsers, search), (requests - 1) as nat)
        }
    }
}

/// A search that is over stays as it is.
proof fn lemma_finished_stays(
    display: Display,
    browsers: Seq<ProcessInfo>,
    search: SearchView,
    requests: nat,
)
    requires
        search.stage == Stage::Finished,
    ensures
        display.run(browsers, search, requests) == search,
    decreases requests,
{
    if requests > 0 {
        lemma_finished_stays(display, browsers, search, (requests - 1) as nat);
    }
}

/// A search that turns to the first of `windows` ends with the first meeting among them, after
/// three requests for each of them at the most.
proof fn lemma_search_from(
    display: Display,
    browsers: Seq<ProcessInfo>,
    windows: Seq<u32>,
    requests: nat,
)
    requires
        requests >= 3 * windows.len(),
    ensures
        display.run(browsers, SearchView::at(windows), requests) == SearchView::finished(
            first_meeting(browsers, windows.map_values(|window: u32| display.window(window))),
        ),
    decreases windows.len(),
{
    let views = windows.map_values(|window: u32| display.window(window));
    let start = SearchView::at(windows);
    if windows.len() == 0 {
        lemma_finished_stays(display, browsers, start, requests);
    } else {
        let rest = windows.drop_first();
        let view = display.window(windows[0]);
        assert(views.first() == view);
        assert(views.drop_first() =~= rest.map_values(|window: u32| display.window(window)));
        let one = display.answered(browsers, start);
        assert(display.run(browsers, start, requests) == display.run(
            browsers,
            one,
            (requests - 1) as nat,
        ));
        lemma_search_from(display, browsers, rest, (requests - 1) as nat);
        if one != SearchView::at(rest) {
            let two = display.answered(browsers, one);
            assert(display.run(browsers, one, (requests - 1) as nat) == display.run(
                browsers,
                two,
                (requests - 2) as nat,
            ));
            lemma_search_from(display, browsers, rest, (requests - 2) as nat);
            if two.stage == Stage::Finished {
                lemma_finished_stays(display, browsers, two, (requests - 2) as nat);
            }
            if display.utf8_title(windows[0]) is None {
                let three = display.answered(browsers, two);
                assert(display.run(browsers, two, (requests - 2) as nat) == display.run(
                    browsers,
                    three,
                    (requests - 3) as nat,
                ));
                lemma_search_from(display, browsers, rest, (requests - 3) as nat);
                if three.stage == Stage::Finished {
                    lemma_finished_stays(display, browsers, three, (requests - 3) as nat);
                }
            }
        }
    }
}

/// A search on a display ends, after one request for the list of windows and at most three for
/// each of them, with the meeting of the first window that stands for one. Without a browser, and
/// in a Wayland session, it ends at once and finds nothing.
pub proof fn law_search_finds_the_first_meeting(
    display: Display,
    browsers: Seq<ProcessInfo>,
    wayland: bool,
    requests: nat,
)
    requires
        requests >= 1 + 3 * display.windows().len(),
    ensures
        display.run(browsers, SearchView::start(browsers, wayland), requests)
            == SearchView::finished(
            if wayland {
                None
            } else {
                first_meeting(
                    browsers,
                    display.windows().map_values(|window: u32| display.window(window)),
                )
            },
        ),
{
    let start = SearchView::start(browsers, wayland);
    let views = display.windows().map_values(|window: u32| display.window(window));
    if browsers.len() == 0 || wayland {
        lemma_finished_stays(display, browsers, start, requests);
        if browsers.len() == 0 {
            lemma_no_browser_no_meeting(browsers, views);
        }
    } else {
        let listed = display.answered(browsers, start);
        assert(listed == SearchView::at(display.windows()));
        assert(display.run(browsers, start, requests) == display.run(
            browsers,
            listed,
            (requests - 1) as nat,
        ));
        lemma_search_from(display, browsers, display.windows(), (requests - 1) as nat);
    }
}

/// Where there is no browser, no window stands for a meeting.
proof fn lemma_no_browser_no_meeting(browsers: Seq<ProcessInfo>, windows: Seq<WindowView>)
    requires
        browsers.len() == 0,
    ensures
        first_meeting(browsers, windows) is None,
    decreases windows.len(),
{
    if windows.len() > 0 {
        lemma_no_browser_no_meeting(browsers, windows.drop_first());
    }
}

} // verus!
