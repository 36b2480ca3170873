//! Finding a meeting among the windows of an X11 display.
//!
//! Every property of a window has to be asked for on its own. [`WindowSearch`] says what to ask
//! for next and takes in the replies, until it has found a meeting or run out of windows.

use vstd::prelude::*;

use crate::detect::{ProcessInfo, Source};
use crate::text::latin1_text;
use crate::window_title::{has_browser, matching_browser};

#[allow(unused_imports)]
use crate::text::{decode_latin1, same_ignoring_ascii_case};
#[allow(unused_imports)]
use crate::window_title::{browser_with_pid, window_match};
#[allow(unused_imports)]
use vstd::endian::{endianness, Endian};
#[allow(unused_imports)]
use vstd::utf8::{decode_utf8, valid_utf8};

verus! {

/// The reply to a request for a property of a window.
#[derive(Debug, PartialEq, Eq)]
pub struct PropertyReply {
    /// How many bits each item of the value has.
    pub format: u8,
    pub value: Vec<u8>,
}

/// An order in which a machine stores the bytes of a number.
pub ghost enum ByteOrder {
    LittleEndian,
    BigEndian,
}

impl ByteOrder {
    /// The order of the machine that the code runs on.
    pub open spec fn native() -> ByteOrder {
        match endianness() {
            Endian::Little => ByteOrder::LittleEndian,
            Endian::Big => ByteOrder::BigEndian,
        }
    }

    /// The number that four bytes stand for.
    pub open spec fn number(self, bytes: Seq<u8>) -> u32 {
        match self {
            ByteOrder::LittleEndian => (bytes[0] + bytes[1] * 0x100 + bytes[2] * 0x1_0000 + bytes[3]
                * 0x100_0000) as u32,
            ByteOrder::BigEndian => (bytes[3] + bytes[2] * 0x100 + bytes[1] * 0x1_0000 + bytes[0]
                * 0x100_0000) as u32,
        }
    }

    /// The numbers that the bytes stand for, four at a time; bytes left over at the end are none.
    pub open spec fn numbers(self, bytes: Seq<u8>) -> Seq<u32> {
        Seq::new(bytes.len() / 4, |i: int| self.number(bytes.subrange(4 * i, 4 * i + 4)))
    }
}

impl PropertyReply {
    /// The value as numbers of 32 bits, if that is its format.
    pub open spec fn numbers(self, order: ByteOrder) -> Option<Seq<u32>> {
        if self.format == 32 {
            Some(order.numbers(self.value@))
        } else {
            None
        }
    }

    /// The first number of the value, if its format is 32 and it holds one.
    pub open spec fn first_number(self, order: ByteOrder) -> Option<u32> {
        if self.format == 32 && self.value@.len() >= 4 {
            Some(order.number(self.value@.take(4)))
        } else {
            None
        }
    }

    /// The value as UTF-8 text, if its format is 8 and it is that.
    pub open spec fn utf8_text(self) -> Option<Seq<char>> {
        if self.format == 8 && valid_utf8(self.value@) {
            Some(decode_utf8(self.value@))
        } else {
            None
        }
    }

    /// The value as Latin-1 text, if its format is 8.
    pub open spec fn legacy_text(self) -> Option<Seq<char>> {
        if self.format == 8 {
            Some(decode_latin1(self.value@))
        } else {
            None
        }
    }
}

/// `x11rb::protocol::xproto::GetPropertyReply::value32`, run to its end: nothing unless the format
/// is 32, and else the value cut into groups of four bytes, each read as a number in the byte
/// order of the machine.
#[verifier::external_body]
fn value32(reply: &PropertyReply) -> (r: Option<Vec<u32>>)
    ensures
        r is Some <==> reply.format == 32,
        r matches Some(numbers) ==> numbers@ == ByteOrder::native().numbers(reply.value@),
{
    let reply = x11rb::protocol::xproto::GetPropertyReply {
        format: reply.format,
        value: reply.value.clone(),
        ..Default::default()
    };
    reply.value32().map(|numbers| numbers.collect())
}

/// The first of some numbers, if there are any.
pub fn first_of(numbers: &[u32]) -> (r: Option<u32>)
    ensures
        r == (if numbers@.len() > 0 {
            Some(numbers@[0])
        } else {
            None
        }),
{
    if numbers.len() > 0 {
        Some(numbers[0])
    } else {
        None
    }
}

/// The first number of a reply, if its format is 32 and it holds one.
pub fn first_cardinal(reply: &PropertyReply) -> (r: Option<u32>)
    ensures
        r == reply.first_number(ByteOrder::native()),
{
    if reply.format != 32 {
        return None;
    }
    match value32(reply) {
        Some(numbers) => {
            assert(reply.value@.subrange(0, 4) =~= reply.value@.take(4));
            first_of(numbers.as_slice())
        },
        None => None,
    }
}

/// The title that a reply holds as UTF-8, if its format is 8 and it is that.
pub fn utf8_title(reply: PropertyReply) -> (r: Option<String>)
    ensures
        match reply.utf8_text() {
            Some(title) => r is Some && r->0@ == title,
            None => r is None,
        },
{
    if reply.format != 8 {
        return None;
    }
    match String::from_utf8(reply.value) {
        Ok(title) => Some(title),
        Err(_) => None,
    }
}

/// The title that a reply holds as Latin-1, if its format is 8.
pub fn legacy_title(reply: PropertyReply) -> (r: Option<String>)
    ensures
        match reply.legacy_text() {
            Some(title) => r is Some && r->0@ == title,
            None => r is None,
        },
{
    if reply.format != 8 {
        return None;
    }
    Some(latin1_text(reply.value.as_slice()))
}

/// Whether the environment is that of a Wayland session, whose windows X11 does not list:
/// `XDG_SESSION_TYPE` says so, or `WAYLAND_DISPLAY` is set and `DISPLAY` is not. The first is
/// given as text, empty where it is unset; the others as their bytes.
pub fn environment_is_wayland(
    session_type: &str,
    wayland_display: Option<&[u8]>,
    display: Option<&[u8]>,
) -> (r: bool)
    ensures
        r == (same_ignoring_ascii_case(session_type@, "wayland"@) || ((wayland_display is Some
            && wayland_display->0@.len() > 0) && !(display is Some && display->0@.len() > 0))),
{
    if session_type.eq_ignore_ascii_case("wayland") {
        return true;
    }
    let wayland = match wayland_display {
        Some(value) => value.len() > 0,
        None => false,
    };
    let x11 = match display {
        Some(value) => value.len() > 0,
        None => false,
    };
    wayland && !x11
}

/// What a search asks the display for.
#[derive(Clone, Copy, Debug, PartialEq, Eq, Structural)]
pub enum Request {
    /// The windows that the window manager lists.
    ClientList,
    /// The process that owns a window.
    OwnerPid { window: u32 },
    /// The title of a window, as UTF-8.
    Name { window: u32 },
    /// The title of a window, in the older encoding.
    LegacyName { window: u32 },
}

/// What a search waits for.
#[derive(Clone, Copy, Debug, PartialEq, Eq, Structural)]
pub enum Stage {
    ClientList,
    OwnerPid,
    Name { pid: u32 },
    LegacyName { pid: u32 },
    Finished,
}

/// A search, as what it waits for, the windows from the one at hand on, and what it found.
pub ghost struct SearchView {
    pub stage: Stage,
    pub remaining: Seq<u32>,
    pub found: Option<(ProcessInfo, Source)>,
}

impl SearchView {
    /// A search that is over.
    pub open spec fn finished(found: Option<(ProcessInfo, Source)>) -> SearchView {
        SearchView { stage: Stage::Finished, remaining: Seq::empty(), found }
    }

    /// A search that turns to the first of these windows.
    pub open spec fn at(windows: Seq<u32>) -> SearchView {
        if windows.len() > 0 {
            SearchView { stage: Stage::OwnerPid, remaining: windows, found: None }
        } else {
            SearchView::finished(None)
        }
    }

    /// A search that is about to begin: there is nothing to find without a browser, nor in a
    /// Wayland session.
    pub open spec fn start(browsers: Seq<ProcessInfo>, wayland: bool) -> SearchView {
        if browsers.len() == 0 || wayland {
            SearchView::finished(None)
        } else {
            SearchView { stage: Stage::ClientList, remaining: Seq::empty(), found: None }
        }
    }

    /// While a search looks at a window, there is one, and nothing has been found; and it is only
    /// the window of a browser that is asked for its title.
    pub open spec fn well_formed(self, browsers: Seq<ProcessInfo>) -> bool {
        &&& self.stage == Stage::ClientList || self.stage == Stage::Finished
            <==> self.remaining.len() == 0
        &&& self.stage != Stage::Finished ==> self.found is None
        &&& self.stage matches Stage::Name { pid } ==> browser_with_pid(browsers, pid) is Some
        &&& self.stage matches Stage::LegacyName { pid } ==> browser_with_pid(
            browsers,
            pid,
        ) is Some
    }

    /// What the search asks for.
    pub open spec fn request(self) -> Option<Request> {
        match self.stage {
            Stage::ClientList => Some(Request::ClientList),
            Stage::OwnerPid => Some(Request::OwnerPid { window: self.remaining[0] }),
            Stage::Name { .. } => Some(Request::Name { window: self.remaining[0] }),
            Stage::LegacyName { .. } => Some(Request::LegacyName { window: self.remaining[0] }),
            Stage::Finished => None,
        }
    }

    /// After the list of windows came, or did not.
    pub open spec fn after_windows(self, windows: Option<Seq<u32>>) -> SearchView {
        match windows {
            Some(windows) => SearchView::at(windows),
            None => SearchView::finished(None),
        }
    }

    /// After the owner of the window at hand was told, or was not: only a browser's window is
    /// asked for its title.
    pub open spec fn after_owner(
        self,
        browsers: Seq<ProcessInfo>,
        owner: Option<u32>,
    ) -> SearchView {
        match owner {
            Some(pid) => if browser_with_pid(browsers, pid) is Some {
                SearchView { stage: Stage::Name { pid }, ..self }
            } else {
                SearchView::at(self.remaining.drop_first())
            },
            None => SearchView::at(self.remaining.drop_first()),
        }
    }

    /// After the title of the window at hand, which process `pid` owns, was told.
    pub open spec fn after_title(
        self,
        browsers: Seq<ProcessInfo>,
        pid: u32,
        title: Seq<char>,
    ) -> SearchView {
        match window_match(browsers, pid, title) {
            Some(found) => SearchView::finished(Some(found)),
            None => SearchView::at(self.remaining.drop_first()),
        }
    }

    /// After the request for the UTF-8 title was answered: without one, the older title is next.
    pub open spec fn after_name(
        self,
        browsers: Seq<ProcessInfo>,
        pid: u32,
        title: Option<Seq<char>>,
    ) -> SearchView {
        match title {
            Some(title) => self.after_title(browsers, pid, title),
            None => SearchView { stage: Stage::LegacyName { pid }, ..self },
        }
    }

    /// After the request for the older title was answered: without one, the window is passed by.
    pub open spec fn after_legacy_name(
        self,
        browsers: Seq<ProcessInfo>,
        pid: u32,
        title: Option<Seq<char>>,
    ) -> SearchView {
        match title {
            Some(title) => self.after_title(browsers, pid, title),
            None => SearchView::at(self.remaining.drop_first()),
        }
    }

    /// After the reply to what the search asked for, with numbers read in this byte order.
    pub open spec fn after_reply(
        self,
        browsers: Seq<ProcessInfo>,
        reply: Option<PropertyReply>,
        order: ByteOrder,
    ) -> SearchView {
        match self.stage {
            Stage::ClientList => self.after_windows(
                match reply {
                    Some(reply) => reply.numbers(order),
                    None => None,
                },
            ),
            Stage::OwnerPid => self.after_owner(
                browsers,
                match reply {
                    Some(reply) => reply.first_number(order),
                    None => None,
                },
            ),
            Stage::Name { pid } => self.after_name(
                browsers,
                pid,
                match reply {
                    Some(reply) => reply.utf8_text(),
                    None => None,
                },
            ),
            Stage::LegacyName { pid } => self.after_legacy_name(
                browsers,
                pid,
                match reply {
                    Some(reply) => reply.legacy_text(),
                    None => None,
                },
            ),
            Stage::Finished => self,
        }
    }
}

/// A search for a meeting among the windows of a display.
pub struct WindowSearch<'a> {
    browsers: &'a [ProcessInfo],
    windows: Vec<u32>,
    next: usize,
    stage: Stage,
    found: Option<(ProcessInfo, Source)>,
}

impl<'a> View for WindowSearch<'a> {
    type V = SearchView;

    closed spec fn view(&self) -> SearchView {
        SearchView {
            stage: self.stage,
            remaining: self.windows@.skip(self.next as int),
            found: self.found,
        }
    }
}

impl<'a> WindowSearch<'a> {
    /// The browsers that the search looks for.
    pub closed spec fn browsers(self) -> Seq<ProcessInfo> {
        self.browsers@
    }

    /// Windows that were passed by are never more than there are, and the state is one that a
    /// search can be in.
    pub closed spec fn well_formed(self) -> bool {
        &&& self.next <= self.windows@.len()
        &&& self@.well_formed(self.browsers@)
    }

    /// Begins a search, unless there is nothing to find.
    pub fn new(browsers: &'a [ProcessInfo], wayland: bool) -> (search: WindowSearch<'a>)
        ensures
            search.well_formed(),
            search.browsers() == browsers@,
            search@ == SearchView::start(browsers@, wayland),
    {
        let stage = if browsers.len() == 0 || wayland {
            Stage::Finished
        } else {
            Stage::ClientList
        };
        let search = WindowSearch { browsers, windows: Vec::new(), next: 0, stage, found: None };
        assert(search@.remaining =~= Seq::<u32>::empty());
        search
    }

    /// What to ask the display for next; nothing once the search is over.
    pub fn request(&self) -> (r: Option<Request>)
        requires
            self.well_formed(),
        ensures
            r == self@.request(),
    {
        match self.stage {
            Stage::ClientList => Some(Request::ClientList),
            Stage::OwnerPid => Some(Request::OwnerPid { window: self.windows[self.next] }),
            Stage::Name { .. } => Some(Request::Name { window: self.windows[self.next] }),
            Stage::LegacyName { .. } => Some(
                Request::LegacyName { window: self.windows[self.next] },
            ),
            Stage::Finished => None,
        }
    }

    /// What the search found.
    pub fn into_found(self) -> (found: Option<(ProcessInfo, Source)>)
        ensures
            found == self@.found,
    {
        self.found
    }

    /// Ends the search.
    fn finish(&mut self, found: Option<(ProcessInfo, Source)>)
        ensures
            final(self).well_formed(),
            final(self).browsers() == old(self).browsers(),
            final(self)@ == SearchView::finished(found),
    {
        self.windows = Vec::new();
        self.next = 0;
        self.stage = Stage::Finished;
        self.found = found;
        assert(self@.remaining =~= Seq::<u32>::empty());
    }

    /// Turns to the window after the one at hand.
    fn advance(&mut self)
        requires
            old(self).well_formed(),
            old(self)@.remaining.len() > 0,
            old(self)@.found is None,
        ensures
            final(self).well_formed(),
            final(self).browsers() == old(self).browsers(),
            final(self)@ == SearchView::at(old(self)@.remaining.drop_first()),
    {
        let ghost before = self@.remaining;
        let count: usize = self.windows.len();
        self.next = self.next + 1;
        self.stage = Stage::OwnerPid;
        assert(self@.remaining =~= before.drop_first());
        if self.next >= count {
            self.finish(None);
        }
    }

    /// Takes in the list of windows; `None` where there is none.
    pub fn take_windows(&mut self, windows: Option<Vec<u32>>)
        requires
            old(self).well_formed(),
            old(self)@.stage == Stage::ClientList,
        ensures
            final(self).well_formed(),
            final(self).browsers() == old(self).browsers(),
            final(self)@ == old(self)@.after_windows(
                match windows {
                    Some(windows) => Some(windows@),
                    None => None,
                },
            ),
    {
        match windows {
            Some(windows) => if windows.len() > 0 {
                let ghost all = windows@;
                self.windows = windows;
                self.next = 0;
                self.stage = Stage::OwnerPid;
                assert(self@.remaining =~= all);
            } else {
                self.finish(None);
            },
            None => self.finish(None),
        }
    }

    /// Takes in the process that owns the window at hand; `None` where it cannot be told.
    pub fn take_owner(&mut self, owner: Option<u32>)
        requires
            old(self).well_formed(),
            old(self)@.stage == Stage::OwnerPid,
        ensures
            final(self).well_formed(),
            final(self).browsers() == old(self).browsers(),
            final(self)@ == old(self)@.after_owner(old(self).browsers(), owner),
    {
        match owner {
            Some(pid) => if has_browser(self.browsers, pid) {
                self.stage = Stage::Name { pid };
            } else {
                self.advance();
            },
            None => self.advance(),
        }
    }

    /// Takes in the UTF-8 title of the window at hand, which process `pid` owns.
    pub fn take_name(&mut self, pid: u32, title: Option<String>)
        requires
            old(self).well_formed(),
            old(self)@.stage == (Stage::Name { pid }),
        ensures
            final(self).well_formed(),
            final(self).browsers() == old(self).browsers(),
            final(self)@ == old(self)@.after_name(
                old(self).browsers(),
                pid,
                match title {
                    Some(title) => Some(title@),
                    None => None,
                },
            ),
    {
        match title {
            Some(title) => self.take_title(pid, title),
            None => {
                self.stage = Stage::LegacyName { pid };
            },
        }
    }

    /// Takes in the older title of the window at hand, which process `pid` owns.
    pub fn take_legacy_name(&mut self, pid: u32, title: Option<String>)
        requires
            old(self).well_formed(),
            old(self)@.stage == (Stage::LegacyName { pid }),
        ensures
            final(self).well_formed(),
            final(self).browsers() == old(self).browsers(),
            final(self)@ == old(self)@.after_legacy_name(
                old(self).browsers(),
                pid,
                match title {
                    Some(title) => Some(title@),
                    None => None,
                },
            ),
    {
        match title {
            Some(title) => self.take_title(pid, title),
            None => self.advance(),
        }
    }

    /// Ends the search if the window at hand stands for a meeting, and passes it by otherwise.
    fn take_title(&mut self, pid: u32, title: String)
        requires
            old(self).well_formed(),
            old(self)@.remaining.len() > 0,
            old(self)@.found is None,
        ensures
            final(self).well_formed(),
            final(self).browsers() == old(self).browsers(),
            final(self)@ == old(self)@.after_title(old(self).browsers(), pid, title@),
    {
        let found = matching_browser(self.browsers, pid, title.as_str());
        if found.is_some() {
            self.finish(found);
        } else {
            self.advance();
        }
    }

    /// Takes in the reply to what [`WindowSearch::request`] asked for; `None` where the display
    /// did not give one.
    pub fn answer(&mut self, reply: Option<PropertyReply>)
        requires
            old(self).well_formed(),
        ensures
            final(self).well_formed(),
            final(self).browsers() == old(self).browsers(),
            final(self)@ == old(self)@.after_reply(
                old(self).browsers(),
                reply,
                ByteOrder::native(),
            ),
    {
        match self.stage {
            Stage::ClientList => {
                let windows = match reply {
                    Some(reply) => value32(&reply),
                    None => None,
                };
                self.take_windows(windows);
            },
            Stage::OwnerPid => {
                let owner = match reply {
                    Some(reply) => first_cardinal(&reply),
                    None => None,
                };
                self.take_owner(owner);
            },
            Stage::Name { pid } => {
                let title = match reply {
                    Some(reply) => utf8_title(reply),
                    None => None,
                };
                self.take_name(pid, title);
            },
            Stage::LegacyName { pid } => {
                let title = match reply {
                    Some(reply) => legacy_title(reply),
                    None => None,
                };
                self.take_legacy_name(pid, title);
            },
            Stage::Finished => {},
        }
    }
}

} // verus!
