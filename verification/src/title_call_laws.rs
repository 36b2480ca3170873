//! What recognising a title and finding a browser do, in terms of what goes in and what comes out.

use vstd::prelude::*;

use crate::detect::{ProcessInfo, Source};
use crate::window_title::{Search, WindowIdentity};

#[allow(unused_imports)]
use crate::search_laws::law_only_a_supplied_browser_matches;
#[allow(unused_imports)]
use crate::text::{decode_utf16, is_white_space, trimmed};
#[allow(unused_imports)]
use crate::title_laws::{
    blank, law_a_title_names_one_meeting, law_meet_title_may_have_any_name,
    law_surrounding_white_space_is_ignored,
};
#[allow(unused_imports)]
use crate::window_title::{
    browser_with_pid, cal_video_title, first_meeting, has_browser, is_cal_video_title,
    is_meet_title, matching_browser, meet_title, meeting_process, source_for_title, title_source,
    window_identity, window_match, WindowView,
};

verus! {

/// A text with no white space at either end.
pub open spec fn solid(s: Seq<char>) -> bool {
    s.len() > 0 ==> !is_white_space(s.first()) && !is_white_space(s.last())
}

/// The text consists of this start and of something more, or of nothing more.
pub open spec fn continues(text: Seq<char>, start: Seq<char>) -> bool {
    exists|more: Seq<char>| text == #[trigger] (start + more)
}

proof fn lemma_continues(text: Seq<char>, start: Seq<char>)
    ensures
        continues(text, start) <==> start.is_prefix_of(text),
{
    if start.is_prefix_of(text) {
        let more = text.skip(start.len() as int);
        assert(text =~= start + more);
    }
    if continues(text, start) {
        let more = choose|more: Seq<char>| text == #[trigger] (start + more);
        assert((start + more).subrange(0, start.len() as int) =~= start);
    }
}

/// A solid text is left whole by trimming, whatever white space is around it.
proof fn lemma_solid_core_is_left(before: Seq<char>, core: Seq<char>, after: Seq<char>)
    requires
        blank(before),
        blank(after),
        solid(core),
    ensures
        trimmed(before + core + after) == core,
{
    law_surrounding_white_space_is_ignored(before, core, after);
}

/// A title whose solid part is `core` is a Meet title exactly if that is "Google Meet", or begins
/// with "Meet" and a dash of either kind, each between single spaces; it is a Cal Video title
/// exactly if that begins with "Cal.com Video"; and it names Meet exactly if it is a Meet title,
/// and Cal Video exactly if it is a Cal Video title.
pub proof fn law_the_solid_part_decides(
    title: &str,
    before: Seq<char>,
    core: Seq<char>,
    after: Seq<char>,
    meet: bool,
    cal_video: bool,
    source: Option<Source>,
)
    requires
        blank(before),
        blank(after),
        solid(core),
        title@ == before + core + after,
        call_ensures(is_meet_title, (title,), meet),
        call_ensures(is_cal_video_title, (title,), cal_video),
        call_ensures(source_for_title, (title,), source),
    ensures
        meet <==> core == "Google Meet"@ || continues(core, "Meet – "@) || continues(
            core,
            "Meet - "@,
        ),
        cal_video <==> continues(core, "Cal.com Video"@),
        source == Some(Source::Meet) <==> meet,
        source == Some(Source::CalVideo) <==> cal_video,
        source is None <==> !meet && !cal_video,
        source == title_source(title@),
{
    lemma_solid_core_is_left(before, core, after);
    lemma_continues(core, "Meet – "@);
    lemma_continues(core, "Meet - "@);
    lemma_continues(core, "Cal.com Video"@);
    law_a_title_names_one_meeting(title@);
}

/// Every Meet title names Meet and every Cal Video title names Cal Video, and nothing else does;
/// no title names anything else.
pub proof fn law_a_title_names_what_it_is(title: Seq<char>)
    ensures
        title_source(title) == Some(Source::Meet) <==> meet_title(title),
        title_source(title) == Some(Source::CalVideo) <==> cal_video_title(title),
        title_source(title) is None <==> !meet_title(title) && !cal_video_title(title),
{
    law_a_title_names_one_meeting(title);
}

/// "Google Meet", and "Meet", a dash of either kind and any name that is not blank, name Meet,
/// whatever white space is around them.
pub proof fn law_meet_is_named_whatever_the_meeting_is_called(
    before: Seq<char>,
    name: Seq<char>,
    after: Seq<char>,
)
    requires
        blank(before),
        blank(after),
        !blank(name),
    ensures
        title_source(before + ("Meet – "@ + name) + after) == Some(Source::Meet),
        title_source(before + ("Meet - "@ + name) + after) == Some(Source::Meet),
        title_source(before + "Google Meet"@ + after) == Some(Source::Meet),
{
    law_meet_title_may_have_any_name(name);
    law_surrounding_white_space_is_ignored(before, "Meet – "@ + name, after);
    law_surrounding_white_space_is_ignored(before, "Meet - "@ + name, after);
    reveal_strlit("Google Meet");
    assert(solid("Google Meet"@));
    assert(trimmed("Google Meet"@) == "Google Meet"@);
    law_surrounding_white_space_is_ignored(before, "Google Meet"@, after);
}

/// The title "Google Meet" names Meet only as a whole: with anything solid behind it it names none.
pub proof fn law_google_meet_is_a_whole_title(more: Seq<char>)
    requires
        !blank(more),
    ensures
        title_source("Google Meet"@ + more) is None,
{
    reveal_strlit("Google Meet");
    reveal_strlit("Meet – ");
    reveal_strlit("Meet - ");
    reveal_strlit("Cal.com Video");
    let title = "Google Meet"@ + more;
    let (before, after) = crate::text_laws::law_trimming_takes_away_white_space_alone(title);
    let core = trimmed(title);
    crate::title_laws::law_trimming_is_done_once(title);
    let at = choose|i: int| 0 <= i < more.len() && !is_white_space(#[trigger] more[i]);
    assert(title[11 + at] == more[at]);
    assert(title[0] == 'G');
    if before.len() > 0 {
        assert(title[0] == before[0]);
    }
    assert(title =~= core + after);
    if core.len() <= 11 + at {
        assert(title[11 + at] == after[11 + at - core.len()]);
    }
    assert(core[0] == title[0]);
    assert("Meet – "@[0] != 'G');
    assert("Meet - "@[0] != 'G');
    assert("Cal.com Video"@[0] != 'G');
}

/// The browser at `at` is the first of those that run under `pid`.
pub open spec fn first_with_pid(browsers: Seq<ProcessInfo>, at: int, pid: u32) -> bool {
    &&& 0 <= at < browsers.len()
    &&& browsers[at].pid == Some(pid)
    &&& forall|j: int| 0 <= j < at ==> (#[trigger] browsers[j]).pid != Some(pid)
}

/// Some browser runs under `pid`.
pub open spec fn some_with_pid(browsers: Seq<ProcessInfo>, pid: u32) -> bool {
    exists|i: int| 0 <= i < browsers.len() && (#[trigger] browsers[i]).pid == Some(pid)
}

/// What is looked up by a process number is the first browser that runs under it, all of it.
pub proof fn law_the_first_browser_with_the_number_is_found(
    browsers: Seq<ProcessInfo>,
    pid: u32,
) -> (at: int)
    ensures
        browser_with_pid(browsers, pid) is Some <==> some_with_pid(browsers, pid),
        browser_with_pid(browsers, pid) is Some ==> first_with_pid(browsers, at, pid)
            && browser_with_pid(browsers, pid) == Some(browsers[at]),
    decreases browsers.len(),
{
    if browsers.len() == 0 {
        0
    } else if browsers.first().pid == Some(pid) {
        assert(browsers[0].pid == Some(pid));
        0
    } else {
        let rest = browsers.drop_first();
        let at = law_the_first_browser_with_the_number_is_found(rest, pid);
        if some_with_pid(rest, pid) {
            let i = choose|i: int| 0 <= i < rest.len() && (#[trigger] rest[i]).pid == Some(pid);
            assert(browsers[i + 1].pid == Some(pid));
            assert forall|j: int| 0 <= j < at + 1 implies (#[trigger] browsers[j]).pid != Some(
                pid,
            ) by {
                if j > 0 {
                    assert(rest[j - 1] == browsers[j]);
                }
            }
            assert(browsers[at + 1] == rest[at]);
        }
        if some_with_pid(browsers, pid) {
            let i = choose|i: int|
                0 <= i < browsers.len() && (#[trigger] browsers[i]).pid == Some(pid);
            assert(rest[i - 1].pid == Some(pid));
        }
        at + 1
    }
}

/// There is a browser for a process number exactly if one of those supplied runs under it; nothing
/// else of them matters.
pub proof fn law_a_browser_is_told_by_its_number(
    browsers: &[ProcessInfo],
    pid: u32,
    found: bool,
)
    requires
        call_ensures(has_browser, (browsers, pid), found),
    ensures
        found <==> some_with_pid(browsers@, pid),
{
    let _ = law_the_first_browser_with_the_number_is_found(browsers@, pid);
}

/// A window matches exactly if some supplied browser runs under its process number and its title
/// names a meeting. The match is the first such browser, with all its fields, and that meeting.
pub proof fn law_title_and_number_decide_a_match(
    browsers: Seq<ProcessInfo>,
    pid: u32,
    title: Seq<char>,
) -> (at: int)
    ensures
        window_match(browsers, pid, title) is Some <==> some_with_pid(browsers, pid)
            && title_source(title) is Some,
        window_match(browsers, pid, title) matches Some((browser, source)) ==> {
            &&& first_with_pid(browsers, at, pid)
            &&& browser == browsers[at]
            &&& title_source(title) == Some(source)
        },
{
    law_the_first_browser_with_the_number_is_found(browsers, pid)
}

/// The same of the call that matches a window: it agrees with the two calls that read its title and
/// look up its process number.
pub proof fn law_a_match_takes_a_browser_and_a_meeting(
    browsers: &[ProcessInfo],
    pid: u32,
    title: &str,
    found: bool,
    source: Option<Source>,
    matched: Option<(ProcessInfo, Source)>,
)
    requires
        call_ensures(has_browser, (browsers, pid), found),
        call_ensures(source_for_title, (title,), source),
        call_ensures(matching_browser, (browsers, pid, title), matched),
    ensures
        matched is Some <==> found && source is Some,
        matched matches Some((browser, meeting)) ==> {
            &&& source == Some(meeting)
            &&& browser.pid == Some(pid)
            &&& exists|at: int| #[trigger] first_with_pid(browsers@, at, pid) && browser
                == browsers@[at]
        },
{
    let at = law_title_and_number_decide_a_match(browsers@, pid, title@);
    if matched is Some {
        assert(first_with_pid(browsers@, at, pid));
    }
}

/// A window has an identity exactly if it has a title and a number that a process can have; the
/// identity holds both.
pub proof fn law_an_identity_holds_title_and_number(
    pid: Option<i64>,
    title: Option<String>,
    identity: Option<WindowIdentity>,
)
    requires
        call_ensures(window_identity, (pid, title), identity),
    ensures
        identity is Some <==> title is Some && pid is Some && 0 <= pid->0 < 0x1_0000_0000,
        identity matches Some(window) ==> window.pid as int == pid->0 as int && window.title
            == title->0,
{
}

/// A window stands for a meeting exactly if its owner and its title are known and they match.
pub proof fn law_a_known_window_stands_for_its_match(
    browsers: Seq<ProcessInfo>,
    window: WindowView,
)
    ensures
        window.meeting(browsers) is Some <==> {
            &&& window.pid is Some
            &&& window.title is Some
            &&& some_with_pid(browsers, window.pid->0)
            &&& title_source(window.title->0) is Some
        },
        window.meeting(browsers) is Some ==> window.meeting(browsers) == window_match(
            browsers,
            window.pid->0,
            window.title->0,
        ),
{
    if window.pid is Some && window.title is Some {
        let _ = law_title_and_number_decide_a_match(browsers, window.pid->0, window.title->0);
    }
}

/// The window at `at` is the first of a browser whose title names a meeting.
pub open spec fn first_meeting_window(
    browsers: Seq<ProcessInfo>,
    windows: Seq<WindowIdentity>,
    at: int,
) -> bool {
    &&& 0 <= at < windows.len()
    &&& some_with_pid(browsers, windows[at].pid)
    &&& title_source(windows[at].title@) is Some
    &&& forall|j: int|
        0 <= j < at ==> !(some_with_pid(browsers, (#[trigger] windows[j]).pid) && title_source(
            windows[j].title@,
        ) is Some)
}

/// Listed windows give the meeting of the first window of a browser whose title names one, with the
/// first browser that runs under its process number; and none only if there is no such window.
pub proof fn law_listed_windows_give_the_first_meeting(
    browsers: &[ProcessInfo],
    windows: &[WindowIdentity],
    found: Option<(ProcessInfo, Source)>,
)
    requires
        call_ensures(meeting_process, (browsers, windows), found),
    ensures
        found is None ==> forall|i: int|
            0 <= i < windows@.len() ==> !(some_with_pid(browsers@, (#[trigger] windows@[i]).pid)
                && title_source(windows@[i].title@) is Some),
        found matches Some((browser, source)) ==> exists|at: int, k: int|
            {
                &&& #[trigger] first_meeting_window(browsers@, windows@, at)
                &&& #[trigger] first_with_pid(browsers@, k, windows@[at].pid)
                &&& browser == browsers@[k]
                &&& title_source(windows@[at].title@) == Some(source)
            },
{
    let views = windows@.map_values(|window: WindowIdentity| window@);
    crate::search_laws::law_the_first_meeting_wins(browsers@, views);
    assert forall|i: int| 0 <= i < windows@.len() implies {
        &&& (#[trigger] windows@[i])@.meeting(browsers@) is Some <==> some_with_pid(
            browsers@,
            windows@[i].pid,
        ) && title_source(windows@[i].title@) is Some
        &&& views[i] == windows@[i]@
    } by {
        law_a_known_window_stands_for_its_match(browsers@, windows@[i]@);
    }
    match found {
        None => {
            assert forall|i: int| 0 <= i < windows@.len() implies !(some_with_pid(
                browsers@,
                (#[trigger] windows@[i]).pid,
            ) && title_source(windows@[i].title@) is Some) by {
                assert(views[i].meeting(browsers@) is None);
            }
        },
        Some((browser, source)) => {
            let at = choose|i: int|
                {
                    &&& 0 <= i < views.len()
                    &&& (#[trigger] views[i]).meeting(browsers@) == found
                    &&& forall|j: int|
                        0 <= j < i ==> (#[trigger] views[j]).meeting(browsers@) is None
                };
            let k = law_title_and_number_decide_a_match(
                browsers@,
                windows@[at].pid,
                windows@[at].title@,
            );
            assert(views[at] == windows@[at]@);
            assert forall|j: int| 0 <= j < at implies !(some_with_pid(
                browsers@,
                (#[trigger] windows@[j]).pid,
            ) && title_source(windows@[j].title@) is Some) by {
                assert(views[j].meeting(browsers@) is None);
            }
            assert(first_meeting_window(browsers@, windows@, at));
            assert(first_with_pid(browsers@, k, windows@[at].pid));
        },
    }
}

/// A search begins with what it was given and with nothing found.
pub proof fn law_a_search_begins_with_nothing<'a>(browsers: &'a [ProcessInfo], search: Search<'a>)
    requires
        call_ensures(Search::new, (browsers,), search),
    ensures
        search.browsers@ == browsers@,
        search.found is None,
{
}

/// A title is worth reading exactly if the window can be seen and is a browser's.
pub proof fn law_a_title_is_read_of_a_visible_browser<'a>(
    search: &Search<'a>,
    visible: bool,
    pid: u32,
    worth: bool,
)
    requires
        call_ensures(Search::needs_title, (search, visible, pid), worth),
    ensures
        worth <==> visible && some_with_pid(search.browsers@, pid),
{
    let _ = law_the_first_browser_with_the_number_is_found(search.browsers@, pid);
}

/// Inspecting a window ends the enumeration exactly if it can be seen, is a browser's, and the
/// units that were written name a meeting; that browser and that meeting are then what was found.
/// A window that cannot be seen, is no browser's or has no title changes nothing; one whose title
/// names no meeting leaves nothing found.
pub proof fn law_an_enumeration_ends_at_a_meeting<'a>(
    search: &mut Search<'a>,
    visible: bool,
    pid: u32,
    buffer: &[u16],
    length: i32,
    goes_on: bool,
)
    requires
        length <= buffer@.len(),
        call_ensures(Search::inspect_window, (search, visible, pid, buffer, length), goes_on),
    ensures
        final(search).browsers@ == old(search).browsers@,
        ({
            let browsers = old(search).browsers@;
            let read = visible && some_with_pid(browsers, pid) && length > 0;
            let named = title_source(decode_utf16(buffer@.take(length as int)));
            &&& goes_on <==> !(read && named is Some)
            &&& !read ==> final(search).found == old(search).found
            &&& read ==> (final(search).found is Some <==> named is Some)
            &&& read ==> (final(search).found matches Some((browser, source)) ==> {
                &&& named == Some(source)
                &&& exists|k: int| #[trigger] first_with_pid(browsers, k, pid) && browser
                    == browsers[k]
            })
        }),
{
    let browsers = old(search).browsers@;
    let k = law_title_and_number_decide_a_match(
        browsers,
        pid,
        decode_utf16(buffer@.take(length as int)),
    );
    let _ = law_the_first_browser_with_the_number_is_found(browsers, pid);
    if visible && length > 0 && final(search).found is Some && some_with_pid(browsers, pid) {
        assert(first_with_pid(browsers, k, pid));
    }
}

} // verus!
