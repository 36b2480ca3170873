//! What reading a property and each step of a search on a display do, in terms of what goes in and
//! what comes out.

use vstd::prelude::*;

use crate::detect::{ProcessInfo, Source};
use crate::x11::{PropertyReply, Request, SearchView, WindowSearch};

#[allow(unused_imports)]
use crate::text::decode_latin1;
#[allow(unused_imports)]
use crate::title_call_laws::{
    first_with_pid, law_the_first_browser_with_the_number_is_found,
    law_title_and_number_decide_a_match, some_with_pid,
};
#[allow(unused_imports)]
use crate::window_title::title_source;
#[allow(unused_imports)]
use crate::x11::{
    environment_is_wayland, first_cardinal, first_of, legacy_title, utf8_title, ByteOrder, Stage,
};
#[allow(unused_imports)]
use vstd::endian::{endianness, Endian};
#[allow(unused_imports)]
use vstd::utf8::{
    decode_utf8_encode_utf8, encode_utf8, encode_utf8_decode_utf8, encode_utf8_valid_utf8, valid_utf8,
};

verus! {

/// The number `n` is stored in these four bytes, its lowest digit first or last as the machine has
/// it.
pub open spec fn stored_as(n: u32, bytes: Seq<u8>) -> bool {
    let digits = match endianness() {
        Endian::Little => bytes,
        Endian::Big => bytes.reverse(),
    };
    &&& bytes.len() == 4
    &&& n % 0x100 == digits[0]
    &&& (n / 0x100) % 0x100 == digits[1]
    &&& (n / 0x1_0000) % 0x100 == digits[2]
    &&& n / 0x100_0000 == digits[3]
}

/// Four bytes are one number.
proof fn lemma_stored_once(a: u32, b: u32, bytes: Seq<u8>)
    requires
        stored_as(a, bytes),
        stored_as(b, bytes),
    ensures
        a == b,
{
}

/// A number that is made of four digits has them.
proof fn lemma_digits(d0: u8, d1: u8, d2: u8, d3: u8, n: u32)
    requires
        n == d0 + d1 * 0x100 + d2 * 0x1_0000 + d3 * 0x100_0000,
    ensures
        n % 0x100 == d0,
        (n / 0x100) % 0x100 == d1,
        (n / 0x1_0000) % 0x100 == d2,
        n / 0x100_0000 == d3,
{
    assert(n % 0x100 == d0 && (n / 0x100) % 0x100 == d1 && (n / 0x1_0000) % 0x100 == d2 && n
        / 0x100_0000 == d3) by (bit_vector)
        requires
            n == d0 + d1 * 0x100 + d2 * 0x1_0000 + d3 * 0x100_0000,
    ;
}

proof fn lemma_number_is_stored(bytes: Seq<u8>)
    requires
        bytes.len() == 4,
    ensures
        stored_as(ByteOrder::native().number(bytes), bytes),
{
    let n = ByteOrder::native().number(bytes);
    match endianness() {
        Endian::Little => lemma_digits(bytes[0], bytes[1], bytes[2], bytes[3], n),
        Endian::Big => lemma_digits(bytes[3], bytes[2], bytes[1], bytes[0], n),
    }
}

/// The numbers of a reply are its bytes, four for each, and there are none unless it says so.
pub proof fn law_every_four_bytes_are_a_number(reply: PropertyReply)
    ensures
        reply.numbers(ByteOrder::native()) is Some <==> reply.format == 32,
        reply.numbers(ByteOrder::native()) matches Some(numbers) ==> {
            &&& 4 * numbers.len() <= reply.value@.len() < 4 * numbers.len() + 4
            &&& forall|i: int|
                0 <= i < numbers.len() ==> stored_as(
                    #[trigger] numbers[i],
                    reply.value@.subrange(4 * i, 4 * i + 4),
                )
        },
{
    if reply.format == 32 {
        let numbers = reply.numbers(ByteOrder::native())->0;
        assert forall|i: int| 0 <= i < numbers.len() implies stored_as(
            #[trigger] numbers[i],
            reply.value@.subrange(4 * i, 4 * i + 4),
        ) by {
            lemma_number_is_stored(reply.value@.subrange(4 * i, 4 * i + 4));
        }
    }
}

/// The first of some numbers is at the front, and there is one unless there are none.
pub proof fn law_the_first_is_at_the_front(numbers: &[u32], first: Option<u32>)
    requires
        call_ensures(first_of, (numbers,), first),
    ensures
        first is Some <==> numbers@.len() > 0,
        first is Some ==> first->0 == numbers@.first(),
{
}

/// A cardinal is read from a reply exactly if its format is 32 and it has four bytes, and it is the
/// number that the first four are; the rest does not matter.
pub proof fn law_a_cardinal_is_the_first_four_bytes(reply: &PropertyReply, number: Option<u32>)
    requires
        call_ensures(first_cardinal, (reply,), number),
    ensures
        number is Some <==> reply.format == 32 && reply.value@.len() >= 4,
        number is Some ==> stored_as(number->0, reply.value@.take(4)),
{
    if number is Some {
        lemma_number_is_stored(reply.value@.take(4));
    }
}

/// A title is read from a reply exactly if its format is 8 and it is UTF-8, and written again it is
/// the same bytes.
pub proof fn law_a_utf8_title_is_its_bytes(reply: PropertyReply, title: Option<String>)
    requires
        call_ensures(utf8_title, (reply,), title),
    ensures
        title is Some <==> reply.format == 8 && valid_utf8(reply.value@),
        title is Some ==> encode_utf8(title->0@) == reply.value@,
{
    if title is Some {
        decode_utf8_encode_utf8(reply.value@);
    }
}

/// An older title is read from a reply exactly if its format is 8, a character for every byte, of
/// the same number.
pub proof fn law_a_legacy_title_is_its_bytes(reply: PropertyReply, title: Option<String>)
    requires
        call_ensures(legacy_title, (reply,), title),
    ensures
        title is Some <==> reply.format == 8,
        title is Some ==> title->0@.len() == reply.value@.len(),
        title is Some ==> forall|i: int|
            0 <= i < reply.value@.len() ==> (#[trigger] title->0@[i]) as u32
                == reply.value@[i] as u32,
{
}

/// A text that is "wayland", in letters of either case.
pub open spec fn spells_wayland(text: Seq<char>) -> bool {
    &&& text.len() == "wayland"@.len()
    &&& forall|i: int|
        0 <= i < text.len() ==> (#[trigger] text[i] == "wayland"@[i] || text[i] as u32 + 32
            == "wayland"@[i] as u32)
}

/// A session is one of Wayland exactly if its type spells so, or there is a Wayland display and no
/// other; a display that is set to nothing is none.
pub proof fn law_a_wayland_session_is_told_apart(
    session_type: &str,
    wayland_display: Option<&[u8]>,
    display: Option<&[u8]>,
    wayland: bool,
)
    requires
        call_ensures(
            environment_is_wayland,
            (session_type, wayland_display, display),
            wayland,
        ),
    ensures
        wayland <==> {
            ||| spells_wayland(session_type@)
            ||| {
                &&& wayland_display is Some
                &&& wayland_display->0@.len() != 0
                &&& display is None || display->0@.len() == 0
            }
        },
{
    reveal_strlit("wayland");
    let lower = |c: char| crate::text::ascii_lower(c);
    let text = session_type@;
    let word = "wayland"@;
    assert(word.map_values(lower) =~= word);
    if spells_wayland(text) {
        assert forall|i: int| 0 <= i < text.len() implies crate::text::ascii_lower(
            #[trigger] text[i],
        ) == word[i] by {
            lemma_lower(text[i], word[i]);
        }
        assert(text.map_values(lower) =~= word.map_values(lower));
    }
    if text.map_values(lower) == word.map_values(lower) {
        assert(text.len() == text.map_values(lower).len());
        assert forall|i: int| 0 <= i < text.len() implies (#[trigger] text[i] == word[i]
            || text[i] as u32 + 32 == word[i] as u32) by {
            assert(text.map_values(lower)[i] == word.map_values(lower)[i]);
            lemma_lower(text[i], word[i]);
        }
    }
}

/// A small letter is what a character is lowered to exactly if it is the character or its capital
/// is.
proof fn lemma_lower(c: char, small: char)
    requires
        'a' <= small <= 'z',
    ensures
        crate::text::ascii_lower(c) == small <==> c == small || c as u32 + 32 == small as u32,
{
}

/// The search is over and found nothing.
pub open spec fn over_without_a_find(search: SearchView) -> bool {
    &&& search.stage == Stage::Finished
    &&& search.remaining.len() == 0
    &&& search.found is None
}

/// The search asks for the owner of the first of `windows`, and is over if there is none.
pub open spec fn turned_to(search: SearchView, windows: Seq<u32>) -> bool {
    &&& search.remaining == windows
    &&& search.found is None
    &&& windows.len() == 0 <==> search.stage == Stage::Finished
    &&& windows.len() != 0 <==> search.stage == Stage::OwnerPid
}

/// The search went on from the window at hand to the one after it.
pub open spec fn passed_by(before: SearchView, after: SearchView) -> bool {
    turned_to(after, before.remaining.drop_first())
}

proof fn lemma_turned_to(windows: Seq<u32>)
    ensures
        turned_to(SearchView::at(windows), windows),
{
    if windows.len() == 0 {
        assert(windows =~= Seq::<u32>::empty());
    }
}

/// How a search follows the title of the window at hand: it is over exactly if that names a
/// meeting, with the first browser that runs under the process number; otherwise the window is
/// passed by.
pub open spec fn follows_title(
    before: SearchView,
    browsers: Seq<ProcessInfo>,
    pid: u32,
    title: Seq<char>,
    after: SearchView,
) -> bool {
    let named = some_with_pid(browsers, pid) && title_source(title) is Some;
    &&& !named ==> passed_by(before, after)
    &&& named ==> {
        &&& after.stage == Stage::Finished
        &&& after.remaining.len() == 0
        &&& after.found is Some
        &&& after.found matches Some((browser, source)) ==> {
            &&& title_source(title) == Some(source)
            &&& exists|k: int| #[trigger] first_with_pid(browsers, k, pid) && browser
                == browsers[k]
        }
    }
}

proof fn lemma_follows_title(
    before: SearchView,
    browsers: Seq<ProcessInfo>,
    pid: u32,
    title: Seq<char>,
)
    ensures
        follows_title(
            before,
            browsers,
            pid,
            title,
            before.after_title(browsers, pid, title),
        ),
{
    let k = law_title_and_number_decide_a_match(browsers, pid, title);
    lemma_turned_to(before.remaining.drop_first());
    if some_with_pid(browsers, pid) && title_source(title) is Some {
        assert(first_with_pid(browsers, k, pid));
    }
}

/// A search begins by asking for the windows, unless there is no browser or no display to search;
/// then it is over at once.
pub proof fn law_a_search_begins_with_the_windows<'a>(
    browsers: &'a [ProcessInfo],
    wayland: bool,
    search: WindowSearch<'a>,
)
    requires
        call_ensures(WindowSearch::new, (browsers, wayland), search),
    ensures
        search.browsers() == browsers@,
        search@.found is None,
        search@.remaining.len() == 0,
        search@.stage == Stage::Finished <==> browsers@.len() == 0 || wayland,
        search@.stage == Stage::ClientList <==> browsers@.len() > 0 && !wayland,
{
}

/// What a search asks for is what it waits for, of the first of the windows that are left; it asks
/// for nothing exactly once it is over.
pub proof fn law_a_search_asks_for_what_it_waits_for<'a>(
    search: &WindowSearch<'a>,
    request: Option<Request>,
)
    requires
        call_ensures(WindowSearch::request, (search,), request),
    ensures
        request is None <==> search@.stage == Stage::Finished,
        request matches Some(Request::ClientList) <==> search@.stage == Stage::ClientList,
        request matches Some(Request::OwnerPid { window }) ==> search@.stage == Stage::OwnerPid
            && window == search@.remaining.first(),
        request matches Some(Request::Name { window }) ==> search@.stage is Name && window
            == search@.remaining.first(),
        request matches Some(Request::LegacyName { window }) ==> search@.stage is LegacyName
            && window == search@.remaining.first(),
{
}

/// What a search hands out is what it found.
pub proof fn law_a_search_hands_out_its_find<'a>(
    search: WindowSearch<'a>,
    found: Option<(ProcessInfo, Source)>,
)
    requires
        call_ensures(WindowSearch::into_found, (search,), found),
    ensures
        found == search@.found,
{
}

/// A search goes through all the windows that it is given, in their order, and is over if there are
/// none or they cannot be told.
pub proof fn law_a_search_goes_through_the_windows<'a>(
    search: &mut WindowSearch<'a>,
    windows: Option<Vec<u32>>,
)
    requires
        call_ensures(WindowSearch::take_windows, (search, windows), ()),
    ensures
        final(search).browsers() == old(search).browsers(),
        windows is None ==> over_without_a_find(final(search)@),
        windows is Some ==> turned_to(final(search)@, windows->0@),
{
    if windows is Some {
        lemma_turned_to(windows->0@);
    }
}

/// The title of a window is asked for exactly if a browser owns it; any other window is passed by.
pub proof fn law_only_a_browser_is_asked_for_its_title<'a>(
    search: &mut WindowSearch<'a>,
    owner: Option<u32>,
)
    requires
        call_ensures(WindowSearch::take_owner, (search, owner), ()),
    ensures
        final(search).browsers() == old(search).browsers(),
        ({
            let hosted = owner is Some && some_with_pid(old(search).browsers(), owner->0);
            &&& hosted ==> {
                &&& final(search)@.stage == (Stage::Name { pid: owner->0 })
                &&& final(search)@.remaining == old(search)@.remaining
                &&& final(search)@.found == old(search)@.found
            }
            &&& !hosted ==> passed_by(old(search)@, final(search)@)
        }),
{
    lemma_turned_to(old(search)@.remaining.drop_first());
    if owner is Some {
        let _ = law_the_first_browser_with_the_number_is_found(old(search).browsers(), owner->0);
    }
}

/// A UTF-8 title decides; without one the older title of the same window is asked for.
pub proof fn law_a_name_decides_or_the_older_one_is_asked_for<'a>(
    search: &mut WindowSearch<'a>,
    pid: u32,
    title: Option<String>,
)
    requires
        call_ensures(WindowSearch::take_name, (search, pid, title), ()),
    ensures
        final(search).browsers() == old(search).browsers(),
        title is Some ==> follows_title(
            old(search)@,
            old(search).browsers(),
            pid,
            title->0@,
            final(search)@,
        ),
        title is None ==> {
            &&& final(search)@.stage == (Stage::LegacyName { pid })
            &&& final(search)@.remaining == old(search)@.remaining
            &&& final(search)@.found == old(search)@.found
        },
{
    if title is Some {
        lemma_follows_title(old(search)@, old(search).browsers(), pid, title->0@);
    }
}

/// An older title decides just as the other does; without one the window is passed by.
pub proof fn law_an_older_name_decides_or_the_window_is_passed_by<'a>(
    search: &mut WindowSearch<'a>,
    pid: u32,
    title: Option<String>,
)
    requires
        call_ensures(WindowSearch::take_legacy_name, (search, pid, title), ()),
    ensures
        final(search).browsers() == old(search).browsers(),
        title is Some ==> follows_title(
            old(search)@,
            old(search).browsers(),
            pid,
            title->0@,
            final(search)@,
        ),
        title is None ==> passed_by(old(search)@, final(search)@),
{
    lemma_turned_to(old(search)@.remaining.drop_first());
    if title is Some {
        lemma_follows_title(old(search)@, old(search).browsers(), pid, title->0@);
    }
}

/// The answer to the request for the windows is a search through the numbers of the reply, in their
/// order; without numbers the search is over.
pub proof fn law_an_answer_gives_the_windows<'a>(
    search: &mut WindowSearch<'a>,
    reply: Option<PropertyReply>,
)
    requires
        old(search)@.stage == Stage::ClientList,
        call_ensures(WindowSearch::answer, (search, reply), ()),
    ensures
        final(search).browsers() == old(search).browsers(),
        reply is None || reply->0.format != 32 ==> over_without_a_find(final(search)@),
        reply is Some && reply->0.format == 32 ==> {
            let windows = final(search)@.remaining;
            &&& turned_to(final(search)@, windows)
            &&& 4 * windows.len() <= reply->0.value@.len() < 4 * windows.len() + 4
            &&& forall|i: int|
                0 <= i < windows.len() ==> stored_as(
                    #[trigger] windows[i],
                    reply->0.value@.subrange(4 * i, 4 * i + 4),
                )
        },
{
    if reply is Some && reply->0.format == 32 {
        law_every_four_bytes_are_a_number(reply->0);
        lemma_turned_to(reply->0.numbers(ByteOrder::native())->0);
    }
}

/// The answer to the request for an owner is the number in its first four bytes: if a browser runs
/// under it the title is asked for, and in all other cases the window is passed by.
pub proof fn law_an_answer_gives_the_owner<'a>(
    search: &mut WindowSearch<'a>,
    reply: Option<PropertyReply>,
    pid: u32,
)
    requires
        old(search)@.stage == Stage::OwnerPid,
        call_ensures(WindowSearch::answer, (search, reply), ()),
    ensures
        final(search).browsers() == old(search).browsers(),
        reply is None || reply->0.format != 32 || reply->0.value@.len() < 4 ==> passed_by(
            old(search)@,
            final(search)@,
        ),
        reply is Some && reply->0.format == 32 && stored_as(pid, reply->0.value@.take(4))
            && reply->0.value@.len() >= 4 ==> {
            &&& some_with_pid(old(search).browsers(), pid) ==> {
                &&& final(search)@.stage == (Stage::Name { pid })
                &&& final(search)@.remaining == old(search)@.remaining
                &&& final(search)@.found == old(search)@.found
            }
            &&& !some_with_pid(old(search).browsers(), pid) ==> passed_by(
                old(search)@,
                final(search)@,
            )
        },
{
    lemma_turned_to(old(search)@.remaining.drop_first());
    if reply is Some && reply->0.format == 32 && reply->0.value@.len() >= 4 {
        let bytes = reply->0.value@.take(4);
        let number = ByteOrder::native().number(bytes);
        lemma_number_is_stored(bytes);
        if stored_as(pid, bytes) {
            lemma_stored_once(pid, number, bytes);
        }
        let _ = law_the_first_browser_with_the_number_is_found(old(search).browsers(), pid);
    }
}

/// The answer to the request for a title is the text whose bytes it holds, if there is one; without
/// one the older title of the same window is asked for.
pub proof fn law_an_answer_gives_the_title<'a>(
    search: &mut WindowSearch<'a>,
    reply: Option<PropertyReply>,
    pid: u32,
    title: Seq<char>,
)
    requires
        old(search)@.stage == (Stage::Name { pid }),
        call_ensures(WindowSearch::answer, (search, reply), ()),
    ensures
        final(search).browsers() == old(search).browsers(),
        reply is Some && reply->0.format == 8 && reply->0.value@ == encode_utf8(title)
            ==> follows_title(
            old(search)@,
            old(search).browsers(),
            pid,
            title,
            final(search)@,
        ),
        reply is None || reply->0.format != 8 || !valid_utf8(reply->0.value@) ==> {
            &&& final(search)@.stage == (Stage::LegacyName { pid })
            &&& final(search)@.remaining == old(search)@.remaining
            &&& final(search)@.found == old(search)@.found
        },
{
    encode_utf8_valid_utf8(title);
    encode_utf8_decode_utf8(title);
    lemma_follows_title(old(search)@, old(search).browsers(), pid, title);
}

/// The answer to the request for an older title is the text that has its bytes for numbers, if its
/// format is that of a text; without one the window is passed by.
pub proof fn law_an_answer_gives_the_older_title<'a>(
    search: &mut WindowSearch<'a>,
    reply: Option<PropertyReply>,
    pid: u32,
    title: Seq<char>,
)
    requires
        old(search)@.stage == (Stage::LegacyName { pid }),
        call_ensures(WindowSearch::answer, (search, reply), ()),
    ensures
        final(search).browsers() == old(search).browsers(),
        reply is Some && reply->0.format == 8 && title.len() == reply->0.value@.len() && (forall|
            i: int,
        |
            0 <= i < title.len() ==> #[trigger] title[i] == reply->0.value@[i] as char)
            ==> follows_title(
            old(search)@,
            old(search).browsers(),
            pid,
            title,
            final(search)@,
        ),
        reply is None || reply->0.format != 8 ==> passed_by(old(search)@, final(search)@),
{
    lemma_turned_to(old(search)@.remaining.drop_first());
    lemma_follows_title(old(search)@, old(search).browsers(), pid, title);
    if reply is Some && title.len() == reply->0.value@.len() && (forall|i: int|
        0 <= i < title.len() ==> #[trigger] title[i] == reply->0.value@[i] as char) {
        assert(title =~= decode_latin1(reply->0.value@));
    }
}

/// A search that is over stays as it is, whatever it is told.
pub proof fn law_a_search_that_is_over_stays_so<'a>(
    search: &mut WindowSearch<'a>,
    reply: Option<PropertyReply>,
)
    requires
        old(search)@.stage == Stage::Finished,
        call_ensures(WindowSearch::answer, (search, reply), ()),
    ensures
        final(search)@ == old(search)@,
        final(search).browsers() == old(search).browsers(),
{
}

} // verus!
