//! What holds of all window titles.

use vstd::prelude::*;

#[allow(unused_imports)]
use crate::text::{is_white_space, trimmed};
#[allow(unused_imports)]
use crate::window_title::{cal_video_title, meet_title, title_source};

verus! {

/// Nothing but white space.
pub open spec fn blank(s: Seq<char>) -> bool {
    forall|i: int| 0 <= i < s.len() ==> is_white_space(#[trigger] s[i])
}

/// White space at the end of a text does not change what is left of it.
proof fn lemma_trim_end(s: Seq<char>, after: Seq<char>)
    requires
        blank(after),
    ensures
        trimmed(s + after) == trimmed(s),
    decreases s.len() + after.len(),
{
    let whole = s + after;
    if after.len() == 0 {
        assert(whole =~= s);
    } else if s.len() > 0 && is_white_space(s.first()) {
        assert(whole.first() == s.first());
        assert(whole.drop_first() =~= s.drop_first() + after);
        lemma_trim_end(s.drop_first(), after);
    } else if s.len() == 0 {
        assert(whole =~= after);
        assert(is_white_space(after[0]));
        assert(whole.drop_first() =~= s + after.drop_first());
        lemma_trim_end(s, after.drop_first());
    } else {
        assert(whole.first() == s.first());
        assert(whole.last() == after.last());
        assert(is_white_space(after[after.len() - 1]));
        assert(whole.drop_last() =~= s + after.drop_last());
        lemma_trim_end(s, after.drop_last());
    }
}

/// White space around a title does not matter to what is left of it, and so not to the meeting
/// that it names.
pub proof fn law_surrounding_white_space_is_ignored(
    before: Seq<char>,
    title: Seq<char>,
    after: Seq<char>,
)
    requires
        blank(before),
        blank(after),
    ensures
        trimmed(before + title + after) == trimmed(title),
        title_source(before + title + after) == title_source(title),
    decreases before.len(),
{
    let whole = before + title + after;
    if before.len() == 0 {
        assert(whole =~= title + after);
        lemma_trim_end(title, after);
    } else {
        assert(whole.first() == before[0]);
        assert(whole.drop_first() =~= before.drop_first() + title + after);
        law_surrounding_white_space_is_ignored(before.drop_first(), title, after);
    }
}

/// What is left of a title has no white space at either end, and trimming it again changes
/// nothing.
pub proof fn law_trimming_is_done_once(title: Seq<char>)
    ensures
        trimmed(title).len() > 0 ==> !is_white_space(trimmed(title).first()) && !is_white_space(
            trimmed(title).last(),
        ),
        trimmed(trimmed(title)) == trimmed(title),
    decreases title.len(),
{
    if title.len() > 0 && is_white_space(title.first()) {
        law_trimming_is_done_once(title.drop_first());
    } else if title.len() > 0 && is_white_space(title.last()) {
        law_trimming_is_done_once(title.drop_last());
    }
}

/// No title names two meetings.
pub proof fn law_a_title_names_one_meeting(title: Seq<char>)
    ensures
        !(meet_title(title) && cal_video_title(title)),
{
    reveal_strlit("Google Meet");
    reveal_strlit("Meet – ");
    reveal_strlit("Meet - ");
    reveal_strlit("Cal.com Video");
    if meet_title(title) && cal_video_title(title) {
        assert(trimmed(title)[0] == "Cal.com Video"@[0]);
        if "Meet – "@.is_prefix_of(trimmed(title)) {
            assert(trimmed(title)[0] == "Meet – "@[0]);
        } else if "Meet - "@.is_prefix_of(trimmed(title)) {
            assert(trimmed(title)[0] == "Meet - "@[0]);
        } else {
            assert(trimmed(title)[0] == "Google Meet"@[0]);
        }
    }
}

/// A text that starts and ends with something else than white space stays whole at the start of
/// any text that it starts.
proof fn lemma_solid_prefix_stays(solid: Seq<char>, rest: Seq<char>)
    requires
        solid.len() > 0,
        !is_white_space(solid.first()),
        !is_white_space(solid.last()),
    ensures
        solid.is_prefix_of(trimmed(solid + rest)),
    decreases rest.len(),
{
    let whole = solid + rest;
    assert(whole.first() == solid.first());
    if rest.len() == 0 {
        assert(whole =~= solid);
    } else if is_white_space(rest.last()) {
        assert(whole.last() == rest.last());
        assert(whole.drop_last() =~= solid + rest.drop_last());
        lemma_solid_prefix_stays(solid, rest.drop_last());
    } else {
        assert(whole.last() == rest.last());
    }
}

/// A Cal Video title is recognised whatever a browser appends to it.
pub proof fn law_cal_video_title_may_have_any_suffix(suffix: Seq<char>)
    ensures
        cal_video_title("Cal.com Video"@ + suffix),
        title_source("Cal.com Video"@ + suffix) == Some(crate::detect::Source::CalVideo),
{
    reveal_strlit("Cal.com Video");
    lemma_solid_prefix_stays("Cal.com Video"@, suffix);
    law_a_title_names_one_meeting("Cal.com Video"@ + suffix);
}

/// A Google Meet title is recognised whatever the meeting is called, as long as that is not blank.
pub proof fn law_meet_title_may_have_any_name(name: Seq<char>)
    requires
        !blank(name),
    ensures
        meet_title("Meet – "@ + name),
        meet_title("Meet - "@ + name),
{
    reveal_strlit("Meet – ");
    reveal_strlit("Meet - ");
    let at = choose|i: int| 0 <= i < name.len() && !is_white_space(#[trigger] name[i]);
    let head = name.take(at + 1);
    let tail = name.skip(at + 1);
    assert(head.last() == name[at]);
    let en_dash = "Meet – "@ + head;
    let hyphen = "Meet - "@ + head;
    assert("Meet – "@ + name =~= en_dash + tail);
    assert("Meet - "@ + name =~= hyphen + tail);
    assert(en_dash.last() == name[at]);
    assert(hyphen.last() == name[at]);
    lemma_solid_prefix_stays(en_dash, tail);
    lemma_solid_prefix_stays(hyphen, tail);
    assert("Meet – "@.is_prefix_of(trimmed("Meet – "@ + name))) by {
        assert forall|i: int| 0 <= i < "Meet – "@.len() implies trimmed("Meet – "@ + name)[i]
            == "Meet – "@[i] by {
            assert(en_dash[i] == "Meet – "@[i]);
        }
    }
    assert("Meet - "@.is_prefix_of(trimmed("Meet - "@ + name))) by {
        assert forall|i: int| 0 <= i < "Meet - "@.len() implies trimmed("Meet - "@ + name)[i]
            == "Meet - "@[i] by {
            assert(hyphen[i] == "Meet - "@[i]);
        }
    }
}

} // verus!
