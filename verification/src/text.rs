//! Operations on text that the conversion needs: search for a fragment,
//! cleaning of padded text, and removal of a repeated suffix.

use vstd::prelude::*;
use vstd::string::*;

verus! {

/// `needle` stands in `hay` at position `at`.
pub open spec fn occurs_at(hay: Seq<char>, needle: Seq<char>, at: int) -> bool {
    &&& 0 <= at
    &&& at + needle.len() <= hay.len()
    &&& hay.subrange(at, at + needle.len()) == needle
}

/// `needle` stands somewhere in `hay`.
pub open spec fn contains_text(hay: Seq<char>, needle: Seq<char>) -> bool {
    exists|at: int| occurs_at(hay, needle, at)
}

/// ASCII white space: space, tab, line feed, form feed, carriage return.
pub open spec fn is_ascii_space(c: char) -> bool {
    c == ' ' || c == '\t' || c == '\n' || c == '\x0C' || c == '\r'
}

/// `text` without its leading ASCII white space.
pub open spec fn trim_start(text: Seq<char>) -> Seq<char>
    decreases text.len(),
{
    if text.len() > 0 && is_ascii_space(text.first()) {
        trim_start(text.drop_first())
    } else {
        text
    }
}

/// A character of the padding behind a text: NUL or ASCII white space.
pub open spec fn is_padding(c: char) -> bool {
    c == '\0' || is_ascii_space(c)
}

/// `text` without the NUL characters and the ASCII white space at its end.
pub open spec fn strip_padding(text: Seq<char>) -> Seq<char>
    decreases text.len(),
{
    if text.len() > 0 && is_padding(text.last()) {
        strip_padding(text.drop_last())
    } else {
        text
    }
}

/// `text` without the NUL padding and the ASCII white space at its end, and
/// without the ASCII white space at its start.
pub open spec fn clean_text(text: Seq<char>) -> Seq<char> {
    trim_start(strip_padding(text))
}

/// Neither white space at its start nor padding at its end.
pub open spec fn is_clean(text: Seq<char>) -> bool {
    text.len() > 0 ==> !is_ascii_space(text.first()) && !is_padding(text.last())
}

/// What is left when the padding at the end is stripped does not end in
/// padding.
pub proof fn lemma_strip_padding_end(text: Seq<char>)
    ensures
        strip_padding(text).len() > 0 ==> !is_padding(strip_padding(text).last()),
    decreases text.len(),
{
    if text.len() > 0 && is_padding(text.last()) {
        lemma_strip_padding_end(text.drop_last());
    }
}

/// What is left when the white space at the start is stripped does not
/// start with white space, and ends as the text did.
pub proof fn lemma_trim_start_ends(text: Seq<char>)
    ensures
        trim_start(text).len() > 0 ==> !is_ascii_space(trim_start(text).first())
            && text.len() > 0 && trim_start(text).last() == text.last(),
    decreases text.len(),
{
    if text.len() > 0 && is_ascii_space(text.first()) {
        lemma_trim_start_ends(text.drop_first());
    }
}

/// A cleaned text has no white space at its start and ends in neither NUL
/// nor white space.
pub proof fn lemma_cleaned_is_clean(text: Seq<char>)
    ensures
        is_clean(clean_text(text)),
{
    lemma_strip_padding_end(text);
    lemma_trim_start_ends(strip_padding(text));
}

/// Padding behind a text is stripped with the padding of the text itself.
proof fn lemma_strip_padding_behind(text: Seq<char>, pad: Seq<char>)
    requires
        forall|i: int| 0 <= i < pad.len() ==> is_padding(#[trigger] pad[i]),
    ensures
        strip_padding(text + pad) == strip_padding(text),
    decreases pad.len(),
{
    if pad.len() > 0 {
        assert((text + pad).drop_last() =~= text + pad.drop_last());
        lemma_strip_padding_behind(text, pad.drop_last());
    } else {
        assert(text + pad =~= text);
    }
}

/// White space before a text is stripped with the white space at the start
/// of the text itself.
proof fn lemma_trim_start_before(lead: Seq<char>, text: Seq<char>)
    requires
        forall|i: int| 0 <= i < lead.len() ==> is_ascii_space(#[trigger] lead[i]),
    ensures
        trim_start(lead + text) == trim_start(text),
    decreases lead.len(),
{
    if lead.len() > 0 {
        assert((lead + text).drop_first() =~= lead.drop_first() + text);
        lemma_trim_start_before(lead.drop_first(), text);
    } else {
        assert(lead + text =~= text);
    }
}

/// Cleaning takes away what surrounds a clean text and nothing of the text:
/// white space before it, and NUL padding and white space behind it, in
/// whatever order they stand there.
pub proof fn lemma_clean_strips_surroundings(lead: Seq<char>, body: Seq<char>, pad: Seq<char>)
    requires
        forall|i: int| 0 <= i < lead.len() ==> is_ascii_space(#[trigger] lead[i]),
        forall|i: int| 0 <= i < pad.len() ==> is_padding(#[trigger] pad[i]),
        is_clean(body),
    ensures
        clean_text(lead + body + pad) == body,
{
    lemma_strip_padding_behind(lead + body, pad);
    if body.len() > 0 {
        lemma_trim_start_before(lead, body);
    } else {
        assert(lead + body =~= Seq::<char>::empty() + lead);
        lemma_strip_padding_behind(Seq::<char>::empty(), lead);
    }
}

/// Cleaning a cleaned text changes nothing.
pub proof fn lemma_clean_twice(text: Seq<char>)
    ensures
        clean_text(clean_text(text)) == clean_text(text),
{
    let cleaned = clean_text(text);
    lemma_cleaned_is_clean(text);
    lemma_clean_strips_surroundings(Seq::empty(), cleaned, Seq::empty());
    assert(Seq::<char>::empty() + cleaned + Seq::<char>::empty() =~= cleaned);
}

/// `text` ends with `suffix`.
pub open spec fn ends_with(text: Seq<char>, suffix: Seq<char>) -> bool {
    occurs_at(text, suffix, text.len() - suffix.len())
}

/// `text` with every repetition of `suffix` at its end removed.
pub open spec fn strip_suffix_all(text: Seq<char>, suffix: Seq<char>) -> Seq<char>
    decreases text.len(),
{
    if suffix.len() > 0 && ends_with(text, suffix) {
        strip_suffix_all(text.subrange(0, text.len() - suffix.len()), suffix)
    } else {
        text
    }
}

/// Whether `needle` stands in `hay` at character position `at`.
fn matches_at(hay: &str, needle: &str, at: usize, width: usize) -> (found: bool)
    requires
        width == needle@.len(),
        at + width <= hay@.len() <= usize::MAX,
    ensures
        found == occurs_at(hay@, needle@, at as int),
{
    let mut j: usize = 0;
    while j < width
        invariant
            width == needle@.len(),
            at + width <= hay@.len() <= usize::MAX,
            j <= width,
            forall|k: int| 0 <= k < j ==> hay@[at + k] == needle@[k],
        decreases width - j,
    {
        if hay.get_char(at + j) != needle.get_char(j) {
            return false;
        }
        j += 1;
    }
    assert(hay@.subrange(at as int, at + width) =~= needle@);
    true
}

/// Whether `needle` stands somewhere in `hay`.
pub fn contains(hay: &str, needle: &str) -> (found: bool)
    ensures
        found == contains_text(hay@, needle@),
{
    let length = hay.unicode_len();
    let width = needle.unicode_len();
    if width > length {
        return false;
    }
    let last = length - width;
    let mut at: usize = 0;
    while at < last
        invariant
            length == hay@.len(),
            width == needle@.len(),
            last == length - width,
            at <= last,
            forall|k: int| 0 <= k < at ==> !occurs_at(hay@, needle@, k),
        decreases last - at,
    {
        if matches_at(hay, needle, at, width) {
            return true;
        }
        at += 1;
    }
    matches_at(hay, needle, last, width)
}

fn is_space(c: char) -> (space: bool)
    ensures
        space == is_ascii_space(c),
{
    c == ' ' || c == '\t' || c == '\n' || c == '\x0C' || c == '\r'
}

/// The text of `text` without the NUL padding and the ASCII white space at
/// its end, and without the ASCII white space at its start.
pub fn clean(text: &str) -> (cleaned: String)
    ensures
        cleaned@ == clean_text(text@),
        is_clean(cleaned@),
{
    let length = text.unicode_len();
    let mut to: usize = length;
    assert(text@.subrange(0, length as int) =~= text@);
    while to > 0 && (text.get_char(to - 1) == '\0' || is_space(text.get_char(to - 1)))
        invariant
            length == text@.len(),
            to <= length,
            strip_padding(text@) == strip_padding(text@.subrange(0, to as int)),
        decreases to,
    {
        proof {
            let rest = text@.subrange(0, to as int);
            assert(rest.drop_last() =~= text@.subrange(0, to - 1));
        }
        to -= 1;
    }
    let ghost stripped = text@.subrange(0, to as int);
    let mut from: usize = 0;
    assert(stripped.subrange(0, to as int) =~= stripped);
    while from < to && is_space(text.get_char(from))
        invariant
            length == text@.len(),
            from <= to <= length,
            stripped == text@.subrange(0, to as int),
            trim_start(stripped) == trim_start(text@.subrange(from as int, to as int)),
        decreases to - from,
    {
        proof {
            let rest = text@.subrange(from as int, to as int);
            assert(rest.drop_first() =~= text@.subrange(from + 1, to as int));
        }
        from += 1;
    }
    proof {
        lemma_cleaned_is_clean(text@);
    }
    String::from_str(text.substring_char(from, to))
}

/// The text of `text` with every repetition of `suffix` at its end removed.
pub fn strip_repeated_suffix(text: &str, suffix: &str) -> (stripped: String)
    ensures
        stripped@ == strip_suffix_all(text@, suffix@),
{
    let width = suffix.unicode_len();
    let mut to: usize = text.unicode_len();
    if width > 0 {
        assert(text@.subrange(0, to as int) =~= text@);
        while to >= width && matches_at(text, suffix, to - width, width)
            invariant
                width == suffix@.len(),
                width > 0,
                to <= text@.len() <= usize::MAX,
                strip_suffix_all(text@, suffix@) == strip_suffix_all(
                    text@.subrange(0, to as int),
                    suffix@,
                ),
            decreases to,
        {
            proof {
                let head = text@.subrange(0, to as int);
                assert(head.subrange(to - width, to as int) =~= text@.subrange(
                    to - width,
                    to as int,
                ));
                assert(head.subrange(0, to - width) =~= text@.subrange(0, to - width));
            }
            to -= width;
        }
        proof {
            let head = text@.subrange(0, to as int);
            if to >= width {
                assert(head.subrange(to - width, to as int) =~= text@.subrange(
                    to - width,
                    to as int,
                ));
            }
        }
    }
    String::from_str(text.substring_char(0, to))
}

} // verus!
