//! Small operations on texts: trimming, and cutting at a separator.

use vstd::prelude::*;
use vstd::string::*;

verus! {

/// The character is white space: it has the Unicode property `White_Space`,
/// which is what `char::is_whitespace` tests. These are the tab, the line
/// and page breaks of ASCII, the space, the next-line control, the no-break
/// space, the Ogham space mark, the spaces of fixed width, the line and
/// paragraph separators, the narrow no-break space, the medium mathematical
/// space and the ideographic space.
pub open spec fn is_whitespace(c: char) -> bool {
    let code = c as u32;
    ||| 0x0009 <= code <= 0x000d
    ||| code == 0x0020
    ||| code == 0x0085
    ||| code == 0x00a0
    ||| code == 0x1680
    ||| 0x2000 <= code <= 0x200a
    ||| code == 0x2028
    ||| code == 0x2029
    ||| code == 0x202f
    ||| code == 0x205f
    ||| code == 0x3000
}

/// The text without the white space at its front.
pub open spec fn trim_start(text: Seq<char>) -> Seq<char>
    decreases text.len(),
{
    if text.len() > 0 && is_whitespace(text.first()) {
        trim_start(text.drop_first())
    } else {
        text
    }
}

/// The text without the white space at its end.
pub open spec fn trim_end(text: Seq<char>) -> Seq<char>
    decreases text.len(),
{
    if text.len() > 0 && is_whitespace(text.last()) {
        trim_end(text.drop_last())
    } else {
        text
    }
}

/// The text without the white space at either end.
pub open spec fn trimmed(text: Seq<char>) -> Seq<char> {
    trim_end(trim_start(text))
}

/// `str::trim`. Trusted: the result is the text without its leading and
/// trailing white space.
#[verifier::external_body]
pub(crate) fn trim(text: &str) -> (inner: &str)
    ensures
        inner@ == trimmed(text@),
{
    text.trim()
}

/// A text that neither begins nor ends with white space is its own
/// trimming.
pub proof fn lemma_trimmed_is_fixed(text: Seq<char>)
    requires
        text.len() > 0 ==> !is_whitespace(text.first()) && !is_whitespace(text.last()),
    ensures
        trimmed(text) == text,
{
}

/// `at` is where `mark` first stands in the text, or the text's length if
/// it stands nowhere.
pub open spec fn first_at(text: Seq<char>, mark: char, at: int) -> bool {
    &&& 0 <= at <= text.len()
    &&& forall|j: int| 0 <= j < at ==> text[j] != mark
    &&& at < text.len() ==> text[at] == mark
}

/// Where `mark` first stands in the text, or the text's length.
pub open spec fn first_index(text: Seq<char>, mark: char) -> int {
    choose|at: int| first_at(text, mark, at)
}

/// There is one such place only.
pub proof fn lemma_first_index(text: Seq<char>, mark: char, at: int)
    requires
        first_at(text, mark, at),
    ensures
        first_index(text, mark) == at,
{
    let chosen = first_index(text, mark);
    assert(first_at(text, mark, chosen));
    if chosen < at {
        assert(text[chosen] != mark);
    } else if at < chosen {
        assert(text[at] != mark);
    }
}

/// The part of the text before the first `mark`: all of it where there is
/// no `mark`.
pub open spec fn spec_before(text: Seq<char>, mark: char) -> Seq<char> {
    text.subrange(0, first_index(text, mark))
}

/// The part of the text after the first `mark`, if there is a `mark`.
pub open spec fn spec_after(text: Seq<char>, mark: char) -> Option<Seq<char>> {
    let at = first_index(text, mark);
    if at < text.len() {
        Some(text.subrange(at + 1, text.len() as int))
    } else {
        None
    }
}

/// The second of the fields that `mark` separates, if there are two: what
/// stands between the first `mark` and the next, or the text's end.
pub open spec fn spec_second_field(text: Seq<char>, mark: char) -> Option<Seq<char>> {
    match spec_after(text, mark) {
        Some(rest) => Some(spec_before(rest, mark)),
        None => None,
    }
}

/// Finds the first `mark` at or after `from`.
fn find_from(text: &str, mark: char, from: usize) -> (at: usize)
    requires
        from <= text@.len(),
    ensures
        from <= at <= text@.len(),
        forall|j: int| from <= j < at ==> text@[j] != mark,
        at < text@.len() ==> text@[at as int] == mark,
{
    let len = text.unicode_len();
    let mut at: usize = from;
    while at < len
        invariant
            from <= at <= len,
            len == text@.len(),
            forall|j: int| from <= j < at ==> text@[j] != mark,
        decreases len - at,
    {
        if text.get_char(at) == mark {
            return at;
        }
        at += 1;
    }
    at
}

/// The part of the text before the first `mark`.
pub fn before<'a>(text: &'a str, mark: char) -> (part: &'a str)
    ensures
        part@ == spec_before(text@, mark),
{
    let at = find_from(text, mark, 0);
    proof {
        lemma_first_index(text@, mark, at as int);
    }
    text.substring_char(0, at)
}

/// The second of the fields that `mark` separates, if there are two.
pub fn second_field<'a>(text: &'a str, mark: char) -> (part: Option<&'a str>)
    ensures
        match part {
            Some(field) => spec_second_field(text@, mark) == Some(field@),
            None => spec_second_field(text@, mark) is None,
        },
{
    let len = text.unicode_len();
    let at = find_from(text, mark, 0);
    proof {
        lemma_first_index(text@, mark, at as int);
    }
    if at >= len {
        return None;
    }
    let end = find_from(text, mark, at + 1);
    proof {
        let rest = text@.subrange(at + 1, len as int);
        assert(first_at(rest, mark, end - (at + 1))) by {
            assert forall|j: int| 0 <= j < end - (at + 1) implies rest[j] != mark by {
                assert(rest[j] == text@[j + at + 1]);
            }
        }
        lemma_first_index(rest, mark, end - (at + 1));
        assert(rest.subrange(0, end - (at + 1)) =~= text@.subrange(at + 1, end as int));
    }
    Some(text.substring_char(at + 1, end))
}

} // verus!
