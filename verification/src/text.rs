//! Text handling shared by the other modules: white space, truncation, numbers and path names.

use std::path::Path;
use vstd::prelude::*;

use crate::payload;

verus! {

// ---------------------------------------------------------------------------
// White space
// ---------------------------------------------------------------------------

/// The characters with the Unicode property White_Space.
pub open spec fn is_white_space(c: char) -> bool {
    ||| '\u{9}' <= c <= '\u{D}'
    ||| c == '\u{20}'
    ||| c == '\u{85}'
    ||| c == '\u{A0}'
    ||| c == '\u{1680}'
    ||| '\u{2000}' <= c <= '\u{200A}'
    ||| c == '\u{2028}'
    ||| c == '\u{2029}'
    ||| c == '\u{202F}'
    ||| c == '\u{205F}'
    ||| c == '\u{3000}'
}

/// `text` without its leading white space.
pub open spec fn trimmed_start(text: Seq<char>) -> Seq<char>
    decreases text.len(),
{
    if text.len() > 0 && is_white_space(text[0]) {
        trimmed_start(text.drop_first())
    } else {
        text
    }
}

/// `text` without its trailing white space.
pub open spec fn trimmed_end(text: Seq<char>) -> Seq<char>
    decreases text.len(),
{
    if text.len() > 0 && is_white_space(text.last()) {
        trimmed_end(text.drop_last())
    } else {
        text
    }
}

/// `text` without its leading and trailing white space.
pub open spec fn trimmed(text: Seq<char>) -> Seq<char> {
    trimmed_end(trimmed_start(text))
}

/// Nothing but white space, or nothing at all.
pub open spec fn is_blank(text: Seq<char>) -> bool {
    trimmed(text).len() == 0
}

/// `str::trim`: white space, as Unicode's White_Space has it, is taken off both ends.
pub assume_specification[ str::trim ](s: &str) -> (rest: &str)
    ensures
        rest@ == trimmed(s@),
;

/// `str::trim_start`: white space, as Unicode's White_Space has it, is taken off the front.
pub assume_specification[ str::trim_start ](s: &str) -> (rest: &str)
    ensures
        rest@ == trimmed_start(s@),
;

// ---------------------------------------------------------------------------
// Case
// ---------------------------------------------------------------------------

/// `A` to `Z` become `a` to `z`; every other character stays.
pub open spec fn ascii_lower(c: char) -> char {
    if 'A' <= c <= 'Z' {
        (c as u32 + 32) as char
    } else {
        c
    }
}

/// Whether two texts differ at most in the case of their ASCII letters.
pub open spec fn same_but_for_ascii_case(a: Seq<char>, b: Seq<char>) -> bool {
    a.len() == b.len() && forall|i: int|
        0 <= i < a.len() ==> ascii_lower(#[trigger] a[i]) == ascii_lower(b[i])
}

/// `str::eq_ignore_ascii_case`: the texts are equal once their ASCII letters are lower case.
pub assume_specification[ str::eq_ignore_ascii_case ](s: &str, other: &str) -> (same: bool)
    ensures
        same == same_but_for_ascii_case(s@, other@),
;

// ---------------------------------------------------------------------------
// Truncation
// ---------------------------------------------------------------------------

/// What [`truncate`] makes of `text`: the trimmed text where it fits the limit, and otherwise as much
/// of its front as leaves room for an ellipsis, with the ellipsis behind it.
pub open spec fn truncated(text: Seq<char>, max: int) -> Seq<char> {
    let body = trimmed(text);
    if body.len() <= max {
        body
    } else {
        body.take(
            if max >= 3 {
                max - 3
            } else {
                0
            },
        ) + "..."@
    }
}

/// Trims `text` and shortens it to at most `max` characters, an ellipsis included. The ellipsis is
/// added only when needed.
pub fn truncate(text: &str, max: usize) -> (short: String)
    ensures
        short@ == truncated(text@, max as int),
{
    let body = text.trim();
    let total: usize = body.unicode_len();
    if total <= max {
        body.to_owned()
    } else {
        body.substring_char(0, max.saturating_sub(3)).to_owned().concat("...")
    }
}

/// A truncated text keeps to the limit, wherever the limit has room for the ellipsis.
pub proof fn law_truncated_keeps_to_the_limit(text: Seq<char>, max: int)
    requires
        max >= 3,
    ensures
        truncated(text, max).len() <= max,
{
    reveal_strlit("...");
}

/// The ellipsis is added only when needed: a text that fits comes back whole, and a longer one
/// fills the limit and ends in the ellipsis.
pub proof fn law_truncated_marks_what_it_cuts(text: Seq<char>, max: int)
    requires
        max >= 3,
    ensures
        trimmed(text).len() <= max ==> truncated(text, max) == trimmed(text),
        trimmed(text).len() > max ==> {
            &&& truncated(text, max).len() == max
            &&& truncated(text, max).take(max - 3) == trimmed(text).take(max - 3)
            &&& truncated(text, max).skip(max - 3) == "..."@
        },
{
    reveal_strlit("...");
    if trimmed(text).len() > max {
        let head = trimmed(text).take(max - 3);
        assert((head + "..."@).take(max - 3) =~= head);
        assert((head + "..."@).skip(max - 3) =~= "..."@);
    }
}

/// At every limit: a text that fits without the white space around it is kept, and any other loses
/// all but what stands in front of three dots.
pub proof fn law_truncated_is_whole_or_dotted(text: Seq<char>, max: nat)
    ensures
        trimmed(text).len() <= max ==> truncated(text, max as int) == trimmed(text),
        trimmed(text).len() > max && max >= 3 ==> truncated(text, max as int) == trimmed(text).take(
            max - 3,
        ) + seq!['.', '.', '.'],
        trimmed(text).len() > max && max < 3 ==> truncated(text, max as int) == seq!['.', '.', '.'],
{
    reveal_strlit("...");
    assert("..."@ =~= seq!['.', '.', '.']);
    assert(trimmed(text).take(0) + "..."@ =~= seq!['.', '.', '.']);
}

// ---------------------------------------------------------------------------
// Numbers
// ---------------------------------------------------------------------------

/// A decimal digit.
pub open spec fn is_digit(c: char) -> bool {
    '0' <= c <= '9'
}

/// The number that a row of decimal digits stands for.
pub open spec fn decimal_value(digits: Seq<char>) -> int
    decreases digits.len(),
{
    if digits.len() == 0 {
        0
    } else {
        decimal_value(digits.drop_last()) * 10 + (digits.last() as int - '0' as int)
    }
}

/// `text` without a leading plus sign.
pub open spec fn without_plus(text: Seq<char>) -> Seq<char> {
    if text.len() > 0 && text[0] == '+' {
        text.drop_first()
    } else {
        text
    }
}

/// An optional plus sign, then at least one digit and nothing else, of a value below 2^32.
pub open spec fn u32_of_text(text: Seq<char>) -> Option<u32> {
    let digits = without_plus(text);
    if digits.len() > 0 && (forall|i: int| 0 <= i < digits.len() ==> is_digit(#[trigger] digits[i]))
        && decimal_value(digits) <= u32::MAX {
        Some(decimal_value(digits) as u32)
    } else {
        None
    }
}

/// `str::parse` for `u32`.
///
/// Trusted: it takes what `u32`'s `FromStr` documents, an optional plus sign followed by digits
/// only, and refuses a value that `u32` cannot hold.
#[verifier::external_body]
pub(crate) fn parse_u32(text: &str) -> (value: Option<u32>)
    ensures
        value == u32_of_text(text@),
{
    text.parse::<u32>().ok()
}

// ---------------------------------------------------------------------------
// Path names
// ---------------------------------------------------------------------------

/// What stands behind the last slash of `path`: all of it where there is no slash.
pub open spec fn last_segment(path: Seq<char>) -> Seq<char>
    decreases path.len(),
{
    if path.len() == 0 || path.last() == '/' {
        seq![]
    } else {
        last_segment(path.drop_last()).push(path.last())
    }
}

/// The final component of a slash-separated path: empty segments and `.` do not count, and a path
/// that ends in `..` has none.
pub open spec fn final_component(path: Seq<char>) -> Option<Seq<char>>
    decreases path.len(),
{
    let segment = last_segment(path);
    if segment.len() > 0 && segment != "."@ {
        if segment == ".."@ {
            None
        } else {
            Some(segment)
        }
    } else if segment.len() < path.len() {
        final_component(path.take(path.len() - segment.len() - 1))
    } else {
        None
    }
}

/// A path that every platform splits at its slashes alone: it holds no backslash and no colon, and
/// no double slash opens it.
pub open spec fn is_plain_path(path: Seq<char>) -> bool {
    &&& forall|i: int| 0 <= i < path.len() ==> #[trigger] path[i] != '\\' && path[i] != ':'
    &&& !(path.len() >= 2 && path[0] == '/' && path[1] == '/')
}

/// Whether `part` is a stretch of `whole`.
pub open spec fn is_part_of(part: Seq<char>, whole: Seq<char>) -> bool {
    exists|from: int|
        0 <= from <= from + part.len() <= whole.len() && #[trigger] whole.subrange(
            from,
            from + part.len(),
        ) == part
}

/// Whether `name` is what `Path::file_name` gives for `path` on the platform at hand.
pub uninterp spec fn names_file(path: Seq<char>, name: Option<Seq<char>>) -> bool;

/// `Path::file_name`.
///
/// Trusted: the name is the platform's for this path (`names_file`). On a path that every platform
/// splits alike it is the final component. On any other path the platform's separators and prefixes
/// decide where it begins, and it is only said that a name is a stretch of the path.
#[verifier::external_body]
pub(crate) fn file_name(path: &str) -> (name: Option<String>)
    ensures
        names_file(path@, payload::owned_text_of(name)),
        is_plain_path(path@) ==> payload::owned_text_of(name) == final_component(path@),
        name matches Some(text) ==> text@.len() > 0 && is_part_of(text@, path@),
{
    Path::new(path).file_name().map(|name| name.to_string_lossy().into_owned())
}

} // verus!
