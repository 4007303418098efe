//! Operations on texts that the standard library performs.

use vstd::prelude::*;

verus! {

/// Whether `char::is_whitespace` holds of a character.
pub uninterp spec fn char_is_whitespace(c: char) -> bool;

/// The characters below U+0080 that have the Unicode property `White_Space`:
/// the space, and the five from the tabulator to the carriage return.
pub open spec fn ascii_whitespace(c: char) -> bool {
    c == ' ' || c == '\t' || c == '\n' || c == '\u{b}' || c == '\u{c}' || c == '\r'
}

/// Whether a character stands below U+0080.
pub open spec fn below_u80(c: char) -> bool {
    c as u32 <= 0x7f
}

/// Calls `char::is_whitespace`, which tells whether the character has the
/// Unicode property `White_Space`. The contract gives that answer its name,
/// and says which characters below U+0080 have the property; of the others
/// it says no more than the name.
#[verifier::external_body]
pub(crate) fn is_whitespace(c: char) -> (white: bool)
    ensures
        white == char_is_whitespace(c),
        below_u80(c) ==> white == ascii_whitespace(c),
{
    c.is_whitespace()
}

/// Calls `String::push`, which appends one character to the end of the text.
#[verifier::external_body]
pub(crate) fn push_char(text: &mut String, c: char)
    ensures
        final(text)@ == old(text)@.push(c),
{
    text.push(c)
}

/// Calls `String::pop`, which removes the last character of the text and
/// returns it, or returns `None` and leaves the text alone where it is empty.
#[verifier::external_body]
pub(crate) fn pop_char(text: &mut String) -> (last: Option<char>)
    ensures
        match last {
            Some(c) => old(text)@.len() > 0 && c == old(text)@.last() && final(text)@ == old(
                text,
            )@.drop_last(),
            None => old(text)@.len() == 0 && final(text)@ == old(text)@,
        },
{
    text.pop()
}

} // verus!
