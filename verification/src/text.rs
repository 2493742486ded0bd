//! Character sequences: equality, joining with a separator, trimming.

use vstd::prelude::*;

verus! {

/// `str`'s `==` from the standard library: two string slices are equal
/// exactly when they hold the same characters in the same order.
#[verifier::external_body]
pub(crate) fn same_text(a: &str, b: &str) -> (same: bool)
    ensures
        same == (a@ == b@),
{
    a == b
}

/// The parts in order, with the separator between each two neighbours.
pub open spec fn joined(parts: Seq<Seq<char>>, separator: Seq<char>) -> Seq<char>
    decreases parts.len(),
{
    if parts.len() == 0 {
        Seq::empty()
    } else if parts.len() == 1 {
        parts[0]
    } else {
        joined(parts.drop_last(), separator) + separator + parts.last()
    }
}

/// Joining one part more: the first part stands alone, every later part
/// follows a separator.
pub proof fn lemma_joined_next(parts: Seq<Seq<char>>, separator: Seq<char>, n: int)
    requires
        0 <= n < parts.len(),
    ensures
        joined(parts.take(n + 1), separator) == if n == 0 {
            parts[0]
        } else {
            joined(parts.take(n), separator) + separator + parts[n]
        },
{
    assert(parts.take(n + 1).drop_last() =~= parts.take(n));
}

/// The text without its longest prefix made of `c` alone.
pub open spec fn without_leading(text: Seq<char>, c: char) -> Seq<char>
    decreases text.len(),
{
    if text.len() > 0 && text[0] == c {
        without_leading(text.drop_first(), c)
    } else {
        text
    }
}

/// The text without its longest suffix made of `c` alone.
pub open spec fn without_trailing(text: Seq<char>, c: char) -> Seq<char>
    decreases text.len(),
{
    if text.len() > 0 && text.last() == c {
        without_trailing(text.drop_last(), c)
    } else {
        text
    }
}

/// The text with every `c` at either end removed.
pub open spec fn trimmed(text: Seq<char>, c: char) -> Seq<char> {
    without_trailing(without_leading(text, c), c)
}

/// `str::trim_matches` from the standard library with a single character as
/// the pattern: the slice that is left once every leading and every
/// trailing occurrence of the character is removed.
#[verifier::external_body]
fn trim_char(text: &str, c: char) -> (rest: &str)
    ensures
        rest@ == trimmed(text@, c),
{
    text.trim_matches(c)
}

/// The text of a literal as written, without the double quotes and then
/// the single quotes around it.
pub open spec fn unquoted(text: Seq<char>) -> Seq<char> {
    trimmed(trimmed(text, '"'), '\'')
}

/// Removes the double quotes, then the single quotes, at both ends.
pub fn trim_quotes(text: &str) -> (rest: &str)
    ensures
        rest@ == unquoted(text@),
{
    trim_char(trim_char(text, '"'), '\'')
}

} // verus!
