//! Character-level helpers on strings.

use vstd::prelude::*;
use vstd::std_specs::iter::IteratorSpec;

verus! {

/// A list of strings as mathematical values.
pub open spec fn text_views(texts: Seq<String>) -> Seq<Seq<char>> {
    texts.map_values(|text: String| text@)
}

/// The characters of `s`, in order.
pub fn chars_of(s: &str) -> (chars: Vec<char>)
    ensures
        chars@ == s@,
{
    let mut chars: Vec<char> = Vec::new();
    for c in it: s.chars()
        invariant
            chars@ == it.seq().take(it.index() as int),
            it.seq() == s@,
    {
        chars.push(c);
    }
    chars
}

/// Whether `text` holds `part` at position `at`.
pub fn holds_at(text: &Vec<char>, at: usize, part: &Vec<char>) -> (found: bool)
    requires
        at + part@.len() <= text@.len(),
    ensures
        found == (text@.subrange(at as int, at + part@.len()) == part@),
{
    let mut i: usize = 0;
    while i < part.len()
        invariant
            i <= part.len(),
            at + part.len() <= text.len(),
            text@.subrange(at as int, at + i) == part@.take(i as int),
        decreases part@.len() - i,
    {
        if text[at + i] != part[i] {
            assert(text@.subrange(at as int, at + part@.len())[i as int] != part@[i as int]);
            return false;
        }
        i += 1;
        assert(text@.subrange(at as int, at + i) == text@.subrange(at as int, at + i - 1).push(
            text@[at + i - 1],
        ));
        assert(part@.take(i as int) == part@.take(i - 1).push(part@[i - 1]));
    }
    assert(part@.take(i as int) == part@);
    true
}

/// Whether `text` begins with `part`.
pub fn starts_with(text: &Vec<char>, part: &Vec<char>) -> (found: bool)
    ensures
        found == part@.is_prefix_of(text@),
{
    part.len() <= text.len() && holds_at(text, 0, part)
}

/// Whether `text` ends with `part`.
pub fn ends_with(text: &Vec<char>, part: &Vec<char>) -> (found: bool)
    ensures
        found == part@.is_suffix_of(text@),
{
    part.len() <= text.len() && holds_at(text, text.len() - part.len(), part)
}

} // verus!
