//! Words as vectors of characters, and as strings.

use vstd::prelude::*;
use vstd::std_specs::iter::IteratorSpec;

verus! {

/// `String::push` appends the character to the end of the string and leaves
/// what the string held before in place.
pub assume_specification[ String::push ](s: &mut String, ch: char)
    ensures
        final(s)@ == old(s)@.push(ch),
;

/// Whether `text` is, character for character, `word`.
pub fn spells(text: &Vec<char>, word: &str) -> (r: bool)
    ensures
        r == (text@ == word@),
{
    let mut rest = word.chars();
    let mut i: usize = 0;
    loop
        invariant
            i <= text.len(),
            rest.obeys_prophetic_iter_laws(),
            word@ == text@.take(i as int) + rest.remaining(),
        decreases text.len() - i,
    {
        match rest.next() {
            None => {
                assert(word@ =~= text@.take(i as int));
                assert(text@.take(text@.len() as int) =~= text@);
                return i == text.len();
            },
            Some(c) => {
                if i >= text.len() || text[i] != c {
                    return false;
                }
                i += 1;
            },
        }
    }
}

/// The string made of the characters of `text`, in their order.
pub fn string_of(text: &Vec<char>) -> (s: String)
    ensures
        s@ == text@,
{
    let mut s = String::new();
    let mut i: usize = 0;
    while i < text.len()
        invariant
            i <= text.len(),
            s@ == text@.take(i as int),
        decreases text.len() - i,
    {
        s.push(text[i]);
        i += 1;
        assert(text@.take(i as int) =~= text@.take(i - 1).push(text@[i - 1]));
    }
    assert(text@.take(text@.len() as int) =~= text@);
    s
}

} // verus!
