//! Character-level helpers shared by the parsers of this crate.

use vstd::prelude::*;

verus! {

/// The lower-case letter of an ASCII capital; every other character stands
/// for itself.
pub open spec fn ascii_lower(c: char) -> char {
    if 'A' <= c && c <= 'Z' {
        ((c as u8 + 32) as u8) as char
    } else {
        c
    }
}

/// `text` with every ASCII capital replaced by its lower-case letter.
pub open spec fn ascii_lowered(text: Seq<char>) -> Seq<char> {
    Seq::new(text.len(), |i: int| ascii_lower(text[i]))
}

/// Lower-cases one ASCII capital and leaves any other character alone.
pub fn to_ascii_lower(c: char) -> (lowered: char)
    ensures
        lowered == ascii_lower(c),
{
    if 'A' <= c && c <= 'Z' {
        let code: u8 = c as u8;
        (code + 32) as char
    } else {
        c
    }
}

/// The characters of `text`, in order.
pub fn chars_of(text: &str) -> (chars: Vec<char>)
    ensures
        chars@ == text@,
{
    let mut chars: Vec<char> = Vec::new();
    for c in it: text.chars()
        invariant
            it.seq() == text@,
            chars@ == text@.take(it.index() as int),
    {
        chars.push(c);
    }
    chars
}

/// Whether `chars[start..end]` spells `word` once its ASCII capitals are
/// lower-cased.
pub fn spells_ignoring_case(chars: &Vec<char>, start: usize, end: usize, word: &Vec<char>) -> (same: bool)
    requires
        start <= end <= chars.len(),
    ensures
        same == (ascii_lowered(chars@.subrange(start as int, end as int)) == word@),
{
    let ghost part = chars@.subrange(start as int, end as int);
    if end - start != word.len() {
        assert(ascii_lowered(part).len() != word@.len());
        return false;
    }
    let mut i: usize = 0;
    while i < word.len()
        invariant
            start <= end <= chars.len(),
            end - start == word.len(),
            i <= word.len(),
            part == chars@.subrange(start as int, end as int),
            forall|j: int| 0 <= j < i ==> ascii_lower(#[trigger] part[j]) == word@[j],
        decreases word.len() - i,
    {
        assert(part[i as int] == chars@[start + i]);
        if to_ascii_lower(chars[start + i]) != word[i] {
            assert(ascii_lowered(part)[i as int] != word@[i as int]);
            return false;
        }
        i += 1;
    }
    assert(ascii_lowered(part) =~= word@);
    true
}

/// Whether the whole of `chars` spells `word` once its ASCII capitals are
/// lower-cased.
pub fn lowered_is(chars: &Vec<char>, word: &Vec<char>) -> (same: bool)
    ensures
        same == (ascii_lowered(chars@) == word@),
{
    assert(chars@.subrange(0, chars@.len() as int) =~= chars@);
    spells_ignoring_case(chars, 0, chars.len(), word)
}

} // verus!
