//! Finding the first word of a text, and growing a borrowed string.

use vstd::prelude::*;
use vstd::string::StringExecFns;
use vstd::utf8::encode_utf8;

verus! {

/// The index of the first space in `s` at or after `start`, or `s.len()`
/// when there is none.
pub open spec fn next_space(s: Seq<char>, start: int) -> int
    decreases s.len() - start,
{
    if start < 0 || start >= s.len() {
        s.len() as int
    } else if s[start] == ' ' {
        start
    } else {
        next_space(s, start + 1)
    }
}

/// `next_space` lands on the first space at or after `start` (or the end).
pub proof fn lemma_next_space(s: Seq<char>, start: int)
    requires
        0 <= start <= s.len(),
    ensures
        start <= next_space(s, start) <= s.len(),
        next_space(s, start) == s.len() || s[next_space(s, start)] == ' ',
        forall|k: int| start <= k < next_space(s, start) ==> s[k] != ' ',
    decreases s.len() - start,
{
    if start < s.len() && s[start] != ' ' {
        lemma_next_space(s, start + 1);
    }
}

/// The first word of a text: everything before the first space, or the
/// whole text when it holds no space.
pub open spec fn spec_first_word(s: Seq<char>) -> Seq<char> {
    s.subrange(0, next_space(s, 0))
}

/// Returns the first word of an owned string.
pub fn first_word(s: &String) -> (word: &str)
    ensures
        word@ == spec_first_word(s@),
{
    first_word_literal_string(s.as_str())
}

/// Returns the first word of a string slice.
pub fn first_word_literal_string(s: &str) -> (word: &str)
    ensures
        word@ == spec_first_word(s@),
{
    let n = s.unicode_len();
    let mut i: usize = 0;
    while i < n && s.get_char(i) != ' '
        invariant
            n == s@.len(),
            i <= n,
            forall|k: int| 0 <= k < i ==> s@[k] != ' ',
        decreases n - i,
    {
        i += 1;
    }
    proof {
        lemma_next_space(s@, 0);
        assert(next_space(s@, 0) == i as int);
    }
    s.substring_char(0, i)
}

/// Appends an exclamation mark to a borrowed string and reports the new
/// length in bytes.
pub fn alters_using_reference(s: &mut String) -> (len: usize)
    ensures
        final(s)@ == old(s)@ + "!"@,
        len == encode_utf8(final(s)@).len() as usize,
{
    s.append("!");
    s.as_str().len()
}

} // verus!
