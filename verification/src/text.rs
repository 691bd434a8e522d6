//! Verified text helpers: splitting into lines, substring search, and a
//! lowercase form, shared by the search functions and the word counter.

use vstd::prelude::*;

verus! {

/// The index of the first newline at or after `start`, or `s.len()` when
/// there is none.
pub open spec fn next_nl(s: Seq<char>, start: int) -> int
    decreases s.len() - start,
{
    if start < 0 || start >= s.len() {
        s.len() as int
    } else if s[start] == '\n' {
        start
    } else {
        next_nl(s, start + 1)
    }
}

/// `next_nl` lands on the first newline at or after `start` (or the end).
pub proof fn lemma_next_nl(s: Seq<char>, start: int)
    requires
        0 <= start <= s.len(),
    ensures
        start <= next_nl(s, start) <= s.len(),
        next_nl(s, start) == s.len() || s[next_nl(s, start)] == '\n',
        forall|k: int| start <= k < next_nl(s, start) ==> s[k] != '\n',
    decreases s.len() - start,
{
    if start < s.len() && s[start] != '\n' {
        lemma_next_nl(s, start + 1);
    }
}

/// Drops one carriage return from the end of a line that was terminated by
/// a newline, so that lines split both plain and Windows line endings.
pub open spec fn strip_cr(l: Seq<char>) -> Seq<char> {
    if l.len() > 0 && l[l.len() - 1] == '\r' {
        l.drop_last()
    } else {
        l
    }
}

/// The lines of `s` from index `start` on: pieces split at `'\n'`, each with
/// a trailing `'\r'` removed, the final piece kept only when nonempty.
pub open spec fn lines_from(s: Seq<char>, start: int) -> Seq<Seq<char>>
    decreases s.len() - start,
    when 0 <= start
    via lines_from_decreases
{
    if start < 0 || start >= s.len() {
        Seq::empty()
    } else {
        let e = next_nl(s, start);
        if e >= s.len() {
            seq![s.subrange(start, s.len() as int)]
        } else {
            seq![strip_cr(s.subrange(start, e))] + lines_from(s, e + 1)
        }
    }
}

#[via_fn]
proof fn lines_from_decreases(s: Seq<char>, start: int) {
    if 0 <= start && start < s.len() {
        lemma_next_nl(s, start);
    }
}

/// The lines of a text: split at `'\n'`, a trailing `'\r'` stripped from
/// each line so ended, and no empty final line after a terminating newline.
pub open spec fn spec_lines(s: Seq<char>) -> Seq<Seq<char>> {
    lines_from(s, 0)
}

/// Splits a text into its lines.
pub fn split_lines<'a>(s: &'a str) -> (lines: Vec<&'a str>)
    ensures
        lines.deep_view() == spec_lines(s@),
{
    let n = s.unicode_len();
    let mut lines: Vec<&'a str> = Vec::new();
    let mut start: usize = 0;
    while start < n
        invariant
            n == s@.len(),
            start <= n,
            spec_lines(s@) == lines.deep_view() + lines_from(s@, start as int),
        decreases n - start,
    {
        let mut e: usize = start;
        while e < n && s.get_char(e) != '\n'
            invariant
                n == s@.len(),
                start <= e <= n,
                forall|k: int| start <= k < e ==> s@[k] != '\n',
            decreases n - e,
        {
            e += 1;
        }
        proof {
            lemma_next_nl(s@, start as int);
            assert(next_nl(s@, start as int) == e as int);
        }
        let ghost prev = lines.deep_view();
        if e < n {
            let stop = if e > start && s.get_char(e - 1) == '\r' {
                e - 1
            } else {
                e
            };
            let line = s.substring_char(start, stop);
            lines.push(line);
            proof {
                assert(line@ =~= strip_cr(s@.subrange(start as int, e as int)));
                assert(lines.deep_view() =~= prev.push(line@));
                assert(spec_lines(s@) =~= lines.deep_view() + lines_from(s@, e + 1));
            }
            start = e + 1;
        } else {
            let line = s.substring_char(start, n);
            lines.push(line);
            proof {
                assert(lines.deep_view() =~= prev.push(line@));
                assert(spec_lines(s@) =~= lines.deep_view() + lines_from(s@, n as int));
            }
            start = n;
        }
    }
    proof {
        assert(lines.deep_view() =~= lines.deep_view() + lines_from(s@, start as int));
    }
    lines
}

/// Whether `needle` occurs contiguously inside `hay`. The empty sequence
/// occurs in everything.
pub open spec fn spec_contains(hay: Seq<char>, needle: Seq<char>) -> bool {
    exists|i: int|
        0 <= i <= hay.len() - needle.len() && #[trigger] hay.subrange(i, i + needle.len() as int)
            == needle
}

/// Substring search: whether `needle` occurs inside `hay`.
pub fn str_contains(hay: &str, needle: &str) -> (found: bool)
    ensures
        found == spec_contains(hay@, needle@),
{
    let hn = hay.unicode_len();
    let nn = needle.unicode_len();
    if nn > hn {
        return false;
    }
    let mut i: usize = 0;
    while i <= hn - nn
        invariant
            nn <= hn,
            hn == hay@.len(),
            nn == needle@.len(),
            i <= hn - nn + 1,
            forall|k: int|
                0 <= k < i ==> #[trigger] hay@.subrange(k, k + nn as int) != needle@,
        decreases hn - nn + 1 - i,
    {
        let mut j: usize = 0;
        while j < nn && hay.get_char(i + j) == needle.get_char(j)
            invariant
                nn <= hn,
                hn == hay@.len(),
                nn == needle@.len(),
                i <= hn - nn,
                j <= nn,
                forall|k: int| 0 <= k < j ==> hay@[i + k] == needle@[k],
            decreases nn - j,
        {
            j += 1;
        }
        if j == nn {
            proof {
                assert(hay@.subrange(i as int, i + nn as int) =~= needle@);
            }
            return true;
        }
        proof {
            assert(hay@.subrange(i as int, i + nn as int)[j as int] == hay@[i + j]);
        }
        i += 1;
    }
    false
}

/// The lowercase form of a sequence of characters, as Rust's Unicode case
/// conversion produces it.
pub uninterp spec fn lower_of(s: Seq<char>) -> Seq<char>;

/// Relies on str::to_lowercase: the lowercase form of a string depends on
/// its characters alone.
#[verifier::external_body]
pub(crate) fn to_lowercase(s: &str) -> (r: String)
    ensures
        r@ == lower_of(s@),
{
    s.to_lowercase()
}

} // verus!

verus! {

/// The whitespace characters the word splitter recognises.
pub open spec fn is_ws(c: char) -> bool {
    c == ' ' || c == '\t' || c == '\n' || c == '\r'
}

/// The index of the first whitespace character at or after `start`, or
/// `s.len()` when there is none.
pub open spec fn next_ws(s: Seq<char>, start: int) -> int
    decreases s.len() - start,
{
    if start < 0 || start >= s.len() {
        s.len() as int
    } else if is_ws(s[start]) {
        start
    } else {
        next_ws(s, start + 1)
    }
}

/// `next_ws` lands on the first whitespace at or after `start` (or the end).
pub proof fn lemma_next_ws(s: Seq<char>, start: int)
    requires
        0 <= start <= s.len(),
    ensures
        start <= next_ws(s, start) <= s.len(),
        next_ws(s, start) == s.len() || is_ws(s[next_ws(s, start)]),
        forall|k: int| start <= k < next_ws(s, start) ==> !is_ws(s[k]),
    decreases s.len() - start,
{
    if start < s.len() && !is_ws(s[start]) {
        lemma_next_ws(s, start + 1);
    }
}

/// The words of `s` from index `start` on: the maximal runs of
/// non-whitespace characters, in order.
pub open spec fn words_from(s: Seq<char>, start: int) -> Seq<Seq<char>>
    decreases s.len() - start,
    when 0 <= start
    via words_from_decreases
{
    if start < 0 || start >= s.len() {
        Seq::empty()
    } else if is_ws(s[start]) {
        words_from(s, start + 1)
    } else {
        let e = next_ws(s, start);
        seq![s.subrange(start, e)] + words_from(s, e)
    }
}

#[via_fn]
proof fn words_from_decreases(s: Seq<char>, start: int) {
    if 0 <= start && start < s.len() && !is_ws(s[start]) {
        lemma_next_ws(s, start);
    }
}

/// The words of a text: its maximal whitespace-free runs, in order.
pub open spec fn spec_words(s: Seq<char>) -> Seq<Seq<char>> {
    words_from(s, 0)
}

/// Whether a character counts as whitespace to the word splitter.
fn is_ws_char(c: char) -> (ws: bool)
    ensures
        ws == is_ws(c),
{
    c == ' ' || c == '\t' || c == '\n' || c == '\r'
}

/// Splits a text into its words.
pub fn split_words<'a>(s: &'a str) -> (words: Vec<&'a str>)
    ensures
        words.deep_view() == spec_words(s@),
{
    let n = s.unicode_len();
    let mut words: Vec<&'a str> = Vec::new();
    let mut i: usize = 0;
    while i < n
        invariant
            n == s@.len(),
            i <= n,
            spec_words(s@) == words.deep_view() + words_from(s@, i as int),
        decreases n - i,
    {
        if is_ws_char(s.get_char(i)) {
            i += 1;
        } else {
            let mut e: usize = i + 1;
            while e < n && !is_ws_char(s.get_char(e))
                invariant
                    n == s@.len(),
                    i < e <= n,
                    forall|k: int| i <= k < e ==> !is_ws(s@[k]),
                decreases n - e,
            {
                e += 1;
            }
            proof {
                lemma_next_ws(s@, i as int);
                assert(next_ws(s@, i as int) == e as int);
            }
            let ghost prev = words.deep_view();
            let word = s.substring_char(i, e);
            words.push(word);
            proof {
                assert(words.deep_view() =~= prev.push(word@));
                assert(spec_words(s@) =~= words.deep_view() + words_from(s@, e as int));
            }
            i = e;
        }
    }
    proof {
        assert(words.deep_view() =~= words.deep_view() + words_from(s@, i as int));
    }
    words
}

/// Whether two string slices hold the same characters.
pub fn str_eq(a: &str, b: &str) -> (same: bool)
    ensures
        same == (a@ == b@),
{
    let an = a.unicode_len();
    let bn = b.unicode_len();
    if an != bn {
        return false;
    }
    let mut i: usize = 0;
    while i < an && a.get_char(i) == b.get_char(i)
        invariant
            an == a@.len(),
            an == b@.len(),
            i <= an,
            forall|k: int| 0 <= k < i ==> a@[k] == b@[k],
        decreases an - i,
    {
        i += 1;
    }
    if i == an {
        proof {
            assert(a@ =~= b@);
        }
        true
    } else {
        false
    }
}

/// How often the word `w` occurs in the word sequence `ws`.
pub open spec fn occ_of(ws: Seq<Seq<char>>, w: Seq<char>) -> nat
    decreases ws.len(),
{
    if ws.len() == 0 {
        0
    } else {
        occ_of(ws.drop_last(), w) + (if ws.last() == w {
            1nat
        } else {
            0nat
        })
    }
}

/// Appending one word raises its own count by one and leaves every other
/// count alone.
pub proof fn lemma_occ_push(ws: Seq<Seq<char>>, x: Seq<char>, w: Seq<char>)
    ensures
        occ_of(ws.push(x), w) == occ_of(ws, w) + (if x == w {
            1nat
        } else {
            0nat
        }),
{
    assert(ws.push(x).drop_last() =~= ws);
    assert(ws.push(x).last() == x);
}

/// A word that does not occur has count zero.
pub proof fn lemma_occ_absent(ws: Seq<Seq<char>>, w: Seq<char>)
    requires
        !ws.contains(w),
    ensures
        occ_of(ws, w) == 0,
    decreases ws.len(),
{
    if ws.len() > 0 {
        assert forall|j: int| 0 <= j < ws.drop_last().len() implies #[trigger] ws.drop_last()[j]
            != w by {
            assert(ws[j] == ws.drop_last()[j]);
        }
        assert(!ws.drop_last().contains(w));
        lemma_occ_absent(ws.drop_last(), w);
    }
}

/// No word occurs more often than there are words.
pub proof fn lemma_occ_le_len(ws: Seq<Seq<char>>, w: Seq<char>)
    ensures
        occ_of(ws, w) <= ws.len(),
    decreases ws.len(),
{
    if ws.len() > 0 {
        lemma_occ_le_len(ws.drop_last(), w);
    }
}

/// Counts how often each word occurs in a text. Every word of the text has
/// exactly one entry, carrying the exact number of occurrences; no entry
/// speaks of a word the text does not hold. The entries' order is not part
/// of the contract: a tally is a mapping, not a sequence.
pub fn counting_words(text: &str) -> (counts: Vec<(String, usize)>)
    ensures
        forall|i: int, j: int|
            0 <= i < j < counts@.len() ==> counts@[i].0@ != counts@[j].0@,
        forall|i: int|
            0 <= i < counts@.len() ==> #[trigger] counts@[i].1 == occ_of(
                spec_words(text@),
                counts@[i].0@,
            ),
        forall|i: int| 0 <= i < counts@.len() ==> spec_words(text@).contains(#[trigger] counts@[i].0@),
        forall|w: Seq<char>|
            spec_words(text@).contains(w) ==> exists|i: int|
                0 <= i < counts@.len() && #[trigger] counts@[i].0@ == w,
{
    let words = split_words(text);
    let ghost ws = words.deep_view();
    let mut counts: Vec<(String, usize)> = Vec::new();
    let n = words.len();
    let mut k: usize = 0;
    while k < n
        invariant
            n == words@.len(),
            k <= n,
            ws == words.deep_view(),
            forall|i: int, j: int|
                0 <= i < j < counts@.len() ==> counts@[i].0@ != counts@[j].0@,
            forall|i: int|
                0 <= i < counts@.len() ==> #[trigger] counts@[i].1 == occ_of(
                    ws.take(k as int),
                    counts@[i].0@,
                ),
            forall|i: int| 0 <= i < counts@.len() ==> ws.take(k as int).contains(#[trigger] counts@[i].0@),
            forall|w: Seq<char>|
                ws.take(k as int).contains(w) ==> exists|i: int|
                    0 <= i < counts@.len() && #[trigger] counts@[i].0@ == w,
        decreases n - k,
    {
        let word = words[k];
        proof {
            assert(word@ == ws[k as int]);
        }
        let m = counts.len();
        let mut idx: usize = 0;
        let mut found = false;
        while idx < m && !found
            invariant
                m == counts@.len(),
                idx <= m,
                found ==> idx < m && counts@[idx as int].0@ == word@,
                !found ==> forall|j: int| 0 <= j < idx ==> counts@[j].0@ != word@,
            decreases m - idx + (if found { 0int } else { 1int }),
        {
            if str_eq(counts[idx].0.as_str(), word) {
                found = true;
            } else {
                idx += 1;
            }
        }
        let ghost prev = counts@;
        if found {
            proof {
                lemma_occ_le_len(ws.take(k as int), prev[idx as int].0@);
            }
            let entry = counts.remove(idx);
            counts.insert(idx, (entry.0, entry.1 + 1));
            proof {
                assert(counts@ =~= prev.update(
                    idx as int,
                    (prev[idx as int].0, (prev[idx as int].1 + 1) as usize),
                ));
                assert(forall|i: int| 0 <= i < prev.len() ==> #[trigger] counts@[i].0 == prev[i].0);
            }
        } else {
            counts.push((String::from_str(word), 1));
            proof {
                assert(counts@.len() == prev.len() + 1);
                assert(counts@[prev.len() as int].0@ == word@);
                assert(counts@[prev.len() as int].1 == 1);
                assert(forall|j: int| 0 <= j < prev.len() ==> counts@[j] == prev[j]);
                assert(!ws.take(k as int).contains(word@));
                lemma_occ_absent(ws.take(k as int), word@);
            }
        }
        proof {
            assert(ws.take(k + 1) =~= ws.take(k as int).push(ws[k as int]));
            assert forall|i: int| 0 <= i < counts@.len() implies #[trigger] counts@[i].1 == occ_of(
                ws.take(k + 1),
                counts@[i].0@,
            ) by {
                lemma_occ_push(ws.take(k as int), ws[k as int], counts@[i].0@);
            }
            assert forall|i: int| 0 <= i < counts@.len() implies ws.take(k + 1).contains(
                #[trigger] counts@[i].0@,
            ) by {
                if i == idx as int && !prev.contains(counts@[i]) {
                    assert(ws.take(k + 1)[k as int] == counts@[i].0@);
                } else {
                    if ws.take(k as int).contains(counts@[i].0@) {
                        let j = choose|j: int|
                            0 <= j < ws.take(k as int).len() && ws.take(k as int)[j] == counts@[i].0@;
                        assert(ws.take(k + 1)[j] == counts@[i].0@);
                    } else {
                        assert(counts@[i].0@ == word@);
                        assert(ws.take(k + 1)[k as int] == counts@[i].0@);
                    }
                }
            }
            assert forall|w: Seq<char>| #[trigger] ws.take(k + 1).contains(w) implies exists|i: int|
                0 <= i < counts@.len() && #[trigger] counts@[i].0@ == w by {
                let t1 = ws.take(k + 1);
                let j = choose|j: int| 0 <= j < t1.len() && t1[j] == w;
                if j < k as int {
                    assert(ws.take(k as int)[j] == w);
                    assert(ws.take(k as int).contains(w));
                    let i0 = choose|i: int| 0 <= i < prev.len() && #[trigger] prev[i].0@ == w;
                    assert(counts@[i0].0@ == w);
                } else {
                    assert(w == ws[k as int]);
                    assert(counts@[idx as int].0@ == w);
                }
            }
        }
        k += 1;
    }
    proof {
        assert(ws.take(n as int) =~= ws);
    }
    counts
}

} // verus!
