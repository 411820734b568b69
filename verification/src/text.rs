//! Cleaning of received text payloads for display.
//!
//! Some senders wrap a shared text in `"…"\n`; the full payload is shown
//! with that wrapping removed, and the short preview is additionally
//! reduced to its first line with quotes and newlines trimmed from both
//! ends.

use vstd::prelude::*;

verus! {

/// The payload with one surrounding `"…"\n` wrapping removed, when it has
/// one.
pub open spec fn clean_text_chars(s: Seq<char>) -> Seq<char> {
    if s.len() >= 3 && s[0] == '"' && s[s.len() - 2] == '"' && s[s.len() - 1] == '\n' {
        s.subrange(1, s.len() - 2)
    } else {
        s
    }
}

/// Whether previews are trimmed at `c`: quotes and newlines.
pub open spec fn is_preview_trim_char(c: char) -> bool {
    c == '"' || c == '\n'
}

/// `s` with quotes and newlines removed from both ends.
pub open spec fn trim_chars(s: Seq<char>) -> Seq<char>
    decreases s.len(),
{
    if s.len() == 0 {
        s
    } else if is_preview_trim_char(s[0]) {
        trim_chars(s.drop_first())
    } else if is_preview_trim_char(s.last()) {
        trim_chars(s.drop_last())
    } else {
        s
    }
}

/// The prefix of `s` before its first newline (all of `s` when it has
/// none).
pub open spec fn first_line(s: Seq<char>) -> Seq<char>
    decreases s.len(),
{
    if s.len() == 0 {
        s
    } else if s[0] == '\n' {
        Seq::empty()
    } else {
        seq![s[0]].add(first_line(s.drop_first()))
    }
}

/// `s` without one trailing carriage return, as line splitting strips it.
pub open spec fn strip_cr(s: Seq<char>) -> Seq<char> {
    if s.len() > 0 && s.last() == '\r' {
        s.drop_last()
    } else {
        s
    }
}

/// The preview text: the payload unwrapped, trimmed, cut to its first
/// line, and trimmed again.
pub open spec fn clean_preview_chars(s: Seq<char>) -> Seq<char> {
    trim_chars(strip_cr(first_line(trim_chars(clean_text_chars(s)))))
}

/// The payload with one surrounding `"…"\n` wrapping removed, when it has
/// one.
pub fn clean_text_payload<'a>(s: &'a str) -> (r: &'a str)
    ensures
        r@ == clean_text_chars(s@),
{
    let n: usize = s.unicode_len();
    if n >= 3 {
        let first: char = s.get_char(0);
        let quote: char = s.get_char(n - 2);
        let newline: char = s.get_char(n - 1);
        if first == '"' && quote == '"' && newline == '\n' {
            return s.substring_char(1, n - 2);
        }
    }
    s
}

/// Whether previews are trimmed at `c`.
fn is_preview_trim(c: char) -> (r: bool)
    ensures
        r == is_preview_trim_char(c),
{
    c == '"' || c == '\n'
}

/// Trimming `s` equals cutting it to `[i, j)` when everything outside
/// `[i, j)` is trim characters and, for a non-empty cut, neither end of
/// the cut is one.
proof fn lemma_trim_chars_subrange(s: Seq<char>, i: int, j: int)
    requires
        0 <= i <= j <= s.len(),
        forall|k: int| 0 <= k < i ==> is_preview_trim_char(#[trigger] s[k]),
        forall|k: int| j <= k < s.len() ==> is_preview_trim_char(#[trigger] s[k]),
        i < j ==> !is_preview_trim_char(s[i]) && !is_preview_trim_char(s[j - 1]),
        i == j ==> i == s.len(),
    ensures
        trim_chars(s) == s.subrange(i, j),
    decreases s.len(),
{
    if s.len() == 0 {
        assert(s.subrange(0, 0) =~= s);
    } else if is_preview_trim_char(s[0]) {
        assert(i >= 1) by {
            if i == 0 {
                if i < j {
                    assert(!is_preview_trim_char(s[0]));
                } else {
                    assert(i == s.len());
                }
            }
        }
        let d = s.drop_first();
        lemma_trim_chars_subrange(d, i - 1, j - 1);
        assert(d.subrange(i - 1, j - 1) =~= s.subrange(i, j));
    } else if is_preview_trim_char(s.last()) {
        assert(j <= s.len() - 1) by {
            if j == s.len() {
                if i < j {
                    assert(!is_preview_trim_char(s[j - 1]));
                } else {
                    assert(is_preview_trim_char(s[0]));
                }
            }
        }
        let d = s.drop_last();
        lemma_trim_chars_subrange(d, i, j);
        assert(d.subrange(i, j) =~= s.subrange(i, j));
    } else {
        assert(i == 0);
        assert(j == s.len());
        assert(s.subrange(0, s.len() as int) =~= s);
    }
}

/// The first line of `s` is its prefix up to the first newline.
proof fn lemma_first_line_prefix(s: Seq<char>, k: int)
    requires
        0 <= k <= s.len(),
        forall|j: int| 0 <= j < k ==> #[trigger] s[j] != '\n',
        k < s.len() ==> s[k] == '\n',
    ensures
        first_line(s) == s.subrange(0, k),
    decreases s.len(),
{
    if k == 0 {
        assert(s.subrange(0, 0) =~= Seq::<char>::empty());
    } else {
        let d = s.drop_first();
        lemma_first_line_prefix(d, k - 1);
        assert(seq![s[0]].add(d.subrange(0, k - 1)) =~= s.subrange(0, k));
    }
}

/// `s` with quotes and newlines removed from both ends.
pub fn trim_quotes_newlines<'a>(s: &'a str) -> (r: &'a str)
    ensures
        r@ == trim_chars(s@),
{
    let n: usize = s.unicode_len();
    let mut start: usize = 0;
    while start < n && is_preview_trim(s.get_char(start))
        invariant
            0 <= start <= n,
            n == s@.len(),
            forall|k: int| 0 <= k < start ==> is_preview_trim_char(#[trigger] s@[k]),
        decreases n - start,
    {
        start = start + 1;
    }
    let mut end: usize = n;
    while end > start && is_preview_trim(s.get_char(end - 1))
        invariant
            start <= end <= n,
            n == s@.len(),
            forall|k: int| end <= k < n ==> is_preview_trim_char(#[trigger] s@[k]),
        decreases end,
    {
        end = end - 1;
    }
    proof {
        lemma_trim_chars_subrange(s@, start as int, end as int);
    }
    s.substring_char(start, end)
}

/// The short preview shown for a text payload: the payload unwrapped,
/// trimmed of quotes and newlines, cut to its first line, and trimmed
/// again.
pub fn clean_preview_text_payload<'a>(s: &'a str) -> (r: &'a str)
    ensures
        r@ == clean_preview_chars(s@),
{
    let unwrapped: &str = clean_text_payload(s);
    let trimmed: &str = trim_quotes_newlines(unwrapped);
    let n: usize = trimmed.unicode_len();
    let mut k: usize = 0;
    while k < n && trimmed.get_char(k) != '\n'
        invariant
            0 <= k <= n,
            n == trimmed@.len(),
            forall|j: int| 0 <= j < k ==> #[trigger] trimmed@[j] != '\n',
        decreases n - k,
    {
        k = k + 1;
    }
    proof {
        lemma_first_line_prefix(trimmed@, k as int);
    }
    let line: &str = trimmed.substring_char(0, k);
    let line_len: usize = line.unicode_len();
    let line_no_cr: &str = if line_len > 0 && line.get_char(line_len - 1) == '\r' {
        let cut: &str = line.substring_char(0, line_len - 1);
        proof {
            assert(cut@ =~= strip_cr(line@));
        }
        cut
    } else {
        line
    };
    trim_quotes_newlines(line_no_cr)
}

} // verus!
