//! Scanning a line of ASCII text from left to right.

use vstd::prelude::*;
use vstd::string::is_ascii_spec_bytes;
use vstd::utf8::is_ascii_chars;
use crate::text::{digit_value, is_digit, numeral_value};

verus! {

/// Where the digits that start at `from` end: the first index at or after
/// `from` that holds no digit, or the length of `s`.
pub open spec fn digit_run(s: Seq<char>, from: int) -> int
    decreases s.len() - from,
{
    if 0 <= from < s.len() && is_digit(s[from]) {
        digit_run(s, from + 1)
    } else {
        from
    }
}

/// A stretch of digits that is followed by no digit is the whole run.
pub proof fn lemma_digit_run_is(s: Seq<char>, from: int, end: int)
    requires
        0 <= from <= end <= s.len(),
        forall|k: int| from <= k < end ==> is_digit(#[trigger] s[k]),
        end == s.len() || !is_digit(s[end]),
    ensures
        digit_run(s, from) == end,
    decreases end - from,
{
    if from < end {
        lemma_digit_run_is(s, from + 1, end);
    }
}

/// Every index within a run of digits holds a digit, and the run ends
/// within the text.
pub proof fn lemma_digits_in_run(s: Seq<char>, from: int)
    requires
        0 <= from <= s.len(),
    ensures
        from <= digit_run(s, from) <= s.len(),
        forall|k: int| from <= k < digit_run(s, from) ==> is_digit(#[trigger] s[k]),
    decreases s.len() - from,
{
    if from < s.len() && is_digit(s[from]) {
        lemma_digits_in_run(s, from + 1);
    }
}

/// Whether `word` stands in `line` at index `from`.
pub fn matches_at(line: &str, from: usize, word: &str) -> (found: bool)
    requires
        line.is_ascii(),
        word.is_ascii(),
        from <= line@.len(),
    ensures
        found == (from + word@.len() <= line@.len() && line@.subrange(
            from as int,
            from + word@.len(),
        ) == word@),
{
    let text: &[u8] = line.as_bytes();
    let pattern: &[u8] = word.as_bytes();
    proof {
        is_ascii_spec_bytes(line);
        is_ascii_spec_bytes(word);
    }
    let n: usize = text.len();
    let w: usize = pattern.len();
    if w > n - from {
        return false;
    }
    let mut k: usize = 0;
    while k < w
        invariant
            is_ascii_chars(line@),
            is_ascii_chars(word@),
            text@ == Seq::new(line@.len(), |i: int| line@[i] as u8),
            pattern@ == Seq::new(word@.len(), |i: int| word@[i] as u8),
            n == line@.len(),
            w == word@.len(),
            from + w <= n,
            k <= w,
            forall|j: int| 0 <= j < k ==> line@[from + j] == word@[j],
        decreases w - k,
    {
        if text[from + k] != pattern[k] {
            return false;
        }
        k += 1;
    }
    assert(line@.subrange(from as int, from + w) =~= word@);
    true
}

/// Whether `word` is all that stands in `line` from index `from` on.
pub fn rest_is(line: &str, from: usize, word: &str) -> (found: bool)
    requires
        line.is_ascii(),
        word.is_ascii(),
        from <= line@.len(),
    ensures
        found == (line@.subrange(from as int, line@.len() as int) == word@),
{
    let text: &[u8] = line.as_bytes();
    let pattern: &[u8] = word.as_bytes();
    proof {
        is_ascii_spec_bytes(line);
        is_ascii_spec_bytes(word);
    }
    text.len() - from == pattern.len() && matches_at(line, from, word)
}

/// Reads the digits of `line` that start at `from`: where they end, and the
/// number they write unless it is too large for a `usize`.
pub fn scan_numeral(line: &str, from: usize) -> (scan: (usize, Option<usize>))
    requires
        line.is_ascii(),
        from <= line@.len(),
    ensures
        scan.0 == digit_run(line@, from as int),
        from <= scan.0 <= line@.len(),
        forall|k: int| from <= k < scan.0 ==> is_digit(#[trigger] line@[k]),
        match scan.1 {
            Some(v) => v == numeral_value(line@.subrange(from as int, scan.0 as int)),
            None => numeral_value(line@.subrange(from as int, scan.0 as int)) > usize::MAX,
        },
{
    let text: &[u8] = line.as_bytes();
    proof {
        is_ascii_spec_bytes(line);
    }
    let n: usize = text.len();
    let mut i: usize = from;
    let mut value: Option<usize> = Some(0);
    while i < n && is_digit_byte(text[i])
        invariant
            is_ascii_chars(line@),
            text@ == Seq::new(line@.len(), |i: int| line@[i] as u8),
            n == line@.len(),
            from <= i <= n,
            forall|k: int| from <= k < i ==> is_digit(#[trigger] line@[k]),
            digit_run(line@, from as int) == digit_run(line@, i as int),
            match value {
                Some(v) => v == numeral_value(line@.subrange(from as int, i as int)),
                None => numeral_value(line@.subrange(from as int, i as int)) > usize::MAX,
            },
        decreases n - i,
    {
        let digit: usize = (text[i] - ('0' as u8)) as usize;
        assert(line@.subrange(from as int, i + 1).drop_last() =~= line@.subrange(
            from as int,
            i as int,
        ));
        value = match value {
            Some(v) => match v.checked_mul(10) {
                Some(tens) => tens.checked_add(digit),
                None => None,
            },
            None => None,
        };
        i += 1;
    }
    (i, value)
}

/// Whether the byte is the code of a digit.
fn is_digit_byte(b: u8) -> (digit: bool)
    ensures
        digit == (('0' as u8) <= b <= ('9' as u8)),
{
    ('0' as u8) <= b && b <= ('9' as u8)
}

} // verus!
