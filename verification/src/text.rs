//! Trimming of submitted text and small string-building helpers.

use vstd::prelude::*;
use vstd::string::*;

verus! {

/// Blank characters for the purpose of trimming a submitted name: the
/// ASCII whitespace that chat clients commonly send around a line.
pub open spec fn is_space(c: char) -> bool {
    c == ' ' || c == '\t' || c == '\n' || c == '\r'
}

/// Index of the first non-blank character at or after `i`
/// (`s.len()` when everything from `i` on is blank).
pub open spec fn first_non_space(s: Seq<char>, i: int) -> int
    decreases s.len() - i
        when 0 <= i <= s.len()
{
    if i < s.len() && is_space(s[i]) {
        first_non_space(s, i + 1)
    } else {
        i
    }
}

/// End of the text once trailing blanks before `j` are dropped, never
/// moving below `lo`.
pub open spec fn last_non_space_end(s: Seq<char>, j: int, lo: int) -> int
    decreases j - lo
        when 0 <= lo <= j <= s.len()
{
    if j > lo && is_space(s[j - 1]) {
        last_non_space_end(s, j - 1, lo)
    } else {
        j
    }
}

/// The text with leading and trailing blanks removed.
pub open spec fn trimmed(s: Seq<char>) -> Seq<char> {
    let lo = first_non_space(s, 0);
    let hi = last_non_space_end(s, s.len() as int, lo);
    s.subrange(lo, hi)
}

/// The left scan stays within bounds, skips only blanks, and stops only
/// at the end or at a non-blank character.
pub proof fn lemma_first_non_space_props(s: Seq<char>, i: int)
    requires
        0 <= i <= s.len(),
    ensures
        i <= first_non_space(s, i) <= s.len(),
        forall|j: int| i <= j < first_non_space(s, i) ==> is_space(s[j]),
        first_non_space(s, i) < s.len() ==> !is_space(s[first_non_space(s, i)]),
    decreases s.len() - i,
{
    if i < s.len() && is_space(s[i]) {
        lemma_first_non_space_props(s, i + 1);
    }
}

/// The right scan stays within bounds, drops only blanks, and stops only
/// at `lo` or just after a non-blank character.
pub proof fn lemma_last_non_space_end_props(s: Seq<char>, j: int, lo: int)
    requires
        0 <= lo <= j <= s.len(),
    ensures
        lo <= last_non_space_end(s, j, lo) <= j,
        forall|k: int| last_non_space_end(s, j, lo) <= k < j ==> is_space(s[k]),
        last_non_space_end(s, j, lo) > lo ==> !is_space(s[last_non_space_end(s, j, lo) - 1]),
    decreases j - lo,
{
    if j > lo && is_space(s[j - 1]) {
        lemma_last_non_space_end_props(s, j - 1, lo);
    }
}

/// Decides `is_space` on a concrete character.
pub fn is_space_char(c: char) -> (r: bool)
    ensures
        r == is_space(c),
{
    c == ' ' || c == '\t' || c == '\n' || c == '\r'
}

/// Returns the input with leading and trailing blanks removed.
pub fn trim_text(s: &str) -> (r: String)
    ensures
        r@ == trimmed(s@),
{
    let n = s.unicode_len();
    let mut lo: usize = 0;
    while lo < n && is_space_char(s.get_char(lo))
        invariant
            0 <= lo <= n == s@.len(),
            first_non_space(s@, 0) == first_non_space(s@, lo as int),
        decreases n - lo,
    {
        lo = lo + 1;
    }
    assert(first_non_space(s@, 0) == lo as int);
    let mut hi: usize = n;
    while hi > lo && is_space_char(s.get_char(hi - 1))
        invariant
            lo <= hi <= n == s@.len(),
            first_non_space(s@, 0) == lo as int,
            last_non_space_end(s@, n as int, lo as int) == last_non_space_end(
                s@,
                hi as int,
                lo as int,
            ),
        decreases hi,
    {
        hi = hi - 1;
    }
    assert(last_non_space_end(s@, n as int, lo as int) == hi as int);
    let out = s.substring_char(lo, hi);
    out.to_owned()
}

/// Relies on `String::push`: appends exactly the given character to the
/// end of the string.
#[verifier::external_body]
pub fn push_char(s: &mut String, c: char)
    ensures
        final(s)@ == old(s)@ + seq![c],
{
    s.push(c)
}

/// Concatenation of two pieces of text.
pub fn concat2(a: &str, b: &str) -> (r: String)
    ensures
        r@ == a@ + b@,
{
    let mut r = a.to_owned();
    r.append(b);
    r
}

/// Concatenation of three pieces of text.
pub fn concat3(a: &str, b: &str, c: &str) -> (r: String)
    ensures
        r@ == a@ + b@ + c@,
{
    let mut r = a.to_owned();
    r.append(b);
    r.append(c);
    r
}

} // verus!
