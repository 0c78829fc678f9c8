//! Trimming of transcripts.

use vstd::prelude::*;
use vstd::string::*;

verus! {

/// Whether `c` counts as whitespace: the answer of `char::is_whitespace`.
pub uninterp spec fn is_white_space(c: char) -> bool;

/// Calls `char::is_whitespace`. Nothing is claimed beyond that the answer
/// depends on the character alone.
#[verifier::external_body]
fn char_is_whitespace(c: char) -> (out: bool)
    ensures
        out == is_white_space(c),
{
    c.is_whitespace()
}

/// `s` without the whitespace it starts with.
pub open spec fn trim_start(s: Seq<char>) -> Seq<char>
    decreases s.len(),
{
    if s.len() > 0 && is_white_space(s.first()) {
        trim_start(s.drop_first())
    } else {
        s
    }
}

/// `s` without the whitespace it ends with.
pub open spec fn trim_end(s: Seq<char>) -> Seq<char>
    decreases s.len(),
{
    if s.len() > 0 && is_white_space(s.last()) {
        trim_end(s.drop_last())
    } else {
        s
    }
}

/// `s` without the whitespace at either end.
pub open spec fn trimmed(s: Seq<char>) -> Seq<char> {
    trim_end(trim_start(s))
}

/// Whether `s` holds nothing but whitespace.
pub open spec fn is_blank(s: Seq<char>) -> bool {
    trimmed(s).len() == 0
}

/// Removes the whitespace at both ends of `s`.
pub fn trim(s: &str) -> (out: String)
    ensures
        out@ == trimmed(s@),
{
    let n: usize = s.unicode_len();
    let mut start: usize = 0;
    assert(s@.subrange(0, n as int) =~= s@);
    loop
        invariant
            start <= n,
            n == s@.len(),
            trim_start(s@) == trim_start(s@.subrange(start as int, n as int)),
        ensures
            start <= n,
            trim_start(s@) == s@.subrange(start as int, n as int),
        decreases n - start,
    {
        if start == n {
            break;
        }
        let c: char = s.get_char(start);
        if !char_is_whitespace(c) {
            break;
        }
        assert(s@.subrange(start as int, n as int).drop_first() =~= s@.subrange(
            start as int + 1,
            n as int,
        ));
        start += 1;
    }
    let mut end: usize = n;
    loop
        invariant
            start <= end <= n,
            n == s@.len(),
            trim_end(s@.subrange(start as int, n as int)) == trim_end(
                s@.subrange(start as int, end as int),
            ),
        ensures
            start <= end <= n,
            trim_end(s@.subrange(start as int, n as int)) == s@.subrange(
                start as int,
                end as int,
            ),
        decreases end - start,
    {
        if end == start {
            break;
        }
        let c: char = s.get_char(end - 1);
        if !char_is_whitespace(c) {
            break;
        }
        assert(s@.subrange(start as int, end as int).drop_last() =~= s@.subrange(
            start as int,
            end as int - 1,
        ));
        end -= 1;
    }
    String::from_str(s.substring_char(start, end))
}

} // verus!
