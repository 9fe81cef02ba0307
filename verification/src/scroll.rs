//! Which computed `overflow` values make an element a scroll container.
//!
//! During a drag the bindings walk the pointer's ancestors looking for the
//! innermost scroll container that can still scroll toward the pointer's
//! edge; an ancestor qualifies when one of its computed `overflow-x` /
//! `overflow-y` values, trimmed of white space, is `auto`, `scroll` or
//! `overlay`.
use vstd::prelude::*;

use crate::sensor::same_text;

verus! {

/// `c` has the Unicode `White_Space` property.
pub open spec fn is_white_space(c: char) -> bool {
    let u: u32 = c as u32;
    ||| 0x9 <= u <= 0xD
    ||| u == 0x20
    ||| u == 0x85
    ||| u == 0xA0
    ||| u == 0x1680
    ||| 0x2000 <= u <= 0x200A
    ||| u == 0x2028
    ||| u == 0x2029
    ||| u == 0x202F
    ||| u == 0x205F
    ||| u == 0x3000
}

/// `s` without its leading white space.
pub open spec fn trim_start(s: Seq<char>) -> Seq<char>
    decreases s.len(),
{
    if s.len() > 0 && is_white_space(s[0]) {
        trim_start(s.drop_first())
    } else {
        s
    }
}

/// `s` without its trailing white space.
pub open spec fn trim_end(s: Seq<char>) -> Seq<char>
    decreases s.len(),
{
    if s.len() > 0 && is_white_space(s.last()) {
        trim_end(s.drop_last())
    } else {
        s
    }
}

/// `s` without leading and trailing white space.
pub open spec fn trimmed(s: Seq<char>) -> Seq<char> {
    trim_end(trim_start(s))
}

/// A computed `overflow` value that makes an element scroll its content.
pub open spec fn is_scroll_overflow(value: Seq<char>) -> bool {
    let t = trimmed(value);
    t == "auto"@ || t == "scroll"@ || t == "overlay"@
}

/// `c` has the Unicode `White_Space` property.
fn is_white(c: char) -> (r: bool)
    ensures
        r == is_white_space(c),
{
    let u: u32 = c as u32;
    (0x9 <= u && u <= 0xD) || u == 0x20 || u == 0x85 || u == 0xA0 || u == 0x1680 || (0x2000 <= u
        && u <= 0x200A) || u == 0x2028 || u == 0x2029 || u == 0x202F || u == 0x205F || u == 0x3000
}

/// Whether a computed `overflow-x` / `overflow-y` value makes the element a
/// scroll container: after trimming white space it is `auto`, `scroll` or
/// `overlay`.
pub fn is_scroll_value(v: &str) -> (r: bool)
    ensures
        r == is_scroll_overflow(v@),
{
    let n: usize = v.unicode_len();
    let ghost s = v@;
    let mut start: usize = 0;
    assert(s.subrange(0, n as int) =~= s);
    while start < n && is_white(v.get_char(start))
        invariant
            s == v@,
            n == s.len(),
            start <= n,
            trim_start(s) == trim_start(s.subrange(start as int, n as int)),
        decreases n - start,
    {
        proof {
            let cur = s.subrange(start as int, n as int);
            assert(cur[0] == s[start as int]);
            assert(is_white_space(cur[0]));
            assert(cur.drop_first() =~= s.subrange(start + 1, n as int));
        }
        start = start + 1;
    }
    proof {
        let rest = s.subrange(start as int, n as int);
        assert(trim_start(rest) == rest);
    }
    let mut end: usize = n;
    while end > start && is_white(v.get_char(end - 1))
        invariant
            s == v@,
            n == s.len(),
            start <= end <= n,
            trim_end(s.subrange(start as int, n as int)) == trim_end(s.subrange(start as int, end as int)),
        decreases end - start,
    {
        proof {
            let cur = s.subrange(start as int, end as int);
            assert(cur.drop_last() =~= s.subrange(start as int, end - 1));
            assert(cur.last() == s[end - 1]);
            assert(is_white_space(cur.last()));
        }
        end = end - 1;
    }
    proof {
        let rest = s.subrange(start as int, end as int);
        if rest.len() > 0 {
            assert(rest.last() == s[end - 1]);
        }
        assert(trim_end(rest) == rest);
    }
    let t = v.substring_char(start, end);
    same_text(t, "auto") || same_text(t, "scroll") || same_text(t, "overlay")
}

} // verus!
