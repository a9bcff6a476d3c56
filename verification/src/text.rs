//! Trailing white space, as `str::trim_end` removes it.

use vstd::prelude::*;
use crate::decimal::chars_of;

verus! {

/// The characters with the Unicode `White_Space` property, the set that
/// `char::is_whitespace` and `str::trim_end` go by.
pub open spec fn is_white_space(c: char) -> bool {
    ||| '\u{9}' <= c && c <= '\u{d}'
    ||| c == ' '
    ||| c == '\u{85}'
    ||| c == '\u{a0}'
    ||| c == '\u{1680}'
    ||| '\u{2000}' <= c && c <= '\u{200a}'
    ||| c == '\u{2028}'
    ||| c == '\u{2029}'
    ||| c == '\u{202f}'
    ||| c == '\u{205f}'
    ||| c == '\u{3000}'
}

/// `s` without its trailing white space.
pub open spec fn trimmed_end(s: Seq<char>) -> Seq<char>
    decreases s.len(),
{
    if s.len() > 0 && is_white_space(s.last()) {
        trimmed_end(s.drop_last())
    } else {
        s
    }
}

/// Whether `c` is white space, as `char::is_whitespace` decides.
pub fn white_space(c: char) -> (r: bool)
    ensures
        r == is_white_space(c),
{
    ('\u{9}' <= c && c <= '\u{d}') || c == ' ' || c == '\u{85}' || c == '\u{a0}' || c
        == '\u{1680}' || ('\u{2000}' <= c && c <= '\u{200a}') || c == '\u{2028}' || c
        == '\u{2029}' || c == '\u{202f}' || c == '\u{205f}' || c == '\u{3000}'
}

/// Dropping white space from the end of the first `k` characters of `s`,
/// once the characters after them are all white space, gives `trimmed_end(s)`.
proof fn lemma_trimmed_end_prefix(s: Seq<char>, k: int)
    requires
        0 <= k <= s.len(),
        forall|i: int| k <= i < s.len() ==> is_white_space(#[trigger] s[i]),
    ensures
        trimmed_end(s) == trimmed_end(s.take(k)),
    decreases s.len(),
{
    if k < s.len() {
        assert(s.drop_last().take(k) =~= s.take(k));
        lemma_trimmed_end_prefix(s.drop_last(), k);
    } else {
        assert(s.take(k) =~= s);
    }
}

/// `s` with its trailing white space removed, as `s.trim_end()` gives it.
pub fn trim_end(s: &str) -> (r: String)
    ensures
        r@ == trimmed_end(s@),
{
    let cs = chars_of(s);
    let mut k: usize = cs.len();
    while k > 0 && white_space(cs[k - 1])
        invariant
            k <= cs@.len(),
            forall|i: int| k <= i < cs@.len() ==> is_white_space(#[trigger] cs@[i]),
        decreases k,
    {
        k = k - 1;
    }
    proof {
        lemma_trimmed_end_prefix(cs@, k as int);
        let t = cs@.take(k as int);
        if k > 0 {
            assert(t.last() == cs@[k - 1]);
        }
    }
    String::from_str(s.substring_char(0, k))
}

} // verus!
