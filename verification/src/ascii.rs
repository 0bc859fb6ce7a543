//! Case-insensitive comparison of header values.
//!
//! Role headers carry short ASCII tokens such as `service` or `user`, matched
//! case-insensitively. Folding is ASCII-only: `'A'..='Z'` pair with
//! `'a'..='z'`, every other character only matches itself.

use vstd::prelude::*;

verus! {

/// Two characters are equal up to ASCII case: either identical, or an
/// upper-case ASCII letter paired with its lower-case form.
pub open spec fn eq_char_ci(a: char, b: char) -> bool {
    ||| a == b
    ||| (65 <= a as u32 <= 90 && a as u32 + 32 == b as u32)
    ||| (65 <= b as u32 <= 90 && b as u32 + 32 == a as u32)
}

/// Two character sequences are equal up to ASCII case.
pub open spec fn seq_eq_ci(s: Seq<char>, t: Seq<char>) -> bool {
    s.len() == t.len() && forall|i: int| 0 <= i < s.len() ==> eq_char_ci(s[i], t[i])
}

/// Decides [`eq_char_ci`].
pub fn char_eq_ci(a: char, b: char) -> (r: bool)
    ensures
        r == eq_char_ci(a, b),
{
    let x = a as u32;
    let y = b as u32;
    proof {
        vstd::utf8::char_u32_cast(a, x);
        vstd::utf8::char_u32_cast(b, y);
    }
    x == y || (65 <= x && x <= 90 && x + 32 == y) || (65 <= y && y <= 90 && y + 32 == x)
}

/// Decides [`seq_eq_ci`] between a string slice and an expected word.
pub fn str_eq_ci(s: &str, w: &Vec<char>) -> (r: bool)
    ensures
        r == seq_eq_ci(s@, w@),
{
    let n = s.unicode_len();
    if n != w.len() {
        return false;
    }
    for i in 0..n
        invariant
            n == s@.len(),
            n == w@.len(),
            forall|j: int| 0 <= j < i ==> eq_char_ci(s@[j], w@[j]),
    {
        let c = s.get_char(i);
        if !char_eq_ci(c, w[i]) {
            return false;
        }
    }
    true
}

} // verus!
