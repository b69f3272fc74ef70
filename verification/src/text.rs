//! Character-level helpers on text.

use vstd::prelude::*;

verus! {

/// The characters of `text`.
pub(crate) fn chars_of(text: &str) -> (chars: Vec<char>)
    ensures
        chars@ == text@,
{
    let mut chars: Vec<char> = Vec::new();
    for c in it: text.chars()
        invariant
            chars@ == it.seq().take(it.index() as int),
    {
        chars.push(c);
        assert(chars@ =~= it.seq().take(it.index() + 1));
    }
    proof {
        broadcast use vstd::string::axiom_spec_iter;
    }
    assert(chars@ =~= text@);
    chars
}

/// Whether `a` and `b` hold the same text.
pub(crate) fn same_text(a: &str, b: &str) -> (r: bool)
    ensures
        r == (a@ == b@),
{
    let a_chars = chars_of(a);
    let b_chars = chars_of(b);
    if a_chars.len() != b_chars.len() {
        return false;
    }
    let n = a_chars.len();
    let mut i: usize = 0;
    while i < n
        invariant
            n == a_chars@.len() == b_chars@.len(),
            a_chars@ == a@,
            b_chars@ == b@,
            i <= n,
            forall|j: int| 0 <= j < i ==> a@[j] == b@[j],
        decreases n - i,
    {
        if a_chars[i] != b_chars[i] {
            return false;
        }
        i = i + 1;
    }
    assert(a@ =~= b@);
    true
}

} // verus!
