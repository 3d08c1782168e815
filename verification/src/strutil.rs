//! Small string building blocks shared by the adapter: character-level
//! access to strings, comparison, and concatenation.

use vstd::prelude::*;

verus! {

/// Collect the characters of a string, in order.
pub(crate) fn str_chars(s: &str) -> (r: Vec<char>)
    ensures
        r@ == s@,
{
    let mut out: Vec<char> = Vec::new();
    for c in it: s.chars()
        invariant
            it.seq() == s@,
            out@ == it.seq().take(it.index() as int),
    {
        out.push(c);
    }
    assert(out@ =~= s@);
    out
}

/// Relies on String's FromIterator<char> impl: collects characters in order.
#[verifier::external_body]
pub(crate) fn chars_string(v: &Vec<char>) -> (r: String)
    ensures
        r@ == v@,
{
    v.iter().collect()
}

/// Compare two string slices character by character.
pub fn str_eq(a: &str, b: &str) -> (r: bool)
    ensures
        r == (a@ == b@),
{
    let av = str_chars(a);
    let bv = str_chars(b);
    if av.len() != bv.len() {
        assert(a@ != b@);
        return false;
    }
    let n = av.len();
    let mut i: usize = 0;
    while i < n
        invariant
            n == av.len() == bv.len(),
            av@ == a@,
            bv@ == b@,
            i <= n,
            forall|j: int| 0 <= j < i ==> av@[j] == bv@[j],
        decreases n - i,
    {
        if av[i] != bv[i] {
            assert(a@[i as int] != b@[i as int]);
            return false;
        }
        i = i + 1;
    }
    assert(a@ =~= b@);
    true
}

/// Append every character of `s` to `out`.
pub(crate) fn push_chars(out: &mut Vec<char>, s: &str)
    ensures
        final(out)@ == old(out)@ + s@,
{
    let sv = str_chars(s);
    let n = sv.len();
    let mut i: usize = 0;
    while i < n
        invariant
            n == sv.len(),
            sv@ == s@,
            i <= n,
            out@ == old(out)@ + sv@.take(i as int),
        decreases n - i,
    {
        out.push(sv[i]);
        assert(sv@.take(i + 1 as int) =~= sv@.take(i as int).push(sv@[i as int]));
        i = i + 1;
    }
    assert(sv@.take(n as int) =~= sv@);
}

} // verus!
