//! Character-sequence helpers shared by the URL rewriting and the script
//! builders.
use vstd::prelude::*;
use vstd::string::*;

verus! {

/// `p` is a prefix of `s`.
pub open spec fn is_prefix(p: Seq<char>, s: Seq<char>) -> bool {
    p.len() <= s.len() && s.subrange(0, p.len() as int) == p
}

/// `s` with a leading `from` replaced by `to`; `s` itself when it does not
/// start with `from`.
pub open spec fn swap_prefix(s: Seq<char>, from: Seq<char>, to: Seq<char>) -> Seq<char> {
    if is_prefix(from, s) {
        to + s.subrange(from.len() as int, s.len() as int)
    } else {
        s
    }
}

/// Whether `s` starts with `p`.
pub fn starts_with(s: &str, p: &str) -> (r: bool)
    ensures
        r == is_prefix(p@, s@),
{
    let n = s.unicode_len();
    let m = p.unicode_len();
    if m > n {
        return false;
    }
    let mut i: usize = 0;
    while i < m
        invariant
            m == p@.len(),
            n == s@.len(),
            m <= n,
            i <= m,
            forall|j: int| 0 <= j < i ==> s@[j] == p@[j],
        decreases m - i,
    {
        if s.get_char(i) != p.get_char(i) {
            assert(s@.subrange(0, m as int)[i as int] != p@[i as int]);
            return false;
        }
        i = i + 1;
    }
    assert(s@.subrange(0, m as int) =~= p@);
    true
}

/// `a` followed by `b`, as a new string.
pub fn join(a: &str, b: &str) -> (r: String)
    ensures
        r@ == a@ + b@,
{
    let mut r = String::from_str(a);
    r.append(b);
    r
}

/// `s` with a leading `from` replaced by `to`.
pub fn replace_prefix(s: &str, from: &str, to: &str) -> (r: String)
    ensures
        r@ == swap_prefix(s@, from@, to@),
{
    if starts_with(s, from) {
        let n = s.unicode_len();
        let m = from.unicode_len();
        let rest = s.substring_char(m, n);
        join(to, rest)
    } else {
        String::from_str(s)
    }
}

} // verus!
