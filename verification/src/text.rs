//! Small verified helpers on strings: equality, timestamp-prefixed lines, and
//! the prefix of a string up to a delimiter.

use vstd::prelude::*;

verus! {

/// How a log or message line carries its timestamp: the clock reading in
/// parentheses, a space, then the text itself.
pub open spec fn stamped(now: Seq<char>, msg: Seq<char>) -> Seq<char> {
    "("@ + now + ") "@ + msg
}

/// Builds the timestamped line `(<now>) <msg>`.
pub fn stamp(now: &str, msg: &str) -> (r: String)
    ensures
        r@ == stamped(now@, msg@),
{
    let s = String::from_str("(");
    let s = s.concat(now);
    let s = s.concat(") ");
    s.concat(msg)
}

/// Character-for-character equality of two string slices.
pub fn str_eq(a: &str, b: &str) -> (r: bool)
    ensures
        r == (a@ == b@),
{
    let na = a.unicode_len();
    let nb = b.unicode_len();
    if na != nb {
        return false;
    }
    let mut i: usize = 0;
    while i < na
        invariant
            i <= na,
            na == a@.len(),
            nb == b@.len(),
            na == nb,
            forall|j: int| 0 <= j < i ==> a@[j] == b@[j],
        decreases na - i,
    {
        let ca = a.get_char(i);
        let cb = b.get_char(i);
        if ca != cb {
            return false;
        }
        i += 1;
    }
    proof {
        assert(a@ =~= b@);
    }
    true
}

/// The characters of `s` that stand before the first occurrence of `d`
/// (all of `s` when `d` does not occur).
pub open spec fn prefix_before(s: Seq<char>, d: char) -> Seq<char>
    decreases s.len(),
{
    if s.len() == 0 {
        Seq::empty()
    } else if s[0] == d {
        Seq::empty()
    } else {
        seq![s[0]] + prefix_before(s.drop_first(), d)
    }
}

/// `prefix_before` is the subrange that ends at the first occurrence of the
/// delimiter.
pub proof fn lemma_prefix_before(s: Seq<char>, d: char, i: int)
    requires
        0 <= i <= s.len(),
        forall|j: int| 0 <= j < i ==> s[j] != d,
        i == s.len() || s[i] == d,
    ensures
        prefix_before(s, d) == s.subrange(0, i),
    decreases s.len(),
{
    if s.len() == 0 {
        assert(s.subrange(0, i) =~= Seq::<char>::empty());
    } else if s[0] == d {
        assert(i == 0);
        assert(s.subrange(0, 0) =~= Seq::<char>::empty());
    } else {
        assert(i >= 1);
        let rest = s.drop_first();
        assert(forall|j: int| 0 <= j < i - 1 ==> rest[j] == s[j + 1] && rest[j] != d);
        lemma_prefix_before(rest, d, i - 1);
        assert(seq![s[0]] + rest.subrange(0, i - 1) =~= s.subrange(0, i));
    }
}

/// Returns the prefix of `s` before the first occurrence of `d`.
pub fn take_until(s: &str, d: char) -> (r: String)
    ensures
        r@ == prefix_before(s@, d),
{
    let n = s.unicode_len();
    let mut i: usize = 0;
    while i < n
        invariant
            i <= n,
            n == s@.len(),
            forall|j: int| 0 <= j < i ==> s@[j] != d,
        decreases n - i,
    {
        if s.get_char(i) == d {
            proof {
                lemma_prefix_before(s@, d, i as int);
            }
            let sub = s.substring_char(0, i);
            return String::from_str(sub);
        }
        i += 1;
    }
    proof {
        lemma_prefix_before(s@, d, n as int);
    }
    let sub = s.substring_char(0, n);
    String::from_str(sub)
}

} // verus!
