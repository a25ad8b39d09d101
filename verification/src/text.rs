//! Exact-text operations on strings, stated over sequences of characters.

use vstd::prelude::*;
use vstd::string::StrSliceExecFns;
use vstd::string::StringExecFns;

verus! {

/// Whether `token` stands in `s` at position `at`.
pub open spec fn occurs_at(s: Seq<char>, token: Seq<char>, at: int) -> bool {
    &&& 0 <= at
    &&& at + token.len() <= s.len()
    &&& s.subrange(at, at + token.len()) == token
}

/// Whether `token` stands anywhere in `s`.
pub open spec fn occurs(s: Seq<char>, token: Seq<char>) -> bool {
    exists|at: int| occurs_at(s, token, at)
}

/// `s` with every occurrence of `token` replaced by `with`. Occurrences are taken from the
/// left and do not overlap; an empty `token` occurs nowhere.
pub open spec fn replaced(s: Seq<char>, token: Seq<char>, with: Seq<char>) -> Seq<char>
    decreases s.len(),
{
    if token.len() == 0 || s.len() == 0 {
        s
    } else if occurs_at(s, token, 0) {
        with + replaced(s.skip(token.len() as int), token, with)
    } else {
        s.take(1) + replaced(s.skip(1), token, with)
    }
}

/// Whether two strings hold the same characters.
pub fn same_text(a: &str, b: &str) -> (same: bool)
    ensures
        same == (a@ == b@),
{
    let n = a.unicode_len();
    if b.unicode_len() != n {
        return false;
    }
    let mut i: usize = 0;
    while i < n
        invariant
            i <= n,
            n == a@.len(),
            n == b@.len(),
            a@.take(i as int) == b@.take(i as int),
        decreases n - i,
    {
        if a.get_char(i) != b.get_char(i) {
            return false;
        }
        i = i + 1;
    }
    assert(a@ =~= a@.take(n as int));
    assert(b@ =~= b@.take(n as int));
    true
}

/// Whether `token` stands in `s` at position `at`.
pub fn stands_at(s: &str, token: &str, at: usize) -> (found: bool)
    ensures
        found == occurs_at(s@, token@, at as int),
{
    let n = s.unicode_len();
    let m = token.unicode_len();
    if at > n || m > n - at {
        return false;
    }
    let mut k: usize = 0;
    while k < m
        invariant
            k <= m,
            n == s@.len(),
            m == token@.len(),
            at + m <= n,
            s@.subrange(at as int, at + k) == token@.take(k as int),
        decreases m - k,
    {
        if s.get_char(at + k) != token.get_char(k) {
            return false;
        }
        k = k + 1;
    }
    assert(token@ =~= token@.take(m as int));
    true
}

/// Skipping `n` characters and then `m` more is skipping `n + m`.
proof fn lemma_skip_skip(s: Seq<char>, n: int, m: int)
    requires
        0 <= n,
        0 <= m,
        n + m <= s.len(),
    ensures
        s.skip(n).skip(m) == s.skip(n + m),
{
}

/// Replaces every occurrence of `token` in `s` by `with`.
pub fn replace(s: &str, token: &str, with: &str) -> (out: String)
    ensures
        out@ == replaced(s@, token@, with@),
{
    let n = s.unicode_len();
    let m = token.unicode_len();
    if m == 0 {
        return s.to_owned();
    }
    let mut out = String::new();
    let mut i: usize = 0;
    proof {
        assert(s@.skip(0) =~= s@);
    }
    while i < n
        invariant
            i <= n,
            n == s@.len(),
            m == token@.len(),
            m > 0,
            out@ + replaced(s@.skip(i as int), token@, with@) == replaced(s@, token@, with@),
        decreases n - i,
    {
        let ghost rest = s@.skip(i as int);
        if stands_at(s, token, i) {
            assert(occurs_at(rest, token@, 0)) by {
                assert(rest.subrange(0, m as int) =~= s@.subrange(i as int, i + m));
            }
            out.append(with);
            proof {
                lemma_skip_skip(s@, i as int, m as int);
            }
            i = i + m;
        } else {
            assert(!occurs_at(rest, token@, 0)) by {
                if i + m <= n {
                    assert(rest.subrange(0, m as int) =~= s@.subrange(i as int, i + m));
                }
            }
            let one = s.substring_char(i, i + 1);
            out.append(one);
            proof {
                lemma_skip_skip(s@, i as int, 1);
            }
            i = i + 1;
        }
    }
    out
}

/// A text in which `token` stands nowhere is left as it is.
pub proof fn lemma_replaced_without_token(s: Seq<char>, token: Seq<char>, with: Seq<char>)
    requires
        !occurs(s, token),
    ensures
        replaced(s, token, with) == s,
    decreases s.len(),
{
    if token.len() == 0 || s.len() == 0 {
    } else {
        let rest = s.skip(1);
        assert forall|at: int| !occurs_at(rest, token, at) by {
            if occurs_at(rest, token, at) {
                assert(s.subrange(at + 1, at + 1 + token.len()) =~= rest.subrange(
                    at,
                    at + token.len(),
                ));
                assert(occurs_at(s, token, at + 1));
            }
        }
        lemma_replaced_without_token(rest, token, with);
    }
}

/// A text that is the token and nothing else becomes the replacement.
pub proof fn lemma_replaced_token_alone(token: Seq<char>, with: Seq<char>)
    requires
        token.len() > 0,
    ensures
        replaced(token, token, with) == with,
{
    let rest = token.skip(token.len() as int);
    assert(token.subrange(0, token.len() as int) =~= token);
    assert(replaced(rest, token, with) == rest);
}

/// Replacement works from the left: where `token` stands behind `head`, and nowhere
/// earlier, `head` is kept, the token gives way to `with`, and replacement goes on in
/// what follows.
pub proof fn lemma_replaced_at_first_token(
    head: Seq<char>,
    tail: Seq<char>,
    token: Seq<char>,
    with: Seq<char>,
)
    requires
        token.len() > 0,
        forall|at: int| 0 <= at < head.len() ==> !occurs_at(head + token + tail, token, at),
    ensures
        replaced(head + token + tail, token, with) == head + with + replaced(tail, token, with),
    decreases head.len(),
{
    let s = head + token + tail;
    if head.len() == 0 {
        assert(s.subrange(0, token.len() as int) =~= token);
        assert(s.skip(token.len() as int) =~= tail);
    } else {
        let rest = head.skip(1);
        assert(s.skip(1) =~= rest + token + tail);
        assert forall|at: int| 0 <= at < rest.len() implies !occurs_at(
            rest + token + tail,
            token,
            at,
        ) by {
            if occurs_at(rest + token + tail, token, at) {
                assert(s.subrange(at + 1, at + 1 + token.len()) =~= (rest + token + tail).subrange(
                    at,
                    at + token.len(),
                ));
                assert(occurs_at(s, token, at + 1));
            }
        }
        lemma_replaced_at_first_token(rest, tail, token, with);
    }
}

} // verus!
