//! Text utilities the dispatcher needs: prefix and substring tests, and
//! splitting on single spaces to reach a positional token.

use vstd::prelude::*;
use vstd::string::StrSliceExecFns;

verus! {

/// Whether `s` begins with `p`.
pub open spec fn seq_starts_with(s: Seq<char>, p: Seq<char>) -> bool {
    p.len() <= s.len() && s.subrange(0, p.len() as int) == p
}

/// Whether `n` occurs in `s` as a contiguous run.
pub open spec fn seq_contains(s: Seq<char>, n: Seq<char>) -> bool {
    exists|i: int| 0 <= i && i + n.len() <= s.len() && #[trigger] s.subrange(i, i + n.len()) == n
}

/// Whether `s` begins with `p`, decided character by character.
pub fn str_starts_with(s: &str, p: &str) -> (r: bool)
    ensures
        r == seq_starts_with(s@, p@),
{
    let sl = s.unicode_len();
    let pl = p.unicode_len();
    if pl > sl {
        return false;
    }
    let mut i: usize = 0;
    while i < pl
        invariant
            i <= pl,
            pl <= sl,
            sl == s@.len(),
            pl == p@.len(),
            forall|j: int| 0 <= j < i ==> s@[j] == p@[j],
        decreases pl - i,
    {
        if s.get_char(i) != p.get_char(i) {
            proof {
                if seq_starts_with(s@, p@) {
                    assert(s@.subrange(0, p@.len() as int)[i as int] == p@[i as int]);
                }
            }
            return false;
        }
        i += 1;
    }
    proof {
        assert(s@.subrange(0, pl as int) =~= p@);
    }
    true
}

/// Whether `n` occurs in `s` starting exactly at `at`.
fn match_at(s: &str, n: &str, at: usize) -> (r: bool)
    requires
        at + n@.len() <= s@.len(),
        s@.len() <= usize::MAX,
    ensures
        r == (s@.subrange(at as int, at + n@.len()) == n@),
{
    let nl = n.unicode_len();
    let mut i: usize = 0;
    while i < nl
        invariant
            i <= nl,
            nl == n@.len(),
            at + nl <= s@.len(),
            s@.len() <= usize::MAX,
            forall|j: int| 0 <= j < i ==> s@[at + j] == n@[j],
        decreases nl - i,
    {
        if s.get_char(at + i) != n.get_char(i) {
            proof {
                if s@.subrange(at as int, at + n@.len()) == n@ {
                    assert(s@.subrange(at as int, at + n@.len())[i as int] == n@[i as int]);
                }
            }
            return false;
        }
        i += 1;
    }
    proof {
        assert(s@.subrange(at as int, at + n@.len()) =~= n@);
    }
    true
}

/// Whether `n` occurs anywhere in `s`.
pub fn str_contains(s: &str, n: &str) -> (r: bool)
    ensures
        r == seq_contains(s@, n@),
{
    let sl = s.unicode_len();
    let nl = n.unicode_len();
    if nl > sl {
        return false;
    }
    if nl == 0 {
        proof {
            assert(s@.subrange(0, 0 + n@.len() as int) =~= n@);
            assert(seq_contains(s@, n@));
        }
        return true;
    }
    let mut i: usize = 0;
    while i <= sl - nl
        invariant
            1 <= nl <= sl,
            i <= sl - nl + 1,
            sl == s@.len(),
            nl == n@.len(),
            forall|j: int| 0 <= j < i ==> #[trigger] s@.subrange(j, j + n@.len()) != n@,
        decreases sl - nl - i + 1,
    {
        if match_at(s, n, i) {
            return true;
        }
        i += 1;
    }
    false
}

/// `s` split on single spaces, as a sequence of tokens. Splitting never
/// yields fewer than one token; consecutive spaces yield empty tokens.
pub open spec fn spec_tokens(s: Seq<char>) -> Seq<Seq<char>>
    decreases s.len(),
{
    if s.len() == 0 {
        seq![Seq::<char>::empty()]
    } else if s[0] == ' ' {
        seq![Seq::<char>::empty()] + spec_tokens(s.skip(1))
    } else {
        let rest = spec_tokens(s.skip(1));
        seq![seq![s[0]] + rest[0]] + rest.skip(1)
    }
}

/// Splitting always yields at least one token.
pub proof fn lemma_tokens_nonempty(s: Seq<char>)
    ensures
        spec_tokens(s).len() >= 1,
    decreases s.len(),
{
    if s.len() != 0 {
        lemma_tokens_nonempty(s.skip(1));
    }
}

/// Peeling the first token: when the first `k` characters are space-free and
/// character `k` (if any) is a space, the split is that head token followed
/// by the split of what comes after the space.
pub proof fn lemma_tokens_head(s: Seq<char>, k: int)
    requires
        0 <= k <= s.len(),
        forall|j: int| 0 <= j < k ==> s[j] != ' ',
        k < s.len() ==> s[k] == ' ',
    ensures
        k == s.len() ==> spec_tokens(s) =~= seq![s],
        k < s.len() ==> spec_tokens(s) =~= seq![s.take(k)] + spec_tokens(s.skip(k + 1)),
    decreases k,
{
    lemma_tokens_nonempty(s);
    if k == 0 {
        if s.len() == 0 {
            assert(s =~= Seq::<char>::empty());
            assert(spec_tokens(s) =~= seq![s]);
        } else {
            assert(s.take(0) =~= Seq::<char>::empty());
        }
    } else {
        let rest = s.skip(1);
        assert(forall|j: int| 0 <= j < k - 1 ==> rest[j] != ' ');
        lemma_tokens_head(rest, k - 1);
        lemma_tokens_nonempty(rest);
        let rt = spec_tokens(rest);
        if k == s.len() {
            assert(rt =~= seq![rest]);
            assert(seq![s[0]] + rest =~= s);
            assert(spec_tokens(s) =~= seq![s]);
        } else {
            assert(rt =~= seq![rest.take(k - 1)] + spec_tokens(rest.skip(k)));
            assert(seq![s[0]] + rest.take(k - 1) =~= s.take(k));
            assert(rt.skip(1) =~= spec_tokens(rest.skip(k)));
            assert(rest.skip(k) =~= s.skip(k + 1));
            assert(spec_tokens(s) =~= seq![s.take(k)] + spec_tokens(s.skip(k + 1)));
        }
    }
}

/// The index of the first space at or after `from`, or the length of `s`
/// when no space follows.
fn find_space(s: &str, from: usize) -> (r: usize)
    requires
        from <= s@.len(),
    ensures
        from <= r <= s@.len(),
        forall|j: int| from <= j < r ==> s@[j] != ' ',
        r < s@.len() ==> s@[r as int] == ' ',
{
    let len = s.unicode_len();
    let mut i: usize = from;
    while i < len
        invariant
            from <= i <= len,
            len == s@.len(),
            forall|j: int| from <= j < i ==> s@[j] != ' ',
        decreases len - i,
    {
        if s.get_char(i) == ' ' {
            return i;
        }
        i += 1;
    }
    i
}

/// The `n`th (zero-based) token of `s` split on single spaces, or `None`
/// when the split has no such token.
pub fn nth_token(s: &str, n: usize) -> (r: Option<String>)
    ensures
        r is Some <==> n < spec_tokens(s@).len(),
        r matches Some(t) ==> t@ == spec_tokens(s@)[n as int],
{
    let len = s.unicode_len();
    let mut start: usize = 0;
    let mut tok: usize = 0;
    proof {
        assert(s@.skip(0) =~= s@);
        assert(spec_tokens(s@).skip(0) =~= spec_tokens(s@));
    }
    loop
        invariant
            tok <= n,
            start <= len,
            len == s@.len(),
            spec_tokens(s@).skip(tok as int) =~= spec_tokens(s@.skip(start as int)),
            spec_tokens(s@).len() == tok + spec_tokens(s@.skip(start as int)).len(),
        decreases n - tok,
    {
        let k = find_space(s, start);
        proof {
            let rem = s@.skip(start as int);
            assert(forall|j: int| 0 <= j < k - start ==> rem[j] != ' ');
            lemma_tokens_head(rem, k - start);
            lemma_tokens_nonempty(rem);
        }
        if tok == n {
            proof {
                let rem = s@.skip(start as int);
                if k == len {
                    assert(spec_tokens(rem)[0] == rem);
                    assert(rem =~= s@.subrange(start as int, k as int));
                } else {
                    assert(spec_tokens(rem)[0] == rem.take(k - start));
                    assert(rem.take(k - start) =~= s@.subrange(start as int, k as int));
                }
                assert(spec_tokens(s@)[n as int] == spec_tokens(s@).skip(tok as int)[0]);
            }
            let t = s.substring_char(start, k);
            return Some(t.to_owned());
        }
        if k == len {
            proof {
                let rem = s@.skip(start as int);
                assert(spec_tokens(rem) =~= seq![rem]);
                assert(spec_tokens(s@).len() == tok + 1);
            }
            return None;
        }
        proof {
            let rem = s@.skip(start as int);
            let after = spec_tokens(rem).skip(1);
            assert(after =~= spec_tokens(rem.skip(k - start + 1)));
            assert(rem.skip(k - start + 1) =~= s@.skip(k + 1));
            assert(spec_tokens(s@).skip(tok + 1) =~= spec_tokens(s@).skip(tok as int).skip(1));
            assert(spec_tokens(s@).skip(tok as int).skip(1) =~= spec_tokens(rem).skip(1));
        }
        start = k + 1;
        tok = tok + 1;
    }
}

} // verus!
