//! Small verified string utilities over character sequences: equality,
//! prefix tests, whitespace trimming and whitespace splitting.
use vstd::prelude::*;

verus! {

/// ASCII whitespace, the set honoured by trimming and token splitting.
pub open spec fn is_space(c: char) -> bool {
    c == ' ' || c == '\t' || c == '\n' || c == '\r' || c == '\u{000B}' || c == '\u{000C}'
}

/// `p` is a prefix of `s`.
pub open spec fn starts_with_spec(s: Seq<char>, p: Seq<char>) -> bool {
    p.len() <= s.len() && s.subrange(0, p.len() as int) == p
}

/// `s` with leading whitespace removed.
pub open spec fn trim_start_spec(s: Seq<char>) -> Seq<char>
    decreases s.len(),
{
    if s.len() > 0 && is_space(s[0]) {
        trim_start_spec(s.skip(1))
    } else {
        s
    }
}

/// `s` with trailing whitespace removed.
pub open spec fn trim_end_spec(s: Seq<char>) -> Seq<char>
    decreases s.len(),
{
    if s.len() > 0 && is_space(s[s.len() - 1]) {
        trim_end_spec(s.take(s.len() - 1))
    } else {
        s
    }
}

/// `s` with surrounding whitespace removed.
pub open spec fn trim_spec(s: Seq<char>) -> Seq<char> {
    trim_end_spec(trim_start_spec(s))
}

/// Length of the maximal non-whitespace prefix of `s`.
pub open spec fn token_prefix_len(s: Seq<char>) -> nat
    decreases s.len(),
{
    if s.len() == 0 || is_space(s[0]) {
        0
    } else {
        1 + token_prefix_len(s.skip(1))
    }
}

proof fn lemma_token_prefix_len_le(s: Seq<char>)
    ensures
        token_prefix_len(s) <= s.len(),
    decreases s.len(),
{
    if s.len() > 0 && !is_space(s[0]) {
        lemma_token_prefix_len_le(s.skip(1));
    }
}

/// The whitespace-separated tokens of `s`, in order.
pub open spec fn tokens_spec(s: Seq<char>) -> Seq<Seq<char>>
    decreases s.len(),
    via tokens_spec_decreases
{
    if s.len() == 0 {
        seq![]
    } else if is_space(s[0]) {
        tokens_spec(s.skip(1))
    } else {
        let k = token_prefix_len(s) as int;
        seq![s.take(k)] + tokens_spec(s.skip(k))
    }
}

#[via_fn]
proof fn tokens_spec_decreases(s: Seq<char>) {
    if s.len() > 0 && !is_space(s[0]) {
        lemma_token_prefix_len_le(s.skip(1));
    }
}

proof fn lemma_trim_start_at(s: Seq<char>, i: int)
    requires
        0 <= i <= s.len(),
        forall|k: int| 0 <= k < i ==> is_space(s[k]),
        i == s.len() || !is_space(s[i]),
    ensures
        trim_start_spec(s) == s.skip(i),
    decreases i,
{
    if i == 0 {
        assert(s.skip(0) =~= s);
    } else {
        assert(is_space(s[0]));
        lemma_trim_start_at(s.skip(1), i - 1);
        assert(s.skip(1).skip(i - 1) =~= s.skip(i));
    }
}

proof fn lemma_trim_end_at(s: Seq<char>, j: int)
    requires
        0 <= j <= s.len(),
        forall|k: int| j <= k < s.len() ==> is_space(s[k]),
        j == 0 || !is_space(s[j - 1]),
    ensures
        trim_end_spec(s) == s.subrange(0, j),
    decreases s.len(),
{
    if j == s.len() {
        if s.len() > 0 && is_space(s[s.len() - 1]) {
            assert(!is_space(s[j - 1]));
            assert(false);
        }
        assert(s.subrange(0, j) =~= s);
    } else {
        assert(is_space(s[s.len() - 1]));
        lemma_trim_end_at(s.take(s.len() - 1), j);
        assert(s.take(s.len() - 1).subrange(0, j) =~= s.subrange(0, j));
    }
}

proof fn lemma_tokens_skip_space(s: Seq<char>, i: int)
    requires
        0 <= i < s.len(),
        is_space(s[i]),
    ensures
        tokens_spec(s.skip(i)) == tokens_spec(s.skip(i + 1)),
{
    assert(s.skip(i)[0] == s[i]);
    assert(s.skip(i).skip(1) =~= s.skip(i + 1));
}

proof fn lemma_token_run(s: Seq<char>, start: int, end: int)
    requires
        0 <= start < end <= s.len(),
        forall|k: int| start <= k < end ==> !is_space(s[k]),
        end == s.len() || is_space(s[end]),
    ensures
        token_prefix_len(s.skip(start)) == end - start,
    decreases end - start,
{
    assert(s.skip(start)[0] == s[start]);
    if start + 1 == end {
        if end < s.len() {
            assert(s.skip(start).skip(1)[0] == s[end]);
        }
        assert(token_prefix_len(s.skip(start).skip(1)) == 0);
    } else {
        lemma_token_run(s, start + 1, end);
        assert(s.skip(start).skip(1) =~= s.skip(start + 1));
    }
}

proof fn lemma_tokens_take_run(s: Seq<char>, start: int, end: int)
    requires
        0 <= start < end <= s.len(),
        forall|k: int| start <= k < end ==> !is_space(s[k]),
        end == s.len() || is_space(s[end]),
    ensures
        tokens_spec(s.skip(start)) == seq![s.subrange(start, end)] + tokens_spec(s.skip(end)),
{
    lemma_token_run(s, start, end);
    assert(s.skip(start)[0] == s[start]);
    assert(s.skip(start).take(end - start) =~= s.subrange(start, end));
    assert(s.skip(start).skip(end - start) =~= s.skip(end));
}

/// Relies on String::push: appends exactly the given character to the end.
#[verifier::external_body]
pub(crate) fn push_char(s: &mut String, c: char)
    ensures
        final(s)@ == old(s)@.push(c),
{
    s.push(c);
}

/// Character-for-character string equality.
pub fn str_eq(a: &str, b: &str) -> (r: bool)
    ensures
        r == (a@ == b@),
{
    let na: usize = a.unicode_len();
    let nb: usize = b.unicode_len();
    if na != nb {
        assert(a@ != b@) by {
            assert(a@.len() != b@.len());
        }
        return false;
    }
    let mut i: usize = 0;
    while i < na
        invariant
            0 <= i <= na,
            na == a@.len(),
            na == b@.len(),
            forall|k: int| 0 <= k < i ==> a@[k] == b@[k],
        decreases na - i,
    {
        if a.get_char(i) != b.get_char(i) {
            return false;
        }
        i = i + 1;
    }
    assert(a@ =~= b@);
    true
}

/// Does `s` start with the prefix `p`?
pub fn starts_with_str(s: &str, p: &str) -> (r: bool)
    ensures
        r == starts_with_spec(s@, p@),
{
    let ns: usize = s.unicode_len();
    let np: usize = p.unicode_len();
    if np > ns {
        return false;
    }
    let mut i: usize = 0;
    while i < np
        invariant
            0 <= i <= np,
            np <= ns,
            ns == s@.len(),
            np == p@.len(),
            forall|k: int| 0 <= k < i ==> s@[k] == p@[k],
        decreases np - i,
    {
        if s.get_char(i) != p.get_char(i) {
            assert(s@.subrange(0, np as int)[i as int] != p@[i as int]);
            return false;
        }
        i = i + 1;
    }
    assert(s@.subrange(0, np as int) =~= p@);
    true
}

/// Whether `c` is treated as whitespace.
pub fn is_space_char(c: char) -> (r: bool)
    ensures
        r == is_space(c),
{
    c == ' ' || c == '\t' || c == '\n' || c == '\r' || c == '\u{000B}' || c == '\u{000C}'
}

/// A copy of `s` with surrounding whitespace removed.
pub fn trim_str(s: &str) -> (r: String)
    ensures
        r@ == trim_spec(s@),
{
    let n: usize = s.unicode_len();
    let mut i: usize = 0;
    while i < n && is_space_char(s.get_char(i))
        invariant
            0 <= i <= n,
            n == s@.len(),
            forall|k: int| 0 <= k < i ==> is_space(s@[k]),
        decreases n - i,
    {
        i = i + 1;
    }
    proof {
        lemma_trim_start_at(s@, i as int);
    }
    let mut j: usize = n;
    while j > i && is_space_char(s.get_char(j - 1))
        invariant
            i <= j <= n,
            n == s@.len(),
            forall|k: int| j <= k < n ==> is_space(s@[k]),
        decreases j,
    {
        j = j - 1;
    }
    proof {
        let t = s@.skip(i as int);
        assert(forall|k: int| j - i <= k < t.len() ==> is_space(t[k]));
        if j > i {
            assert(t[j - i - 1] == s@[j as int - 1]);
        }
        lemma_trim_end_at(t, j - i);
        assert(t.subrange(0, j - i) =~= s@.subrange(i as int, j as int));
    }
    let sub = s.substring_char(i, j);
    sub.to_owned()
}

/// The whitespace-separated tokens of `s`, in order.
pub fn split_ws(s: &str) -> (r: Vec<String>)
    ensures
        r.deep_view() == tokens_spec(s@),
{
    let n: usize = s.unicode_len();
    let mut toks: Vec<String> = Vec::new();
    let mut i: usize = 0;
    proof {
        assert(toks.deep_view() =~= Seq::<Seq<char>>::empty());
        assert(s@.skip(0) =~= s@);
        assert(toks.deep_view() + tokens_spec(s@) =~= tokens_spec(s@));
    }
    while i < n
        invariant
            0 <= i <= n,
            n == s@.len(),
            toks.deep_view() + tokens_spec(s@.skip(i as int)) == tokens_spec(s@),
        decreases n - i,
    {
        if is_space_char(s.get_char(i)) {
            proof {
                lemma_tokens_skip_space(s@, i as int);
            }
            i = i + 1;
        } else {
            let start: usize = i;
            i = i + 1;
            while i < n && !is_space_char(s.get_char(i))
                invariant
                    start < i <= n,
                    n == s@.len(),
                    forall|k: int| start <= k < i ==> !is_space(s@[k]),
                decreases n - i,
            {
                i = i + 1;
            }
            proof {
                lemma_tokens_take_run(s@, start as int, i as int);
            }
            let t = s.substring_char(start, i).to_owned();
            let ghost old_toks = toks.deep_view();
            toks.push(t);
            proof {
                assert(toks.deep_view() =~= old_toks + seq![s@.subrange(start as int, i as int)]);
                assert(toks.deep_view() + tokens_spec(s@.skip(i as int)) =~= tokens_spec(s@));
            }
        }
    }
    proof {
        assert(s@.skip(n as int) =~= Seq::<char>::empty());
        assert(tokens_spec(s@.skip(n as int)) =~= Seq::<Seq<char>>::empty());
        assert(toks.deep_view() =~= tokens_spec(s@));
    }
    toks
}

} // verus!
