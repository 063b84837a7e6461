//! Verified string utilities: splitting, prefix tests, and joining.
//! These underpin path-component handling and test-configuration parsing.

use vstd::prelude::*;

verus! {

/// The pieces of `s` between occurrences of `sep`, in order. An empty
/// input yields one empty piece, as `str::split` does.
pub open spec fn spec_split(s: Seq<char>, sep: char) -> Seq<Seq<char>>
    decreases s.len(),
{
    if s.len() == 0 {
        seq![Seq::<char>::empty()]
    } else if s[0] == sep {
        seq![Seq::<char>::empty()] + spec_split(s.subrange(1, s.len() as int), sep)
    } else {
        let rest = spec_split(s.subrange(1, s.len() as int), sep);
        rest.update(0, seq![s[0]] + rest[0])
    }
}

/// `spec_split` never yields an empty list of pieces.
pub proof fn lemma_split_nonempty(s: Seq<char>, sep: char)
    ensures
        spec_split(s, sep).len() >= 1,
    decreases s.len(),
{
    if s.len() != 0 {
        lemma_split_nonempty(s.subrange(1, s.len() as int), sep);
    }
}

/// Splitting a separator-free sequence yields that sequence alone.
pub proof fn lemma_split_no_sep(s: Seq<char>, sep: char)
    requires
        forall|i: int| 0 <= i < s.len() ==> s[i] != sep,
    ensures
        spec_split(s, sep) =~~= seq![s],
    decreases s.len(),
{
    if s.len() == 0 {
        assert(spec_split(s, sep) =~~= seq![s]);
    } else {
        let tail = s.subrange(1, s.len() as int);
        lemma_split_no_sep(tail, sep);
        lemma_split_nonempty(tail, sep);
        assert(seq![s[0]] + tail =~= s);
    }
}

/// If the first `k` characters of `s` are separator-free and `s[k]` is the
/// separator, the split is the head piece followed by the split of the rest.
pub proof fn lemma_split_at_first_sep(s: Seq<char>, sep: char, k: int)
    requires
        0 <= k < s.len(),
        s[k] == sep,
        forall|i: int| 0 <= i < k ==> s[i] != sep,
    ensures
        spec_split(s, sep) =~~= seq![s.subrange(0, k)] + spec_split(
            s.subrange(k + 1, s.len() as int),
            sep,
        ),
    decreases k,
{
    let tail = s.subrange(1, s.len() as int);
    if k == 0 {
        assert(spec_split(s, sep) =~~= seq![s.subrange(0, 0)] + spec_split(tail, sep));
    } else {
        lemma_split_at_first_sep(tail, sep, k - 1);
        lemma_split_nonempty(tail.subrange(k, tail.len() as int), sep);
        assert(tail.subrange(0, k - 1) =~= s.subrange(1, k));
        assert(tail.subrange(k, tail.len() as int) =~= s.subrange(k + 1, s.len() as int));
        assert(seq![s[0]] + s.subrange(1, k) =~= s.subrange(0, k));
    }
}

/// Split `s` at each occurrence of `sep`.
pub fn split_str(s: &str, sep: char) -> (r: Vec<String>)
    ensures
        r.deep_view() == spec_split(s@, sep),
{
    let n = s.unicode_len();
    let mut pieces: Vec<String> = Vec::new();
    let mut start: usize = 0;
    let mut i: usize = 0;
    proof {
        assert(s@.subrange(0, n as int) =~= s@);
        assert(pieces.deep_view() =~~= Seq::<Seq<char>>::empty());
        assert(spec_split(s@, sep) =~~= pieces.deep_view() + spec_split(
            s@.subrange(0, n as int),
            sep,
        ));
    }
    while i < n
        invariant
            start <= i <= n,
            n == s@.len(),
            forall|j: int| start <= j < i ==> s@[j] != sep,
            spec_split(s@, sep) =~~= pieces.deep_view() + spec_split(
                s@.subrange(start as int, n as int),
                sep,
            ),
        decreases n - i,
    {
        if s.get_char(i) == sep {
            let piece = s.substring_char(start, i).to_owned();
            proof {
                let rest = s@.subrange(start as int, n as int);
                lemma_split_at_first_sep(rest, sep, i - start);
                assert(rest.subrange(0, i - start) =~= s@.subrange(start as int, i as int));
                assert(rest.subrange(i - start + 1, rest.len() as int) =~= s@.subrange(
                    i + 1,
                    n as int,
                ));
            }
            pieces.push(piece);
            start = i + 1;
        }
        i = i + 1;
    }
    let last = s.substring_char(start, n).to_owned();
    proof {
        lemma_split_no_sep(s@.subrange(start as int, n as int), sep);
    }
    pieces.push(last);
    pieces
}

/// Whether `p` is a prefix of `s`, character for character.
pub fn str_starts_with(s: &str, p: &str) -> (r: bool)
    ensures
        r == (p@.len() <= s@.len() && s@.subrange(0, p@.len() as int) =~= p@),
{
    let sn = s.unicode_len();
    let pn = p.unicode_len();
    if pn > sn {
        return false;
    }
    let mut i: usize = 0;
    while i < pn
        invariant
            i <= pn <= sn,
            sn == s@.len(),
            pn == p@.len(),
            forall|j: int| 0 <= j < i ==> s@[j] == p@[j],
        decreases pn - i,
    {
        if s.get_char(i) != p.get_char(i) {
            assert(s@.subrange(0, p@.len() as int) != p@) by {
                assert(s@.subrange(0, p@.len() as int)[i as int] != p@[i as int]);
            }
            return false;
        }
        i = i + 1;
    }
    assert(s@.subrange(0, p@.len() as int) =~= p@);
    true
}

/// Whether two string slices hold the same characters.
pub fn str_eq(a: &str, b: &str) -> (r: bool)
    ensures
        r == (a@ == b@),
{
    let an = a.unicode_len();
    let bn = b.unicode_len();
    if an != bn {
        return false;
    }
    let mut i: usize = 0;
    while i < an
        invariant
            i <= an,
            an == a@.len(),
            bn == b@.len(),
            an == bn,
            forall|j: int| 0 <= j < i ==> a@[j] == b@[j],
        decreases an - i,
    {
        if a.get_char(i) != b.get_char(i) {
            assert(a@ != b@) by {
                assert(a@[i as int] != b@[i as int]);
            }
            return false;
        }
        i = i + 1;
    }
    assert(a@ =~= b@);
    true
}

/// The pieces laid end to end with `sep` between consecutive pieces.
pub open spec fn spec_join(pieces: Seq<Seq<char>>, sep: Seq<char>) -> Seq<char>
    decreases pieces.len(),
{
    if pieces.len() == 0 {
        Seq::empty()
    } else if pieces.len() == 1 {
        pieces[0]
    } else {
        pieces[0] + sep + spec_join(pieces.subrange(1, pieces.len() as int), sep)
    }
}

/// Join the pieces with `sep` between consecutive pieces.
pub fn join_str(pieces: &Vec<String>, sep: &str) -> (r: String)
    ensures
        r@ == spec_join(pieces.deep_view(), sep@),
{
    let mut out = String::new();
    let n = pieces.len();
    let mut i: usize = 0;
    while i < n
        invariant
            i <= n,
            n == pieces.deep_view().len(),
            out@ == spec_join_prefix(pieces.deep_view(), sep@, i as int),
        decreases n - i,
    {
        if i > 0 {
            out.append(sep);
        }
        out.append(pieces[i].as_str());
        i = i + 1;
    }
    proof {
        lemma_join_prefix_full(pieces.deep_view(), sep@);
    }
    out
}

/// The join of the first `k` pieces.
pub open spec fn spec_join_prefix(pieces: Seq<Seq<char>>, sep: Seq<char>, k: int) -> Seq<char>
    decreases k,
{
    if k <= 0 {
        Seq::empty()
    } else if k == 1 {
        pieces[0]
    } else {
        spec_join_prefix(pieces, sep, k - 1) + sep + pieces[k - 1]
    }
}

proof fn lemma_join_snoc(q: Seq<Seq<char>>, x: Seq<char>, sep: Seq<char>)
    requires
        q.len() >= 1,
    ensures
        spec_join(q.push(x), sep) =~= spec_join(q, sep) + sep + x,
    decreases q.len(),
{
    if q.len() == 1 {
        assert(q.push(x).subrange(1, 2) =~~= seq![x]);
        assert(spec_join(seq![x], sep) == x);
    } else {
        let qt = q.subrange(1, q.len() as int);
        lemma_join_snoc(qt, x, sep);
        assert(q.push(x).subrange(1, q.push(x).len() as int) =~~= qt.push(x));
        assert(q[0] + sep + (spec_join(qt, sep) + sep + x) =~= (q[0] + sep + spec_join(qt, sep))
            + sep + x);
    }
}

proof fn lemma_join_prefix(pieces: Seq<Seq<char>>, sep: Seq<char>, k: int)
    requires
        0 <= k <= pieces.len(),
    ensures
        spec_join_prefix(pieces, sep, k) == spec_join(pieces.subrange(0, k), sep),
    decreases k,
{
    if k <= 0 {
        assert(pieces.subrange(0, 0) =~~= Seq::<Seq<char>>::empty());
    } else if k == 1 {
        assert(pieces.subrange(0, 1) =~~= seq![pieces[0]]);
    } else {
        lemma_join_prefix(pieces, sep, k - 1);
        lemma_join_snoc(pieces.subrange(0, k - 1), pieces[k - 1], sep);
        assert(pieces.subrange(0, k) =~~= pieces.subrange(0, k - 1).push(pieces[k - 1]));
        assert(spec_join_prefix(pieces, sep, k) =~= spec_join(pieces.subrange(0, k), sep));
    }
}

proof fn lemma_join_prefix_full(pieces: Seq<Seq<char>>, sep: Seq<char>)
    ensures
        spec_join_prefix(pieces, sep, pieces.len() as int) == spec_join(pieces, sep),
{
    lemma_join_prefix(pieces, sep, pieces.len() as int);
    assert(pieces.subrange(0, pieces.len() as int) =~~= pieces);
}

} // verus!
