//! Facts about sequences of offsets.
use vstd::prelude::*;

verus! {

/// Strictly increasing, hence free of duplicates.
pub open spec fn ascending(s: Seq<usize>) -> bool {
    forall|i: int, j: int| 0 <= i < j < s.len() ==> s[i] < s[j]
}

/// The offsets `0, 1, ..., n - 1`.
pub open spec fn span(n: nat) -> Seq<usize> {
    Seq::new(n, |i: int| i as usize)
}

/// Filtering keeps an ascending sequence ascending, and keeps only elements
/// of the original that satisfy the predicate.
pub proof fn lemma_filter_ascending(s: Seq<usize>, p: spec_fn(usize) -> bool)
    requires
        ascending(s),
    ensures
        ascending(s.filter(p)),
        forall|i: int|
            0 <= i < s.filter(p).len() ==> s.contains(#[trigger] s.filter(p)[i]) && p(
                s.filter(p)[i],
            ),
        forall|x: usize| s.contains(x) && p(x) ==> #[trigger] s.filter(p).contains(x),
    decreases s.len(),
{
    reveal(Seq::filter);
    if s.len() > 0 {
        let d = s.drop_last();
        assert(ascending(d));
        lemma_filter_ascending(d, p);
        let sub = d.filter(p);
        assert forall|i: int| 0 <= i < sub.len() implies sub[i] < s.last() by {
            let k = choose|k: int| 0 <= k < d.len() && d[k] == sub[i];
        }
        assert forall|x: usize| s.contains(x) && p(x) implies #[trigger] s.filter(p).contains(x) by {
            let k = choose|k: int| 0 <= k < s.len() && s[k] == x;
            if k < s.len() - 1 {
                assert(d[k] == x);
                assert(d.contains(x));
                assert(sub.contains(x));
                let m = choose|m: int| 0 <= m < sub.len() && sub[m] == x;
                assert(s.filter(p)[m] == x);
            } else {
                assert(s.filter(p)[s.filter(p).len() - 1] == x);
            }
        }
        assert forall|i: int| 0 <= i < s.filter(p).len() implies s.contains(
            #[trigger] s.filter(p)[i],
        ) && p(s.filter(p)[i]) by {
            if i < sub.len() {
                let k = choose|k: int| 0 <= k < d.len() && d[k] == sub[i];
                assert(s[k] == sub[i]);
            } else {
                assert(s[s.len() - 1] == s.filter(p)[i]);
            }
        }
    }
}

/// Filtering a sequence with one more element at the end.
pub proof fn lemma_filter_push<A>(s: Seq<A>, x: A, p: spec_fn(A) -> bool)
    ensures
        s.push(x).filter(p) == if p(x) {
            s.filter(p).push(x)
        } else {
            s.filter(p)
        },
{
    reveal(Seq::filter);
    assert(s.push(x).drop_last() =~= s);
}

/// A span is ascending.
pub proof fn lemma_span_ascending(n: nat)
    requires
        n <= usize::MAX + 1,
    ensures
        ascending(span(n)),
        forall|i: int| 0 <= i < n ==> #[trigger] span(n)[i] == i,
{
}

} // verus!
