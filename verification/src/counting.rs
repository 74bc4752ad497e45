//! Facts about counting the elements of a sequence that pass a test.

use vstd::prelude::*;

verus! {

/// Filtering a sequence with one more element at its end filters the
/// sequence and then decides on that element.
pub proof fn lemma_filter_push<A>(s: Seq<A>, a: A, pred: spec_fn(A) -> bool)
    ensures
        s.push(a).filter(pred) == if pred(a) {
            s.filter(pred).push(a)
        } else {
            s.filter(pred)
        },
{
    reveal(Seq::filter);
    assert(s.push(a).drop_last() =~= s);
}

/// Two sequences of equal length whose elements agree, place by place, on
/// two tests have as many elements that pass the one as the other.
pub proof fn lemma_count_pointwise<A>(
    a: Seq<A>,
    b: Seq<A>,
    p: spec_fn(A) -> bool,
    q: spec_fn(A) -> bool,
)
    requires
        a.len() == b.len(),
        forall|i: int| 0 <= i < a.len() ==> p(#[trigger] a[i]) == q(b[i]),
    ensures
        a.filter(p).len() == b.filter(q).len(),
    decreases a.len(),
{
    reveal(Seq::filter);
    if a.len() > 0 {
        assert forall|i: int| 0 <= i < a.drop_last().len() implies p(
            #[trigger] a.drop_last()[i],
        ) == q(b.drop_last()[i]) by {
            assert(p(a[i]) == q(b[i]));
        }
        lemma_count_pointwise(a.drop_last(), b.drop_last(), p, q);
        assert(p(a[a.len() - 1]) == q(b[a.len() - 1]));
    }
}

/// Where every element that passes `p` before passes either `q` after or
/// `r` before, and never both, the count of `p` is the sum of the other two.
pub proof fn lemma_count_split<A>(
    a: Seq<A>,
    b: Seq<A>,
    p: spec_fn(A) -> bool,
    q: spec_fn(A) -> bool,
    r: spec_fn(A) -> bool,
)
    requires
        a.len() == b.len(),
        forall|i: int| 0 <= i < a.len() ==> p(#[trigger] a[i]) == (q(b[i]) || r(a[i])),
        forall|i: int| 0 <= i < a.len() ==> !(q(b[i]) && r(#[trigger] a[i])),
    ensures
        a.filter(p).len() == b.filter(q).len() + a.filter(r).len(),
    decreases a.len(),
{
    reveal(Seq::filter);
    if a.len() > 0 {
        assert forall|i: int| 0 <= i < a.drop_last().len() implies p(
            #[trigger] a.drop_last()[i],
        ) == (q(b.drop_last()[i]) || r(a.drop_last()[i])) by {
            assert(p(a[i]) == (q(b[i]) || r(a[i])));
        }
        assert forall|i: int| 0 <= i < a.drop_last().len() implies !(q(b.drop_last()[i]) && r(
            #[trigger] a.drop_last()[i],
        )) by {
            assert(!(q(b[i]) && r(a[i])));
        }
        lemma_count_split(a.drop_last(), b.drop_last(), p, q, r);
        let n = a.len() - 1;
        assert(p(a[n]) == (q(b[n]) || r(a[n])));
        assert(!(q(b[n]) && r(a[n])));
    }
}

/// Sifting out elements that do not pass `p` anyway leaves the count of `p`
/// as it was.
pub proof fn lemma_count_after_sifting<A>(
    a: Seq<A>,
    keep: spec_fn(A) -> bool,
    p: spec_fn(A) -> bool,
)
    requires
        forall|i: int| 0 <= i < a.len() && p(#[trigger] a[i]) ==> keep(a[i]),
    ensures
        a.filter(keep).filter(p).len() == a.filter(p).len(),
    decreases a.len(),
{
    reveal(Seq::filter);
    if a.len() > 0 {
        let rest = a.drop_last();
        let x = a.last();
        assert forall|i: int| 0 <= i < rest.len() && p(#[trigger] rest[i]) implies keep(
            rest[i],
        ) by {
            assert(rest[i] == a[i]);
        }
        lemma_count_after_sifting(rest, keep, p);
        assert(x == a[a.len() - 1]);
        if keep(x) {
            lemma_filter_push(rest.filter(keep), x, p);
        }
    }
}

} // verus!
