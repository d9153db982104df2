//! Stable ranking by score: the items that are kept, highest score first,
//! items of equal score in the order they came in.
use vstd::prelude::*;
use crate::score::Score;

verus! {

/// Item `i` comes before item `j`: its score is higher, or the scores are
/// equal and it stood first.
pub open spec fn before(s: Seq<Score>, i: int, j: int) -> bool {
    s[j].below(s[i]) || (!s[i].below(s[j]) && i < j)
}

/// `ord` lists each kept item once, in ranking order.
pub open spec fn is_ranking(ord: Seq<int>, s: Seq<Score>, keep: Seq<bool>) -> bool {
    &&& forall|k: int| 0 <= k < ord.len() ==> 0 <= #[trigger] ord[k] < s.len() && keep[ord[k]]
    &&& forall|i: int| 0 <= i < s.len() && #[trigger] keep[i] ==> ord.contains(i)
    &&& forall|k: int, l: int| 0 <= k < l < ord.len() ==> before(s, #[trigger] ord[k], #[trigger] ord[l])
}

/// Every one of `n` items is kept.
pub open spec fn all_kept(n: nat) -> Seq<bool> {
    Seq::new(n, |i: int| true)
}

/// Scores compare as fractions: a score below a second that is at most a
/// third is below the third, and the other way round.
pub proof fn lemma_below_trans(x: Score, y: Score, z: Score)
    requires
        x.wf(),
        y.wf(),
        z.wf(),
    ensures
        x.below(y) && !z.below(y) ==> x.below(z),
        !y.below(x) && y.below(z) ==> x.below(z),
{
    let (a, b, c, d, e, f) = (x.num as int, x.den as int, y.num as int, y.den as int, z.num as int, z.den as int);
    assert(a * d < c * b && e * d >= c * f ==> a * f < e * b) by (nonlinear_arith)
        requires
            b > 0,
            d > 0,
            f > 0,
            a >= 0,
            c >= 0,
            e >= 0,
    ;
    assert(a * d <= c * b && c * f < e * d ==> a * f < e * b) by (nonlinear_arith)
        requires
            b > 0,
            d > 0,
            f > 0,
            a >= 0,
            c >= 0,
            e >= 0,
    ;
}

/// The kept items, highest score first; items of equal score keep the
/// order of the input.
pub fn rank_by_score<T>(items: Vec<T>, scores: Vec<Score>, keep: Vec<bool>) -> (r: Vec<T>)
    requires
        items.len() == scores.len(),
        keep.len() == scores.len(),
        forall|i: int| 0 <= i < scores.len() ==> (#[trigger] scores[i]).wf(),
    ensures
        exists|ord: Seq<int>|
            is_ranking(ord, scores@, keep@) && r@.len() == ord.len() && forall|k: int|
                0 <= k < ord.len() ==> r@[k] == items@[#[trigger] ord[k]],
{
    let ghost items0 = items@;
    let ghost s0 = scores@;
    let ghost keep0 = keep@;
    let n = items.len();
    let mut items = items;
    let mut scores = scores;
    let mut its: Vec<T> = Vec::new();
    let mut scs: Vec<Score> = Vec::new();
    let ghost mut ids: Seq<int> = Seq::empty();
    let mut i: usize = 0;
    while i < n
        invariant
            n == items0.len(),
            n == s0.len(),
            n == keep0.len(),
            keep@ == keep0,
            forall|j: int| 0 <= j < n ==> (#[trigger] s0[j]).wf(),
            i <= n,
            items@ == items0.subrange(i as int, n as int),
            scores@ == s0.subrange(i as int, n as int),
            its@.len() == ids.len(),
            scs@.len() == ids.len(),
            forall|q: int| 0 <= q < ids.len() ==> 0 <= #[trigger] ids[q] < i && keep0[ids[q]],
            forall|q: int| 0 <= q < ids.len() ==> its@[q] == items0[#[trigger] ids[q]],
            forall|q: int| 0 <= q < ids.len() ==> scs@[q] == s0[#[trigger] ids[q]],
            forall|q: int, w: int| 0 <= q < w < ids.len() ==> #[trigger] ids[q] < #[trigger] ids[w],
            forall|j: int| 0 <= j < i && #[trigger] keep0[j] ==> ids.contains(j),
        decreases n - i,
    {
        let it = items.remove(0);
        let sc = scores.remove(0);
        assert(items0.subrange(i as int, n as int).remove(0) =~= items0.subrange(i + 1, n as int));
        assert(s0.subrange(i as int, n as int).remove(0) =~= s0.subrange(i + 1, n as int));
        if keep[i] {
            its.push(it);
            scs.push(sc);
            proof {
                let old_ids = ids;
                ids = ids.push(i as int);
                assert(ids[ids.len() - 1] == i);
                assert forall|j: int| 0 <= j < i + 1 && #[trigger] keep0[j] implies ids.contains(j) by {
                    if j < i {
                        let q = choose|q: int| 0 <= q < old_ids.len() && old_ids[q] == j;
                        assert(ids[q] == j);
                    } else {
                        assert(ids[ids.len() - 1] == j);
                    }
                }
            }
        }
        i = i + 1;
    }
    let mut out: Vec<T> = Vec::new();
    let ghost mut ord: Seq<int> = Seq::empty();
    while its.len() > 0
        invariant
            n == items0.len(),
            n == s0.len(),
            n == keep0.len(),
            forall|j: int| 0 <= j < n ==> (#[trigger] s0[j]).wf(),
            its@.len() == ids.len(),
            scs@.len() == ids.len(),
            out@.len() == ord.len(),
            forall|q: int| 0 <= q < ids.len() ==> 0 <= #[trigger] ids[q] < n && keep0[ids[q]],
            forall|q: int| 0 <= q < ids.len() ==> its@[q] == items0[#[trigger] ids[q]],
            forall|q: int| 0 <= q < ids.len() ==> scs@[q] == s0[#[trigger] ids[q]],
            forall|q: int, w: int| 0 <= q < w < ids.len() ==> #[trigger] ids[q] < #[trigger] ids[w],
            forall|k: int| 0 <= k < ord.len() ==> 0 <= #[trigger] ord[k] < n && keep0[ord[k]],
            forall|k: int| 0 <= k < ord.len() ==> out@[k] == items0[#[trigger] ord[k]],
            forall|j: int| 0 <= j < n && #[trigger] keep0[j] ==> ord.contains(j) || ids.contains(j),
            forall|k: int, l: int| 0 <= k < l < ord.len() ==> before(s0, #[trigger] ord[k], #[trigger] ord[l]),
            forall|k: int, q: int| 0 <= k < ord.len() && 0 <= q < ids.len() ==> before(s0, #[trigger] ord[k], #[trigger] ids[q]),
        decreases its.len(),
    {
        assert forall|p: int| 0 <= p < scs@.len() implies (#[trigger] scs@[p]).wf() by {
            assert(scs@[p] == s0[ids[p]]);
        }
        let mut best: usize = 0;
        let mut q: usize = 1;
        while q < scs.len()
            invariant
                n == s0.len(),
                forall|j: int| 0 <= j < n ==> (#[trigger] s0[j]).wf(),
                scs@.len() == ids.len(),
                forall|p: int| 0 <= p < ids.len() ==> 0 <= #[trigger] ids[p] < n,
                forall|p: int| 0 <= p < ids.len() ==> scs@[p] == s0[#[trigger] ids[p]],
                forall|p: int| 0 <= p < scs@.len() ==> (#[trigger] scs@[p]).wf(),
                best < q <= scs.len(),
                forall|p: int| 0 <= p < q ==> !(#[trigger] scs@[best as int]).below(scs@[p]),
                forall|p: int| 0 <= p < best ==> (#[trigger] scs@[p]).below(scs@[best as int]),
            decreases scs.len() - q,
        {
            if scs[best].is_below(&scs[q]) {
                proof {
                    assert forall|p: int| 0 <= p < q implies (#[trigger] scs@[p]).below(scs@[q as int]) by {
                        lemma_below_trans(scs@[p], scs@[best as int], scs@[q as int]);
                    }
                    assert(!scs@[q as int].below(scs@[q as int]));
                    assert forall|p: int| 0 <= p < q + 1 implies !(#[trigger] scs@[q as int]).below(scs@[p]) by {
                        if p < q {
                            lemma_below_trans(scs@[p], scs@[best as int], scs@[q as int]);
                            lemma_below_trans(scs@[q as int], scs@[p], scs@[q as int]);
                        }
                    }
                }
                best = q;
            }
            q = q + 1;
        }
        let ghost b = ids[best as int];
        proof {
            assert forall|w: int| 0 <= w < ids.len() && w != best implies before(s0, b, #[trigger] ids[w]) by {
                if w < best {
                    assert(scs@[w].below(scs@[best as int]));
                } else {
                    assert(!scs@[best as int].below(scs@[w]));
                    assert(ids[best as int] < ids[w]);
                }
            }
        }
        let it = its.remove(best);
        let _sc = scs.remove(best);
        out.push(it);
        proof {
            let old_ids = ids;
            let old_ord = ord;
            ids = ids.remove(best as int);
            ord = ord.push(b);
            assert(ord[ord.len() - 1] == b);
            assert forall|j: int| 0 <= j < n && #[trigger] keep0[j] implies ord.contains(j) || ids.contains(j) by {
                if old_ord.contains(j) {
                    let k = choose|k: int| 0 <= k < old_ord.len() && old_ord[k] == j;
                    assert(ord[k] == j);
                } else {
                    let w = choose|w: int| 0 <= w < old_ids.len() && old_ids[w] == j;
                    if w < best {
                        assert(ids[w] == j);
                    } else if w > best {
                        assert(ids[w - 1] == j);
                    } else {
                        assert(ord[ord.len() - 1] == j);
                    }
                }
            }
            assert forall|k: int, l: int| 0 <= k < l < ord.len() implies before(s0, #[trigger] ord[k], #[trigger] ord[l]) by {
                if l == ord.len() - 1 {
                    assert(old_ids[best as int] == b);
                }
            }
            assert forall|k: int, w: int| 0 <= k < ord.len() && 0 <= w < ids.len() implies before(s0, #[trigger] ord[k], #[trigger] ids[w]) by {
                let ow = if w < best { w } else { w + 1 };
                assert(ids[w] == old_ids[ow]);
                if k < ord.len() - 1 {
                    assert(before(s0, old_ord[k], old_ids[ow]));
                }
            }
            assert forall|q: int, w: int| 0 <= q < w < ids.len() implies #[trigger] ids[q] < #[trigger] ids[w] by {
                let oq = if q < best { q } else { q + 1 };
                let ow = if w < best { w } else { w + 1 };
                assert(ids[q] == old_ids[oq]);
                assert(ids[w] == old_ids[ow]);
            }
        }
    }
    proof {
        assert(is_ranking(ord, s0, keep0)) by {
            assert forall|j: int| 0 <= j < s0.len() && #[trigger] keep0[j] implies ord.contains(j) by {
                assert(ord.contains(j) || ids.contains(j));
            }
        }
    }
    out
}

} // verus!
