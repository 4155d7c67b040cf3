use vstd::prelude::*;

verus! {

/// The score of a matching item (the items that did not match have no score).
pub open spec fn score_of(scores: Seq<Option<i64>>, i: usize) -> i64 {
    scores[i as int]->0
}

/// Whether item `a` is listed before item `b`: a higher score first, and on equal scores the
/// earlier item first.
pub open spec fn ranks_before(scores: Seq<Option<i64>>, a: usize, b: usize) -> bool {
    score_of(scores, a) > score_of(scores, b) || (score_of(scores, a) == score_of(scores, b) && a < b)
}

/// The position in `r` where an item scoring `s` goes after all those scoring at least `s`:
/// the first position whose item scores below `s`, or the end.
pub open spec fn first_below(r: Seq<usize>, scores: Seq<Option<i64>>, s: i64) -> nat
    decreases r.len(),
{
    if r.len() == 0 || score_of(scores, r[0]) < s {
        0
    } else {
        1 + first_below(r.drop_first(), scores, s)
    }
}

/// The matching items among the first `n`, highest score first, earlier items first among
/// equal scores (each item inserted in turn after those that score at least as much).
pub open spec fn ranking_upto(scores: Seq<Option<i64>>, n: nat) -> Seq<usize>
    decreases n,
{
    if n == 0 {
        Seq::empty()
    } else {
        let r = ranking_upto(scores, (n - 1) as nat);
        match scores[n - 1] {
            Some(s) => r.insert(first_below(r, scores, s) as int, (n - 1) as usize),
            None => r,
        }
    }
}

/// The matching items, highest score first, earlier items first among equal scores.
pub open spec fn ranking(scores: Seq<Option<i64>>) -> Seq<usize> {
    ranking_upto(scores, scores.len())
}

/// `r` lists exactly the matching items of `scores`, each once, in ranking order.
pub open spec fn is_ranking(r: Seq<usize>, scores: Seq<Option<i64>>) -> bool {
    &&& forall|k: int| 0 <= k < r.len() ==> (#[trigger] r[k] as int) < scores.len() && scores[r[k] as int] is Some
    &&& forall|i: int| 0 <= i < scores.len() && scores[i] is Some ==> r.contains(i as usize)
    &&& forall|k: int, l: int| 0 <= k < l < r.len() ==> ranks_before(scores, #[trigger] r[k], #[trigger] r[l])
}

proof fn lemma_first_below(r: Seq<usize>, scores: Seq<Option<i64>>, s: i64, p: int)
    requires
        0 <= p <= r.len(),
        forall|k: int| 0 <= k < p ==> score_of(scores, #[trigger] r[k]) >= s,
        p == r.len() || score_of(scores, r[p]) < s,
    ensures
        first_below(r, scores, s) == p,
    decreases p,
{
    if p > 0 {
        let t = r.drop_first();
        assert forall|k: int| 0 <= k < p - 1 implies score_of(scores, #[trigger] t[k]) >= s by {
            assert(t[k] == r[k + 1]);
        }
        if p < r.len() {
            assert(t[p - 1] == r[p]);
        }
        assert(score_of(scores, r[0]) >= s);
        lemma_first_below(t, scores, s, p - 1);
    }
}

proof fn lemma_first_below_bounds(r: Seq<usize>, scores: Seq<Option<i64>>, s: i64)
    ensures
        first_below(r, scores, s) <= r.len(),
        forall|k: int| 0 <= k < first_below(r, scores, s) ==> score_of(scores, #[trigger] r[k]) >= s,
        first_below(r, scores, s) < r.len() ==> score_of(scores, r[first_below(r, scores, s) as int]) < s,
    decreases r.len(),
{
    if r.len() > 0 && score_of(scores, r[0]) >= s {
        let t = r.drop_first();
        lemma_first_below_bounds(t, scores, s);
        assert forall|k: int| 0 <= k < first_below(r, scores, s) implies score_of(scores, #[trigger] r[k]) >= s by {
            if k > 0 {
                assert(r[k] == t[k - 1]);
            }
        }
        if first_below(r, scores, s) < r.len() {
            assert(r[first_below(r, scores, s) as int] == t[first_below(t, scores, s) as int]);
        }
    }
}

proof fn lemma_ranking_upto(scores: Seq<Option<i64>>, n: nat)
    requires
        n <= scores.len() <= usize::MAX,
    ensures
        ({
            let r = ranking_upto(scores, n);
            &&& forall|k: int| 0 <= k < r.len() ==> (#[trigger] r[k] as int) < n && scores[r[k] as int] is Some
            &&& forall|i: int| 0 <= i < n && scores[i] is Some ==> r.contains(i as usize)
            &&& forall|k: int, l: int| 0 <= k < l < r.len() ==> ranks_before(scores, #[trigger] r[k], #[trigger] r[l])
        }),
    decreases n,
{
    if n > 0 {
        let m = (n - 1) as nat;
        lemma_ranking_upto(scores, m);
        let r = ranking_upto(scores, m);
        match scores[m as int] {
            Some(s) => {
                let i = m as usize;
                let p = first_below(r, scores, s) as int;
                lemma_first_below_bounds(r, scores, s);
                r.insert_ensures(p, i);
                let q = r.insert(p, i);
                assert(q == ranking_upto(scores, n));
                assert(score_of(scores, i) == s);
                // items after the insertion point score below s
                assert forall|k: int| p <= k < r.len() implies score_of(scores, #[trigger] r[k]) < s by {
                    if k > p {
                        assert(ranks_before(scores, r[p], r[k]));
                    }
                }
                assert forall|k: int| 0 <= k < q.len() implies (#[trigger] q[k] as int) < n && scores[q[k] as int] is Some by {
                    if k < p {
                        assert(q[k] == r[k]);
                    } else if k > p {
                        assert(q[k] == r[k - 1]);
                    }
                }
                assert forall|j: int| 0 <= j < n && scores[j] is Some implies q.contains(j as usize) by {
                    if j < m {
                        assert(r.contains(j as usize));
                        let k = choose|k: int| 0 <= k < r.len() && r[k] == j as usize;
                        if k < p {
                            assert(q[k] == r[k]);
                        } else {
                            assert(q[k + 1] == r[k]);
                        }
                    } else {
                        assert(q[p] == i);
                    }
                }
                assert forall|k: int, l: int| 0 <= k < l < q.len() implies ranks_before(scores, #[trigger] q[k], #[trigger] q[l]) by {
                    if l < p {
                        assert(q[k] == r[k] && q[l] == r[l]);
                    } else if l == p {
                        assert(q[k] == r[k]);
                        assert((r[k] as int) < m);
                    } else if k < p {
                        assert(q[k] == r[k] && q[l] == r[l - 1]);
                    } else if k == p {
                        assert(q[l] == r[l - 1]);
                    } else {
                        assert(q[k] == r[k - 1] && q[l] == r[l - 1]);
                    }
                }
            },
            None => {
                assert forall|j: int| 0 <= j < n && scores[j] is Some implies r.contains(j as usize) by {
                    assert(j < m);
                }
            },
        }
    }
}

/// The ranking lists exactly the matching items, each once, best first: higher scores first,
/// and earlier items first among equal scores.
pub proof fn lemma_ranking_is_ranking(scores: Seq<Option<i64>>)
    requires
        scores.len() <= usize::MAX,
    ensures
        is_ranking(ranking(scores), scores),
{
    lemma_ranking_upto(scores, scores.len());
}

/// The items that matched (those with a score), best first: higher scores first, and among
/// equal scores the earlier item first.
pub fn rank_matches(scores: &[Option<i64>]) -> (r: Vec<usize>)
    ensures
        r@ == ranking(scores@),
{
    let n = scores.len();
    let mut r: Vec<usize> = Vec::new();
    let mut rs: Vec<i64> = Vec::new();
    let mut i: usize = 0;
    while i < n
        invariant
            i <= n == scores@.len(),
            r@ == ranking_upto(scores@, i as nat),
            rs@.len() == r@.len(),
            forall|k: int| 0 <= k < r@.len() ==> #[trigger] rs@[k] == score_of(scores@, r@[k]),
        decreases n - i,
    {
        match scores[i] {
            Some(s) => {
                let mut p: usize = 0;
                while p < r.len() && rs[p] >= s
                    invariant
                        p <= r@.len() == rs@.len(),
                        forall|k: int| 0 <= k < r@.len() ==> #[trigger] rs@[k] == score_of(scores@, r@[k]),
                        forall|k: int| 0 <= k < p ==> score_of(scores@, #[trigger] r@[k]) >= s,
                    decreases r@.len() - p,
                {
                    assert(rs@[p as int] == score_of(scores@, r@[p as int]));
                    p = p + 1;
                }
                proof {
                    if p < r@.len() {
                        assert(rs@[p as int] == score_of(scores@, r@[p as int]));
                    }
                    lemma_first_below(r@, scores@, s, p as int);
                }
                let ghost old_r = r@;
                let ghost old_rs = rs@;
                r.insert(p, i);
                rs.insert(p, s);
                proof {
                    old_r.insert_ensures(p as int, i);
                    old_rs.insert_ensures(p as int, s);
                    assert forall|k: int| 0 <= k < r@.len() implies #[trigger] rs@[k] == score_of(scores@, r@[k]) by {
                        if k < p {
                        } else if k == p {
                        } else {
                            assert(rs@[k] == old_rs[k - 1]);
                            assert(r@[k] == old_r[k - 1]);
                        }
                    }
                }
            },
            None => {},
        }
        i = i + 1;
    }
    r
}

} // verus!
