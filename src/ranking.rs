use vstd::prelude::*;

use crate::model::Ratio;

verus! {

/// A sort key that cross-multiplies within `u128`.
pub open spec fn fits_key(k: Ratio) -> bool {
    k.num < 0x1_0000_0000_0000_0000 && 0 < k.den < 0x1_0000_0000_0000_0000
}

/// `a.num / a.den >= b.num / b.den`.
pub open spec fn ranks_ge(a: Ratio, b: Ratio) -> bool {
    a.num * b.den >= b.num * a.den
}

/// Some position of `p` holds `v`.
pub open spec fn lists(p: Seq<usize>, v: int) -> bool {
    exists|i: int| 0 <= i < p.len() && p[i] == v
}

/// `p` lists the indices of `keys` from the largest key down; equal keys keep
/// their order in `keys`.
pub open spec fn is_rank_order(keys: Seq<Ratio>, p: Seq<usize>) -> bool {
    &&& p.len() == keys.len()
    &&& forall|i: int| 0 <= i < p.len() ==> #[trigger] p[i] < keys.len()
    &&& forall|i: int, j: int| 0 <= i < j < p.len() ==> #[trigger] p[i] != #[trigger] p[j]
    &&& forall|v: int| 0 <= v < keys.len() ==> #[trigger] lists(p, v)
    &&& forall|i: int, j: int|
        0 <= i < j < p.len() ==> ranks_ge(keys[#[trigger] p[i] as int], keys[#[trigger] p[j] as int])
    &&& forall|i: int, j: int|
        0 <= i < j < p.len() && ranks_ge(keys[#[trigger] p[j] as int], keys[#[trigger] p[i] as int])
            ==> p[i] < p[j]
}

proof fn lemma_ranks_ge_trans(a: Ratio, b: Ratio, c: Ratio)
    requires
        b.den > 0,
        ranks_ge(a, b),
        ranks_ge(b, c),
    ensures
        ranks_ge(a, c),
{
    let (an, ad, bn, bd, cn, cd) = (a.num as int, a.den as int, b.num as int, b.den as int, c.num as int, c.den as int);
    assert(an * bd * cd >= bn * ad * cd) by (nonlinear_arith)
        requires an * bd >= bn * ad, cd >= 0;
    assert(bn * cd * ad >= cn * bd * ad) by (nonlinear_arith)
        requires bn * cd >= cn * bd, ad >= 0;
    assert(an * cd >= cn * ad) by (nonlinear_arith)
        requires an * bd * cd >= bn * ad * cd, bn * cd * ad >= cn * bd * ad, bd > 0;
}

pub proof fn lemma_ranks_ge_whole(a: Ratio, b: Ratio)
    requires
        a.den == 1,
        b.den == 1,
    ensures
        ranks_ge(a, b) == (a.num >= b.num),
{
}

/// Whether `a` ranks at or above `b`.
pub fn rank_ge(a: &Ratio, b: &Ratio) -> (r: bool)
    requires
        fits_key(*a),
        fits_key(*b),
    ensures
        r == ranks_ge(*a, *b),
{
    let (an, ad, bn, bd) = (a.num, a.den, b.num, b.den);
    assert(an * bd < 0x1_0000_0000_0000_0000_0000_0000_0000_0000) by (nonlinear_arith)
        requires an < 0x1_0000_0000_0000_0000u128, bd < 0x1_0000_0000_0000_0000u128;
    assert(bn * ad < 0x1_0000_0000_0000_0000_0000_0000_0000_0000) by (nonlinear_arith)
        requires bn < 0x1_0000_0000_0000_0000u128, ad < 0x1_0000_0000_0000_0000u128;
    an * bd >= bn * ad
}

/// The indices of `keys`, from the largest key down, ties in input order (a
/// stable sort).
pub fn rank_order(keys: &Vec<Ratio>) -> (p: Vec<usize>)
    requires
        forall|i: int| 0 <= i < keys.len() ==> fits_key(#[trigger] keys@[i]),
    ensures
        is_rank_order(keys@, p@),
{
    let n = keys.len();
    let mut p: Vec<usize> = Vec::new();
    let mut i: usize = 0;
    while i < n
        invariant
            i <= n,
            n == keys.len(),
            forall|t: int| 0 <= t < keys.len() ==> fits_key(#[trigger] keys@[t]),
            p.len() == i,
            forall|a: int| 0 <= a < p.len() ==> #[trigger] p@[a] < i,
            forall|a: int, b: int| 0 <= a < b < p.len() ==> #[trigger] p@[a] != #[trigger] p@[b],
            forall|v: int| 0 <= v < i ==> #[trigger] lists(p@, v),
            forall|a: int, b: int|
                0 <= a < b < p.len() ==> ranks_ge(keys@[#[trigger] p@[a] as int], keys@[#[trigger] p@[b] as int]),
            forall|a: int, b: int|
                0 <= a < b < p.len() && ranks_ge(keys@[#[trigger] p@[b] as int], keys@[#[trigger] p@[a] as int])
                    ==> p@[a] < p@[b],
        decreases n - i,
    {
        let k = keys[i];
        let mut j: usize = p.len();
        loop
            invariant
                j <= p.len(),
                p.len() == i,
                i < n,
                n == keys.len(),
                k == keys@[i as int],
                forall|t: int| 0 <= t < keys.len() ==> fits_key(#[trigger] keys@[t]),
                forall|a: int| 0 <= a < p.len() ==> #[trigger] p@[a] < i,
                forall|t: int| j <= t < p.len() ==> !ranks_ge(keys@[#[trigger] p@[t] as int], k),
            ensures
                j <= p.len(),
                j > 0 ==> ranks_ge(keys@[p@[j - 1] as int], k),
                forall|t: int| j <= t < p.len() ==> !ranks_ge(keys@[#[trigger] p@[t] as int], k),
            decreases j,
        {
            if j == 0 {
                break;
            }
            let q = p[j - 1];
            if rank_ge(&keys[q], &k) {
                break;
            }
            j = j - 1;
        }
        let ghost old_p = p@;
        p.insert(j, i);
        proof {
            assert(forall|t: int| 0 <= t < j ==> p@[t] == old_p[t]);
            assert(p@[j as int] == i);
            assert(forall|t: int| j < t < p.len() ==> p@[t] == old_p[t - 1]);
            assert forall|v: int| 0 <= v < i + 1 implies #[trigger] lists(p@, v) by {
                if v == i {
                    assert(p@[j as int] == v);
                } else {
                    assert(lists(old_p, v));
                    let a = choose|a: int| 0 <= a < old_p.len() && old_p[a] == v;
                    if a < j {
                        assert(p@[a] == v);
                    } else {
                        assert(p@[a + 1] == v);
                    }
                }
            }
            assert forall|a: int, b: int|
                0 <= a < b < p.len() implies ranks_ge(keys@[#[trigger] p@[a] as int], keys@[#[trigger] p@[b] as int]) by {
                if b == j {
                    if a < j - 1 {
                        lemma_ranks_ge_trans(keys@[old_p[a] as int], keys@[old_p[j - 1] as int], k);
                    }
                } else if a == j {
                } else if b < j {
                } else if a < j {
                    if a < j - 1 {
                        lemma_ranks_ge_trans(keys@[old_p[a] as int], keys@[old_p[j - 1] as int], k);
                    }
                    lemma_ranks_ge_trans(keys@[old_p[a] as int], k, keys@[old_p[b - 1] as int]);
                } else {
                }
            }
        }
        i = i + 1;
    }
    p
}

/// A stable ranking is unique: two rank orders of the same keys are equal.
pub proof fn lemma_rank_order_unique(keys: Seq<Ratio>, p: Seq<usize>, q: Seq<usize>)
    requires
        is_rank_order(keys, p),
        is_rank_order(keys, q),
    ensures
        p == q,
{
    assert forall|i: int| 0 <= i < p.len() implies p[i] == q[i] by {
        lemma_rank_order_agree_upto(keys, p, q, i + 1);
    }
    assert(p =~= q);
}

proof fn lemma_rank_order_agree_upto(keys: Seq<Ratio>, p: Seq<usize>, q: Seq<usize>, n: int)
    requires
        is_rank_order(keys, p),
        is_rank_order(keys, q),
        0 <= n <= p.len(),
    ensures
        forall|i: int| 0 <= i < n ==> p[i] == q[i],
    decreases n,
{
    if n > 0 {
        lemma_rank_order_agree_upto(keys, p, q, n - 1);
        let i = n - 1;
        let a = p[i];
        let b = q[i];
        if a != b {
            assert(lists(q, a as int));
            let j = choose|j: int| 0 <= j < q.len() && q[j] == a;
            assert(lists(p, b as int));
            let k = choose|k: int| 0 <= k < p.len() && p[k] == b;
            if j < i {
                assert(p[j] == q[j]);
                assert(p[j] != p[i]);
            }
            if k < i {
                assert(p[k] == q[k]);
                assert(q[k] != q[i]);
            }
            assert(j != i);
            assert(k != i);
            assert(ranks_ge(keys[q[i] as int], keys[q[j] as int]));
            assert(ranks_ge(keys[p[i] as int], keys[p[k] as int]));
            assert(p[i] < p[k]);
            assert(q[i] < q[j]);
        }
    }
}

} // verus!
