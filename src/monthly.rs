use vstd::prelude::*;

use crate::calendar::{month_name, month_name_rank, month_name_rank_spec, month_name_spec};
use crate::model::{field_max, FuelEntry, Ratio, User, MAX_RECORDS};
use crate::ranking::{is_rank_order, lemma_ranks_ge_whole, lists, rank_order, ranks_ge};

verus! {

/// One dated amount: the calendar month it falls in, a cost and litres.
#[derive(Clone, Copy, Debug, PartialEq, Eq, Structural)]
pub struct Sample {
    pub year: i32,
    pub month: u32,
    pub cost: u32,
    pub liters: u32,
}

/// Count and sums of the samples of one calendar month.
#[derive(Clone, Copy, Debug, PartialEq, Eq, Structural)]
pub struct MonthTally {
    pub year: i32,
    pub month: u32,
    pub count: u32,
    pub cost: u64,
    pub liters: u64,
}

pub open spec fn in_month(x: Sample, y: int, m: int) -> bool {
    x.year == y && x.month == m
}

/// Number of samples in month `m` of year `y`.
pub open spec fn month_count(s: Seq<Sample>, y: int, m: int) -> int
    decreases s.len(),
{
    if s.len() == 0 {
        0
    } else {
        month_count(s.drop_last(), y, m) + if in_month(s.last(), y, m) { 1int } else { 0int }
    }
}

/// Cost of the samples in month `m` of year `y`.
pub open spec fn month_cost(s: Seq<Sample>, y: int, m: int) -> int
    decreases s.len(),
{
    if s.len() == 0 {
        0
    } else {
        month_cost(s.drop_last(), y, m) + if in_month(s.last(), y, m) { s.last().cost as int } else { 0int }
    }
}

/// Litres of the samples in month `m` of year `y`.
pub open spec fn month_liters(s: Seq<Sample>, y: int, m: int) -> int
    decreases s.len(),
{
    if s.len() == 0 {
        0
    } else {
        month_liters(s.drop_last(), y, m) + if in_month(s.last(), y, m) { s.last().liters as int } else { 0int }
    }
}

pub open spec fn tally_fits(s: Seq<Sample>, t: MonthTally) -> bool {
    &&& t.count == month_count(s, t.year as int, t.month as int)
    &&& t.cost == month_cost(s, t.year as int, t.month as int)
    &&& t.liters == month_liters(s, t.year as int, t.month as int)
    &&& t.count > 0
}

pub open spec fn same_month(a: MonthTally, b: MonthTally) -> bool {
    a.year == b.year && a.month == b.month
}

/// Some tally of `t` is for the month of `x`.
pub open spec fn covers(t: Seq<MonthTally>, x: Sample) -> bool {
    exists|i: int| 0 <= i < t.len() && t[i].year == x.year && t[i].month == x.month
}

/// `t` holds one correct tally for each month that occurs in `s`, and no
/// other.
pub open spec fn is_month_table(s: Seq<Sample>, t: Seq<MonthTally>) -> bool {
    &&& forall|i: int| 0 <= i < t.len() ==> tally_fits(s, #[trigger] t[i])
    &&& forall|i: int, j: int| 0 <= i < j < t.len() ==> !same_month(#[trigger] t[i], #[trigger] t[j])
    &&& forall|k: int| 0 <= k < s.len() ==> covers(t, #[trigger] s[k])
}

/// Sort key of a month label: the year, then the month's name alphabetically.
pub open spec fn label_key(t: MonthTally) -> int {
    (t.year + 0x8000_0000) * 16 + month_name_rank_spec(t.month as int)
}

/// Tallies from the latest year down, months by name from the end of the
/// alphabet.
pub open spec fn label_sorted(t: Seq<MonthTally>) -> bool {
    forall|i: int, j: int| 0 <= i < j < t.len() ==> label_key(#[trigger] t[i]) >= label_key(#[trigger] t[j])
}

/// Sum of the counts of `t`.
pub open spec fn tally_count_sum(t: Seq<MonthTally>) -> int
    decreases t.len(),
{
    if t.len() == 0 {
        0
    } else {
        tally_count_sum(t.drop_last()) + t.last().count
    }
}

/// Sum over the tallies of `t` of the samples of `s` in each one's month.
pub open spec fn count_over(s: Seq<Sample>, t: Seq<MonthTally>) -> int
    decreases t.len(),
{
    if t.len() == 0 {
        0
    } else {
        count_over(s, t.drop_last()) + month_count(s, t.last().year as int, t.last().month as int)
    }
}

/// Number of tallies of `t` for month `m` of year `y`.
pub open spec fn hits(t: Seq<MonthTally>, y: int, m: int) -> int
    decreases t.len(),
{
    if t.len() == 0 {
        0
    } else {
        hits(t.drop_last(), y, m) + if t.last().year == y && t.last().month == m { 1int } else { 0int }
    }
}

proof fn lemma_month_bounds(s: Seq<Sample>, y: int, m: int)
    ensures
        0 <= month_count(s, y, m) <= s.len(),
        0 <= month_cost(s, y, m) <= month_count(s, y, m) * field_max(),
        0 <= month_liters(s, y, m) <= month_count(s, y, m) * field_max(),
    decreases s.len(),
{
    if s.len() > 0 {
        lemma_month_bounds(s.drop_last(), y, m);
    }
}

proof fn lemma_no_hits(t: Seq<MonthTally>, y: int, m: int)
    requires
        forall|i: int| 0 <= i < t.len() ==> !(#[trigger] t[i].year == y && t[i].month == m),
    ensures
        hits(t, y, m) == 0,
    decreases t.len(),
{
    if t.len() > 0 {
        lemma_no_hits(t.drop_last(), y, m);
    }
}

proof fn lemma_one_hit(t: Seq<MonthTally>, x: Sample)
    requires
        forall|i: int, j: int| 0 <= i < j < t.len() ==> !same_month(#[trigger] t[i], #[trigger] t[j]),
        covers(t, x),
    ensures
        hits(t, x.year as int, x.month as int) == 1,
    decreases t.len(),
{
    let n = t.len() - 1;
    if t.last().year == x.year && t.last().month == x.month {
        assert forall|i: int| 0 <= i < t.drop_last().len() implies !(#[trigger] t.drop_last()[i].year == x.year
            && t.drop_last()[i].month == x.month) by {
            assert(!same_month(t[i], t[n]));
        }
        lemma_no_hits(t.drop_last(), x.year as int, x.month as int);
    } else {
        let w = choose|i: int| 0 <= i < t.len() && t[i].year == x.year && t[i].month == x.month;
        assert(t.drop_last()[w].year == x.year && t.drop_last()[w].month == x.month);
        lemma_one_hit(t.drop_last(), x);
    }
}

proof fn lemma_count_over_step(s: Seq<Sample>, t: Seq<MonthTally>)
    requires
        s.len() > 0,
    ensures
        count_over(s, t) == count_over(s.drop_last(), t) + hits(t, s.last().year as int, s.last().month as int),
    decreases t.len(),
{
    if t.len() > 0 {
        lemma_count_over_step(s, t.drop_last());
    }
}

proof fn lemma_count_over_total(s: Seq<Sample>, t: Seq<MonthTally>)
    requires
        forall|i: int, j: int| 0 <= i < j < t.len() ==> !same_month(#[trigger] t[i], #[trigger] t[j]),
        forall|k: int| 0 <= k < s.len() ==> covers(t, #[trigger] s[k]),
    ensures
        count_over(s, t) == s.len(),
    decreases s.len(),
{
    if s.len() > 0 {
        let s2 = s.drop_last();
        assert forall|k: int| 0 <= k < s2.len() implies covers(t, #[trigger] s2[k]) by {
            assert(covers(t, s[k]));
        }
        lemma_count_over_total(s2, t);
        lemma_count_over_step(s, t);
        assert(covers(t, s[s.len() - 1]));
        lemma_one_hit(t, s.last());
    } else {
        lemma_count_over_empty(s, t);
    }
}

proof fn lemma_count_over_empty(s: Seq<Sample>, t: Seq<MonthTally>)
    requires
        s.len() == 0,
    ensures
        count_over(s, t) == 0,
    decreases t.len(),
{
    if t.len() > 0 {
        lemma_count_over_empty(s, t.drop_last());
    }
}

proof fn lemma_tally_sum_is_count_over(s: Seq<Sample>, t: Seq<MonthTally>)
    requires
        forall|i: int| 0 <= i < t.len() ==> tally_fits(s, #[trigger] t[i]),
    ensures
        tally_count_sum(t) == count_over(s, t),
    decreases t.len(),
{
    if t.len() > 0 {
        let t2 = t.drop_last();
        assert forall|i: int| 0 <= i < t2.len() implies tally_fits(s, #[trigger] t2[i]) by {
            assert(tally_fits(s, t[i]));
        }
        lemma_tally_sum_is_count_over(s, t2);
        assert(tally_fits(s, t[t.len() - 1]));
    }
}

/// Every sample is counted in exactly one month: the counts of a month
/// table add up to the number of samples.
pub proof fn lemma_month_counts_total(s: Seq<Sample>, t: Seq<MonthTally>)
    requires
        is_month_table(s, t),
    ensures
        tally_count_sum(t) == s.len(),
{
    lemma_tally_sum_is_count_over(s, t);
    lemma_count_over_total(s, t);
}

/// Every sample falls in a real month.
pub open spec fn real_months(s: Seq<Sample>) -> bool {
    forall|k: int| 0 <= k < s.len() ==> 1 <= (#[trigger] s[k]).month <= 12
}

proof fn lemma_label_key_injective(a: MonthTally, b: MonthTally)
    requires
        1 <= a.month <= 12,
        1 <= b.month <= 12,
        label_key(a) == label_key(b),
    ensures
        same_month(a, b),
{
    let (ra, rb) = (month_name_rank_spec(a.month as int), month_name_rank_spec(b.month as int));
    assert(0 <= ra < 16 && 0 <= rb < 16);
    let (ya, yb) = (a.year + 0x8000_0000, b.year + 0x8000_0000);
    assert(ya * 16 + ra == yb * 16 + rb);
    assert(ya == yb) by (nonlinear_arith)
        requires ya * 16 + ra == yb * 16 + rb, 0 <= ra < 16, 0 <= rb < 16;
}

proof fn lemma_table_months_real(s: Seq<Sample>, t: Seq<MonthTally>, i: int)
    requires
        is_month_table(s, t),
        real_months(s),
        0 <= i < t.len(),
    ensures
        1 <= t[i].month <= 12,
        exists|k: int| 0 <= k < s.len() && in_month(s[k], t[i].year as int, t[i].month as int),
{
    assert(tally_fits(s, t[i]));
    lemma_month_present(s, t[i].year as int, t[i].month as int);
    let k = choose|k: int| 0 <= k < s.len() && in_month(s[k], t[i].year as int, t[i].month as int);
    assert(1 <= s[k].month <= 12);
}

/// Every tally of `t1` has a tally of `t2` with the same label key.
proof fn lemma_table_keys_found(s: Seq<Sample>, t1: Seq<MonthTally>, t2: Seq<MonthTally>, i: int)
    requires
        is_month_table(s, t1),
        is_month_table(s, t2),
        real_months(s),
        0 <= i < t1.len(),
    ensures
        exists|j: int| 0 <= j < t2.len() && same_month(#[trigger] t2[j], t1[i]),
{
    lemma_table_months_real(s, t1, i);
    let k = choose|k: int| 0 <= k < s.len() && in_month(s[k], t1[i].year as int, t1[i].month as int);
    assert(covers(t2, s[k]));
    let j = choose|j: int| 0 <= j < t2.len() && t2[j].year == s[k].year && t2[j].month == s[k].month;
    assert(same_month(t2[j], t1[i]));
}

proof fn lemma_strictly_sorted(s: Seq<Sample>, t: Seq<MonthTally>)
    requires
        is_month_table(s, t),
        label_sorted(t),
        real_months(s),
    ensures
        forall|i: int, j: int| 0 <= i < j < t.len() ==> label_key(#[trigger] t[i]) > label_key(#[trigger] t[j]),
{
    assert forall|i: int, j: int| 0 <= i < j < t.len() implies label_key(#[trigger] t[i]) > label_key(#[trigger] t[j]) by {
        lemma_table_months_real(s, t, i);
        lemma_table_months_real(s, t, j);
        if label_key(t[i]) == label_key(t[j]) {
            lemma_label_key_injective(t[i], t[j]);
        }
    }
}

proof fn lemma_tables_agree_upto(s: Seq<Sample>, t1: Seq<MonthTally>, t2: Seq<MonthTally>, n: int)
    requires
        is_month_table(s, t1),
        is_month_table(s, t2),
        label_sorted(t1),
        label_sorted(t2),
        real_months(s),
        0 <= n <= t1.len(),
        0 <= n <= t2.len(),
    ensures
        forall|i: int| 0 <= i < n ==> same_month(#[trigger] t1[i], t2[i]),
    decreases n,
{
    if n > 0 {
        lemma_tables_agree_upto(s, t1, t2, n - 1);
        lemma_strictly_sorted(s, t1);
        lemma_strictly_sorted(s, t2);
        let i = n - 1;
        lemma_table_keys_found(s, t1, t2, i);
        let j = choose|j: int| 0 <= j < t2.len() && same_month(#[trigger] t2[j], t1[i]);
        lemma_table_keys_found(s, t2, t1, i);
        let m = choose|m: int| 0 <= m < t1.len() && same_month(#[trigger] t1[m], t2[i]);
        if j < i {
            assert(same_month(t1[j], t2[j]));
            assert(label_key(t1[j]) > label_key(t1[i]));
        }
        if m < i {
            assert(same_month(t1[m], t2[m]));
            assert(label_key(t2[m]) > label_key(t2[i]));
        }
        if j > i {
            assert(label_key(t2[i]) > label_key(t2[j]));
            if m > i {
                assert(label_key(t1[i]) > label_key(t1[m]));
            }
        }
    }
}

/// Two month tables of the same samples, both in label order, are the same
/// table when every sample falls in a real month.
pub proof fn lemma_month_table_unique(s: Seq<Sample>, t1: Seq<MonthTally>, t2: Seq<MonthTally>)
    requires
        is_month_table(s, t1),
        is_month_table(s, t2),
        label_sorted(t1),
        label_sorted(t2),
        real_months(s),
    ensures
        t1 == t2,
{
    lemma_strictly_sorted(s, t1);
    lemma_strictly_sorted(s, t2);
    if t1.len() > t2.len() {
        lemma_tables_agree_upto(s, t1, t2, t2.len() as int);
        let i = t2.len() as int;
        lemma_table_keys_found(s, t1, t2, i);
        let j = choose|j: int| 0 <= j < t2.len() && same_month(#[trigger] t2[j], t1[i]);
        assert(same_month(t1[j], t2[j]));
        assert(label_key(t1[j]) > label_key(t1[i]));
    } else if t2.len() > t1.len() {
        lemma_tables_agree_upto(s, t1, t2, t1.len() as int);
        let i = t1.len() as int;
        lemma_table_keys_found(s, t2, t1, i);
        let j = choose|j: int| 0 <= j < t1.len() && same_month(#[trigger] t1[j], t2[i]);
        assert(same_month(t1[j], t2[j]));
        assert(label_key(t2[j]) > label_key(t2[i]));
    } else {
        lemma_tables_agree_upto(s, t1, t2, t1.len() as int);
        assert forall|i: int| 0 <= i < t1.len() implies t1[i] == t2[i] by {
            assert(same_month(t1[i], t2[i]));
            assert(tally_fits(s, t1[i]));
            assert(tally_fits(s, t2[i]));
        }
        assert(t1 =~= t2);
    }
}

/// The tallies of the months of `samples`, in first-seen order.
fn tally_unsorted(samples: &Vec<Sample>) -> (t: Vec<MonthTally>)
    requires
        samples.len() <= MAX_RECORDS,
    ensures
        is_month_table(samples@, t@),
{
    let n = samples.len();
    let mut t: Vec<MonthTally> = Vec::new();
    let mut i: usize = 0;
    while i < n
        invariant
            i <= n,
            n == samples.len(),
            n <= MAX_RECORDS,
            forall|q: int| 0 <= q < t.len() ==> tally_fits(samples@.take(i as int), #[trigger] t@[q]),
            forall|a: int, b: int| 0 <= a < b < t.len() ==> !same_month(#[trigger] t@[a], #[trigger] t@[b]),
            forall|k: int| 0 <= k < i ==> covers(t@, #[trigger] samples@[k]),
        decreases n - i,
    {
        let x = samples[i];
        let ghost s0 = samples@.take(i as int);
        let ghost s1 = samples@.take(i + 1);
        proof {
            assert(s1.drop_last() =~= s0);
            assert(s1.last() == x);
        }
        let mut k: usize = 0;
        loop
            invariant
                k <= t.len(),
                forall|q: int| 0 <= q < k ==> !(#[trigger] t@[q].year == x.year && t@[q].month == x.month),
            ensures
                k <= t.len(),
                forall|q: int| 0 <= q < k ==> !(#[trigger] t@[q].year == x.year && t@[q].month == x.month),
                k < t.len() ==> t@[k as int].year == x.year && t@[k as int].month == x.month,
            decreases t.len() - k,
        {
            if k == t.len() {
                break;
            }
            if t[k].year == x.year && t[k].month == x.month {
                break;
            }
            k = k + 1;
        }
        let ghost old_t = t@;
        proof {
            assert forall|q: int| 0 <= q < old_t.len() implies #[trigger] month_count(s1, old_t[q].year as int, old_t[q].month as int)
                == month_count(s0, old_t[q].year as int, old_t[q].month as int)
                    + if in_month(x, old_t[q].year as int, old_t[q].month as int) { 1int } else { 0int } by {}
            lemma_month_bounds(s0, x.year as int, x.month as int);
            lemma_month_bounds(s1, x.year as int, x.month as int);
        }
        if k < t.len() {
            let old = t[k];
            proof {
                assert(tally_fits(s0, old));
            }
            t.set(k, MonthTally {
                year: old.year,
                month: old.month,
                count: old.count + 1,
                cost: old.cost + x.cost as u64,
                liters: old.liters + x.liters as u64,
            });
            proof {
                assert forall|q: int| 0 <= q < t.len() implies tally_fits(s1, #[trigger] t@[q]) by {
                    assert(tally_fits(s0, old_t[q]));
                    if q != k {
                        assert(old_t[q].year != x.year || old_t[q].month != x.month);
                    }
                }
                assert forall|c: int| 0 <= c < i + 1 implies covers(t@, #[trigger] samples@[c]) by {
                    if c < i {
                        assert(covers(old_t, samples@[c]));
                        let w = choose|w: int| 0 <= w < old_t.len() && old_t[w].year == samples@[c].year
                            && old_t[w].month == samples@[c].month;
                        assert(t@[w].year == old_t[w].year && t@[w].month == old_t[w].month);
                    } else {
                        assert(t@[k as int].year == x.year && t@[k as int].month == x.month);
                    }
                }
            }
        } else {
            t.push(MonthTally { year: x.year, month: x.month, count: 1, cost: x.cost as u64, liters: x.liters as u64 });
            proof {
                assert(month_count(s0, x.year as int, x.month as int) == 0) by {
                    if month_count(s0, x.year as int, x.month as int) > 0 {
                        lemma_month_present(s0, x.year as int, x.month as int);
                        let c = choose|c: int| 0 <= c < s0.len() && in_month(s0[c], x.year as int, x.month as int);
                        assert(samples@[c] == s0[c]);
                        assert(covers(old_t, samples@[c]));
                    }
                }
                lemma_month_bounds(s0, x.year as int, x.month as int);
                assert forall|q: int| 0 <= q < t.len() implies tally_fits(s1, #[trigger] t@[q]) by {
                    if q < old_t.len() {
                        assert(tally_fits(s0, old_t[q]));
                        assert(old_t[q].year != x.year || old_t[q].month != x.month);
                    }
                }
                assert forall|c: int| 0 <= c < i + 1 implies covers(t@, #[trigger] samples@[c]) by {
                    if c < i {
                        assert(covers(old_t, samples@[c]));
                        let w = choose|w: int| 0 <= w < old_t.len() && old_t[w].year == samples@[c].year
                            && old_t[w].month == samples@[c].month;
                        assert(t@[w] == old_t[w]);
                    } else {
                        assert(t@[old_t.len() as int] == t@.last());
                    }
                }
            }
        }
        i = i + 1;
    }
    proof {
        assert(samples@.take(n as int) =~= samples@);
    }
    t
}

proof fn lemma_month_present(s: Seq<Sample>, y: int, m: int)
    requires
        month_count(s, y, m) > 0,
    ensures
        exists|c: int| 0 <= c < s.len() && in_month(s[c], y, m),
    decreases s.len(),
{
    if !in_month(s.last(), y, m) {
        lemma_month_present(s.drop_last(), y, m);
        let c = choose|c: int| 0 <= c < s.drop_last().len() && in_month(s.drop_last()[c], y, m);
        assert(s[c] == s.drop_last()[c]);
    } else {
        assert(in_month(s[s.len() - 1], y, m));
    }
}

/// The tallies of the months of `samples`: one for each month that occurs,
/// ordered by year descending, then by month name descending.
pub fn tally_months(samples: &Vec<Sample>) -> (r: Vec<MonthTally>)
    requires
        samples.len() <= MAX_RECORDS,
    ensures
        is_month_table(samples@, r@),
        label_sorted(r@),
        tally_count_sum(r@) == samples.len(),
{
    let t = tally_unsorted(samples);
    let mut keys: Vec<Ratio> = Vec::new();
    let mut i: usize = 0;
    while i < t.len()
        invariant
            i <= t.len(),
            keys.len() == i,
            forall|q: int| 0 <= q < i ==> (#[trigger] keys@[q]).num == label_key(t@[q]) && keys@[q].den == 1,
        decreases t.len() - i,
    {
        let rank = month_name_rank(t[i].month);
        let key = ((t[i].year as i64 + 0x8000_0000i64) as u128) * 16 + rank as u128;
        keys.push(Ratio::of(key, 1));
        i = i + 1;
    }
    let p = rank_order(&keys);
    let mut r: Vec<MonthTally> = Vec::new();
    let mut i: usize = 0;
    while i < p.len()
        invariant
            i <= p.len(),
            is_rank_order(keys@, p@),
            keys.len() == t.len(),
            r.len() == i,
            forall|q: int| 0 <= q < i ==> r@[q] == t@[#[trigger] p@[q] as int],
        decreases p.len() - i,
    {
        r.push(t[p[i]]);
        i = i + 1;
    }
    proof {
        assert forall|a: int| 0 <= a < r.len() implies tally_fits(samples@, #[trigger] r@[a]) by {
            assert(tally_fits(samples@, t@[p@[a] as int]));
        }
        assert forall|a: int, b: int| 0 <= a < b < r.len() implies !same_month(#[trigger] r@[a], #[trigger] r@[b]) by {
            let (x, y) = (p@[a] as int, p@[b] as int);
            assert(x != y);
            if x < y {
                assert(!same_month(t@[x], t@[y]));
            } else {
                assert(!same_month(t@[y], t@[x]));
            }
        }
        assert forall|c: int| 0 <= c < samples.len() implies covers(r@, #[trigger] samples@[c]) by {
            assert(covers(t@, samples@[c]));
            let w = choose|w: int| 0 <= w < t@.len() && t@[w].year == samples@[c].year && t@[w].month == samples@[c].month;
            assert(lists(p@, w));
            let a = choose|a: int| 0 <= a < p@.len() && p@[a] == w;
            assert(r@[a] == t@[w]);
        }
        assert forall|a: int, b: int| 0 <= a < b < r.len() implies label_key(#[trigger] r@[a]) >= label_key(#[trigger] r@[b]) by {
            let (x, y) = (p@[a] as int, p@[b] as int);
            assert(ranks_ge(keys@[x], keys@[y]));
            lemma_ranks_ge_whole(keys@[x], keys@[y]);
        }
        lemma_month_counts_total(samples@, r@);
    }
    r
}

/// Entries of one calendar month.
#[derive(Clone, Debug)]
pub struct MonthlyStats {
    pub month: String,
    pub month_number: u32,
    pub year: i32,
    pub total_entries: u32,
    pub total_cost: u64,
    pub total_liters: u64,
    pub average_price: Ratio,
}

/// Sign-ups of one calendar month.
#[derive(Clone, Debug)]
pub struct UserRegistrationStats {
    pub month: String,
    pub month_number: u32,
    pub year: i32,
    pub new_users: u32,
}

pub open spec fn entry_sample(e: FuelEntry) -> Sample {
    Sample { year: e.date_time.year, month: e.date_time.month, cost: e.total_cost, liters: e.liters }
}

pub open spec fn entry_samples(s: Seq<FuelEntry>) -> Seq<Sample> {
    s.map_values(|e: FuelEntry| entry_sample(e))
}

pub open spec fn signup_sample(u: User) -> Sample {
    Sample { year: u.created_at.year, month: u.created_at.month, cost: 0, liters: 0 }
}

pub open spec fn signup_samples(s: Seq<User>) -> Seq<Sample> {
    s.map_values(|u: User| signup_sample(u))
}

/// Cost over litres, 0 when there are no litres.
pub open spec fn price_ratio(cost: int, liters: int) -> Ratio {
    if liters > 0 {
        Ratio { num: cost as u128, den: liters as u128 }
    } else {
        Ratio { num: 0, den: 1 }
    }
}

pub open spec fn monthly_tally(r: MonthlyStats) -> MonthTally {
    MonthTally { year: r.year, month: r.month_number, count: r.total_entries, cost: r.total_cost, liters: r.total_liters }
}

pub open spec fn monthly_tallies(r: Seq<MonthlyStats>) -> Seq<MonthTally> {
    r.map_values(|x: MonthlyStats| monthly_tally(x))
}

pub open spec fn signup_tally(r: UserRegistrationStats) -> MonthTally {
    MonthTally { year: r.year, month: r.month_number, count: r.new_users, cost: 0, liters: 0 }
}

pub open spec fn signup_tallies(r: Seq<UserRegistrationStats>) -> Seq<MonthTally> {
    r.map_values(|x: UserRegistrationStats| signup_tally(x))
}

/// `r` is the monthly statistics of `entries`.
pub open spec fn monthly_fits(entries: Seq<FuelEntry>, r: Seq<MonthlyStats>) -> bool {
    &&& (is_month_table(entry_samples(entries), monthly_tallies(r)))
    &&& (label_sorted(monthly_tallies(r)))
    &&& (tally_count_sum(monthly_tallies(r)) == entries.len())
    &&& (forall|i: int| 0 <= i < r.len() ==> (#[trigger] r[i]).month@ == month_name_spec(r[i].month_number as int)
            && r[i].average_price == price_ratio(r[i].total_cost as int, r[i].total_liters as int))
}

/// Per-month statistics of the entries: one row per calendar month that has
/// entries, latest year first and, within a year, months by name from the
/// end of the alphabet. The rows' entry counts add up to the number of
/// entries.
pub fn get_monthly_stats(entries: &Vec<FuelEntry>) -> (r: Vec<MonthlyStats>)
    requires
        entries.len() <= MAX_RECORDS,
    ensures
        monthly_fits(entries@, r@),
{
    let mut samples: Vec<Sample> = Vec::new();
    let mut i: usize = 0;
    while i < entries.len()
        invariant
            i <= entries.len(),
            samples.len() == i,
            forall|q: int| 0 <= q < i ==> #[trigger] samples@[q] == entry_sample(entries@[q]),
        decreases entries.len() - i,
    {
        let e = &entries[i];
        samples.push(Sample { year: e.date_time.year, month: e.date_time.month, cost: e.total_cost, liters: e.liters });
        i = i + 1;
    }
    assert(samples@ =~= entry_samples(entries@));
    let t = tally_months(&samples);
    let mut r: Vec<MonthlyStats> = Vec::new();
    let mut i: usize = 0;
    while i < t.len()
        invariant
            i <= t.len(),
            r.len() == i,
            forall|q: int| 0 <= q < i ==> monthly_tally(#[trigger] r@[q]) == t@[q],
            forall|q: int| 0 <= q < i ==> (#[trigger] r@[q]).month@ == month_name_spec(r@[q].month_number as int)
                && r@[q].average_price == price_ratio(r@[q].total_cost as int, r@[q].total_liters as int),
        decreases t.len() - i,
    {
        let x = t[i];
        let average_price = if x.liters > 0 { Ratio::of(x.cost as u128, x.liters as u128) } else { Ratio::zero() };
        r.push(MonthlyStats {
            month: month_name(x.month),
            month_number: x.month,
            year: x.year,
            total_entries: x.count,
            total_cost: x.cost,
            total_liters: x.liters,
            average_price,
        });
        i = i + 1;
    }
    assert(monthly_tallies(r@) =~= t@);
    r
}

/// `r` is the monthly sign-up statistics of `users`.
pub open spec fn registrations_fit(users: Seq<User>, r: Seq<UserRegistrationStats>) -> bool {
    &&& (is_month_table(signup_samples(users), signup_tallies(r)))
    &&& (label_sorted(signup_tallies(r)))
    &&& (tally_count_sum(signup_tallies(r)) == users.len())
    &&& (forall|i: int| 0 <= i < r.len() ==> (#[trigger] r[i]).month@ == month_name_spec(r[i].month_number as int))
}

/// New users per calendar month of sign-up: one row per month that has
/// sign-ups, in the order of `get_monthly_stats`.
pub fn get_user_registration_stats(users: &Vec<User>) -> (r: Vec<UserRegistrationStats>)
    requires
        users.len() <= MAX_RECORDS,
    ensures
        registrations_fit(users@, r@),
{
    let mut samples: Vec<Sample> = Vec::new();
    let mut i: usize = 0;
    while i < users.len()
        invariant
            i <= users.len(),
            samples.len() == i,
            forall|q: int| 0 <= q < i ==> #[trigger] samples@[q] == signup_sample(users@[q]),
        decreases users.len() - i,
    {
        let u = &users[i];
        samples.push(Sample { year: u.created_at.year, month: u.created_at.month, cost: 0, liters: 0 });
        i = i + 1;
    }
    assert(samples@ =~= signup_samples(users@));
    let t = tally_months(&samples);
    proof {
        assert forall|q: int| 0 <= q < t.len() implies (#[trigger] t@[q]).cost == 0 && t@[q].liters == 0 by {
            assert(tally_fits(samples@, t@[q]));
            lemma_zero_amounts(samples@, t@[q].year as int, t@[q].month as int);
        }
    }
    let mut r: Vec<UserRegistrationStats> = Vec::new();
    let mut i: usize = 0;
    while i < t.len()
        invariant
            i <= t.len(),
            r.len() == i,
            forall|q: int| 0 <= q < t.len() ==> (#[trigger] t@[q]).cost == 0 && t@[q].liters == 0,
            forall|q: int| 0 <= q < i ==> signup_tally(#[trigger] r@[q]) == t@[q],
            forall|q: int| 0 <= q < i ==> (#[trigger] r@[q]).month@ == month_name_spec(r@[q].month_number as int),
        decreases t.len() - i,
    {
        let x = t[i];
        r.push(UserRegistrationStats { month: month_name(x.month), month_number: x.month, year: x.year, new_users: x.count });
        i = i + 1;
    }
    assert(signup_tallies(r@) =~= t@);
    r
}

proof fn lemma_zero_amounts(s: Seq<Sample>, y: int, m: int)
    requires
        forall|k: int| 0 <= k < s.len() ==> (#[trigger] s[k]).cost == 0 && s[k].liters == 0,
    ensures
        month_cost(s, y, m) == 0,
        month_liters(s, y, m) == 0,
    decreases s.len(),
{
    if s.len() > 0 {
        let s2 = s.drop_last();
        assert forall|k: int| 0 <= k < s2.len() implies (#[trigger] s2[k]).cost == 0 && s2[k].liters == 0 by {
            assert(s[k] == s2[k]);
        }
        lemma_zero_amounts(s2, y, m);
        assert(s[s.len() - 1] == s.last());
    }
}

} // verus!
