use vstd::prelude::*;

use crate::model::{
    entries_of, lemma_entries_of_len, lemma_sums_bounded, owner_totals, sum_cost, sum_liters,
    FuelEntry, Ratio, User, MAX_RECORDS,
};
use crate::ranking::{fits_key, is_rank_order, lemma_ranks_ge_whole, rank_order, ranks_ge};

verus! {

/// Most rows a ranking keeps.
pub const TOP_ROWS: usize = 10;

/// Entry count and sums of one user.
#[derive(Clone, Debug)]
pub struct UserEntryCount {
    pub user_id: String,
    pub email: String,
    pub entry_count: u32,
    pub total_cost: u64,
    pub total_liters: u64,
}

pub open spec fn min_of(a: int, b: int) -> int {
    if a <= b { a } else { b }
}

/// `r` holds the first `k` items of `items` in the order `p`.
pub open spec fn picks<T>(items: Seq<T>, p: Seq<usize>, k: int, r: Seq<T>) -> bool {
    &&& r.len() == min_of(k, p.len() as int)
    &&& forall|i: int| 0 <= i < r.len() ==> r[i] == items[#[trigger] p[i] as int]
}

/// Sort keys by total cost.
pub open spec fn cost_keys(s: Seq<FuelEntry>) -> Seq<Ratio> {
    s.map_values(|e: FuelEntry| Ratio { num: e.total_cost as u128, den: 1 })
}

/// Sort keys by time: Unix seconds shifted into the unsigned range.
pub open spec fn time_keys(s: Seq<FuelEntry>) -> Seq<Ratio> {
    s.map_values(|e: FuelEntry| Ratio { num: (e.date_time.secs + 0x8000_0000_0000_0000) as u128, den: 1 })
}

/// Sort keys by number of entries owned.
pub open spec fn count_keys(users: Seq<User>, s: Seq<FuelEntry>) -> Seq<Ratio> {
    users.map_values(|u: User| Ratio { num: entries_of(s, u.id@).len() as u128, den: 1 })
}

/// The row of one user in the ranking by entries.
pub open spec fn entry_count_row(u: User, s: Seq<FuelEntry>) -> UserEntryCount {
    UserEntryCount {
        user_id: u.id,
        email: u.email,
        entry_count: entries_of(s, u.id@).len() as u32,
        total_cost: sum_cost(entries_of(s, u.id@)) as u64,
        total_liters: sum_liters(entries_of(s, u.id@)) as u64,
    }
}

/// Total cost and total litres of all entries.
pub fn corpus_totals(entries: &Vec<FuelEntry>) -> (r: (u64, u64))
    requires
        entries.len() <= MAX_RECORDS,
    ensures
        r.0 == sum_cost(entries@),
        r.1 == sum_liters(entries@),
{
    let mut cost: u64 = 0;
    let mut liters: u64 = 0;
    let mut i: usize = 0;
    while i < entries.len()
        invariant
            i <= entries.len(),
            entries.len() <= MAX_RECORDS,
            cost == sum_cost(entries@.take(i as int)),
            liters == sum_liters(entries@.take(i as int)),
        decreases entries.len() - i,
    {
        proof {
            assert(entries@.take(i + 1).drop_last() =~= entries@.take(i as int));
            lemma_sums_bounded(entries@.take(i as int));
        }
        cost = cost + entries[i].total_cost as u64;
        liters = liters + entries[i].liters as u64;
        i = i + 1;
    }
    proof {
        assert(entries@.take(entries.len() as int) =~= entries@);
    }
    (cost, liters)
}

/// Average price per litre: total cost over total litres, 0 when no litres.
pub fn average_price_per_liter(total_cost: u64, total_liters: u64) -> (r: Ratio)
    ensures
        total_liters == 0 ==> r == (Ratio { num: 0, den: 1 }),
        total_liters > 0 ==> r == (Ratio { num: total_cost as u128, den: total_liters as u128 }),
{
    if total_liters > 0 {
        Ratio::of(total_cost as u128, total_liters as u128)
    } else {
        Ratio::zero()
    }
}

/// Copies of the first `k` items of `items` in the order `p`.
fn pick_entries(items: &Vec<FuelEntry>, p: &Vec<usize>, k: usize) -> (r: Vec<FuelEntry>)
    requires
        forall|i: int| 0 <= i < p.len() ==> #[trigger] p@[i] < items.len(),
    ensures
        picks(items@, p@, k as int, r@),
{
    let m = if k <= p.len() { k } else { p.len() };
    let mut r: Vec<FuelEntry> = Vec::new();
    let mut i: usize = 0;
    while i < m
        invariant
            i <= m,
            m == min_of(k as int, p.len() as int),
            forall|t: int| 0 <= t < p.len() ==> #[trigger] p@[t] < items.len(),
            r.len() == i,
            forall|t: int| 0 <= t < i ==> r@[t] == items@[#[trigger] p@[t] as int],
        decreases m - i,
    {
        r.push(items[p[i]].duplicate());
        i = i + 1;
    }
    r
}

/// `r` is the ten costliest entries of `entries`, costliest first.
pub open spec fn most_expensive_fit(entries: Seq<FuelEntry>, r: Seq<FuelEntry>) -> bool {
    &&& (exists|p: Seq<usize>| #[trigger] is_rank_order(cost_keys(entries), p) && picks(entries, p, 10, r))
    &&& (r.len() == min_of(10, entries.len() as int))
    &&& (forall|i: int, j: int| 0 <= i < j < r.len() ==> r[i].total_cost >= r[j].total_cost)
}

/// The ten costliest entries, costliest first; equal costs keep input order.
pub fn most_expensive_entries(entries: &Vec<FuelEntry>) -> (r: Vec<FuelEntry>)
    ensures
        most_expensive_fit(entries@, r@),
{
    let mut keys: Vec<Ratio> = Vec::new();
    let mut i: usize = 0;
    while i < entries.len()
        invariant
            i <= entries.len(),
            keys@ =~= cost_keys(entries@.take(i as int)),
        decreases entries.len() - i,
    {
        keys.push(Ratio::of(entries[i].total_cost as u128, 1));
        i = i + 1;
    }
    assert(entries@.take(entries.len() as int) =~= entries@);
    let p = rank_order(&keys);
    let r = pick_entries(entries, &p, TOP_ROWS);
    assert forall|i: int, j: int| 0 <= i < j < r.len() implies r@[i].total_cost >= r@[j].total_cost by {
        let (a, b) = (p@[i] as int, p@[j] as int);
        assert(ranks_ge(keys@[a], keys@[b]));
        lemma_ranks_ge_whole(keys@[a], keys@[b]);
        assert(keys@[a].num == entries@[a].total_cost && keys@[a].den == 1);
        assert(keys@[b].num == entries@[b].total_cost && keys@[b].den == 1);
    }
    r
}

/// `r` is the ten latest entries of `entries`, latest first.
pub open spec fn recent_fit(entries: Seq<FuelEntry>, r: Seq<FuelEntry>) -> bool {
    &&& (exists|p: Seq<usize>| #[trigger] is_rank_order(time_keys(entries), p) && picks(entries, p, 10, r))
    &&& (r.len() == min_of(10, entries.len() as int))
    &&& (forall|i: int, j: int| 0 <= i < j < r.len() ==> r[i].date_time.secs >= r[j].date_time.secs)
}

/// The ten latest entries, latest first; equal times keep input order.
pub fn recent_entries(entries: &Vec<FuelEntry>) -> (r: Vec<FuelEntry>)
    ensures
        recent_fit(entries@, r@),
{
    let mut keys: Vec<Ratio> = Vec::new();
    let mut i: usize = 0;
    while i < entries.len()
        invariant
            i <= entries.len(),
            keys@ =~= time_keys(entries@.take(i as int)),
        decreases entries.len() - i,
    {
        let shifted = (entries[i].date_time.secs as i128 + 0x8000_0000_0000_0000i128) as u128;
        keys.push(Ratio::of(shifted, 1));
        i = i + 1;
    }
    assert(entries@.take(entries.len() as int) =~= entries@);
    let p = rank_order(&keys);
    let r = pick_entries(entries, &p, TOP_ROWS);
    assert forall|i: int, j: int| 0 <= i < j < r.len() implies r@[i].date_time.secs >= r@[j].date_time.secs by {
        let (a, b) = (p@[i] as int, p@[j] as int);
        assert(ranks_ge(keys@[a], keys@[b]));
        lemma_ranks_ge_whole(keys@[a], keys@[b]);
        assert(keys@[a].num == entries@[a].date_time.secs + 0x8000_0000_0000_0000 && keys@[a].den == 1);
        assert(keys@[b].num == entries@[b].date_time.secs + 0x8000_0000_0000_0000 && keys@[b].den == 1);
    }
    r
}

/// `r` is the ten users of `users` with the most entries, most first.
pub open spec fn most_entries_fit(users: Seq<User>, entries: Seq<FuelEntry>, r: Seq<UserEntryCount>) -> bool {
    &&& (exists|p: Seq<usize>| #[trigger] is_rank_order(count_keys(users, entries), p)
            && r.len() == min_of(10, p.len() as int)
            && forall|i: int| 0 <= i < r.len() ==> r[i] == entry_count_row(users[#[trigger] p[i] as int], entries))
}

/// The ten users with the most entries, most first; equal counts keep the
/// order of `users`.
pub fn get_users_with_most_entries(users: &Vec<User>, entries: &Vec<FuelEntry>) -> (r: Vec<UserEntryCount>)
    requires
        entries.len() <= MAX_RECORDS,
    ensures
        most_entries_fit(users@, entries@, r@),
{
    let mut keys: Vec<Ratio> = Vec::new();
    let mut i: usize = 0;
    while i < users.len()
        invariant
            i <= users.len(),
            entries.len() <= MAX_RECORDS,
            keys@ =~= count_keys(users@.take(i as int), entries@),
            forall|t: int| 0 <= t < keys.len() ==> fits_key(#[trigger] keys@[t]),
        decreases users.len() - i,
    {
        let (count, _, _) = owner_totals(entries, &users[i].id);
        proof {
            lemma_entries_of_len(entries@, users@[i as int].id@);
        }
        keys.push(Ratio::of(count as u128, 1));
        i = i + 1;
    }
    assert(users@.take(users.len() as int) =~= users@);
    let p = rank_order(&keys);
    let m = if TOP_ROWS <= p.len() { TOP_ROWS } else { p.len() };
    let mut r: Vec<UserEntryCount> = Vec::new();
    let mut i: usize = 0;
    while i < m
        invariant
            i <= m,
            m == min_of(10, p.len() as int),
            entries.len() <= MAX_RECORDS,
            is_rank_order(keys@, p@),
            keys.len() == users.len(),
            r.len() == i,
            forall|t: int| 0 <= t < i ==> r@[t] == entry_count_row(users@[#[trigger] p@[t] as int], entries@),
        decreases m - i,
    {
        let u = &users[p[i]];
        let (count, cost, liters) = owner_totals(entries, &u.id);
        proof {
            lemma_entries_of_len(entries@, u.id@);
        }
        r.push(UserEntryCount {
            user_id: u.id.clone(),
            email: u.email.clone(),
            entry_count: count as u32,
            total_cost: cost,
            total_liters: liters,
        });
        i = i + 1;
    }
    r
}

} // verus!
