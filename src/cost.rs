use vstd::prelude::*;

use crate::model::{
    entries_of, lemma_entries_of_len, lemma_sums_bounded, owner_totals, sum_cost, FuelEntry, Ratio, User,
    MAX_RECORDS,
};
use crate::ranking::{fits_key, is_rank_order, rank_order};
use crate::totals::{corpus_totals, min_of, TOP_ROWS};

verus! {

/// Costs below this (in thousandths) are low.
pub const LOW_COST_LIMIT: u32 = 50_000;

/// Costs up to this (in thousandths) are medium; above it they are high.
pub const MEDIUM_COST_LIMIT: u32 = 150_000;

/// Number of entries in one cost band and their share in percent.
#[derive(Clone, Debug)]
pub struct CostRange {
    pub range: String,
    pub count: u32,
    pub percentage: Ratio,
}

#[derive(Clone, Debug)]
pub struct CostDistribution {
    pub low_cost_entries: u32,
    pub medium_cost_entries: u32,
    pub high_cost_entries: u32,
    pub cost_ranges: Vec<CostRange>,
}

/// Spending of one month; no rows are derived yet.
#[derive(Clone, Debug)]
pub struct SpendingTrend {
    pub month: String,
    pub year: i32,
    pub total_spending: Ratio,
    pub average_per_entry: Ratio,
    pub spending_growth: Ratio,
}

#[derive(Clone, Debug)]
pub struct BudgetAnalysis {
    /// Total cost of all entries, in thousandths.
    pub average_monthly_spending: u64,
    pub highest_spending_month: String,
    pub lowest_spending_month: String,
    pub spending_volatility: Ratio,
}

/// Users in one spending category; no rows are derived yet.
#[derive(Clone, Debug)]
pub struct UserCostCategory {
    pub category: String,
    pub user_count: u32,
    pub percentage: Ratio,
}

/// Spending of one user: total in thousandths, average per entry in units.
#[derive(Clone, Debug)]
pub struct UserSpending {
    pub user_id: String,
    pub email: String,
    pub total_spent: u64,
    pub average_per_entry: Ratio,
    pub entry_count: u32,
}

#[derive(Clone, Debug)]
pub struct CostPerUserStats {
    pub average_cost_per_user: Ratio,
    pub median_cost_per_user: Ratio,
    pub top_spenders: Vec<UserSpending>,
    pub cost_distribution_by_user: Vec<UserCostCategory>,
}

#[derive(Clone, Debug)]
pub struct CostAnalytics {
    pub cost_distribution: CostDistribution,
    pub spending_trends: Vec<SpendingTrend>,
    pub budget_analysis: BudgetAnalysis,
    pub cost_per_user_stats: CostPerUserStats,
}

/// Cost band of a cost: 0 low, 1 medium, 2 high.
pub open spec fn cost_band(c: int) -> int {
    if c < LOW_COST_LIMIT { 0 } else if c <= MEDIUM_COST_LIMIT { 1 } else { 2 }
}

/// Number of entries of `s` in cost band `b`.
pub open spec fn band_count(s: Seq<FuelEntry>, b: int) -> int
    decreases s.len(),
{
    if s.len() == 0 {
        0
    } else {
        band_count(s.drop_last(), b) + if cost_band(s.last().total_cost as int) == b { 1int } else { 0int }
    }
}

/// Share of `count` in `total`, in percent; 0 when `total` is 0.
pub open spec fn percent_of(count: int, total: int) -> Ratio {
    if total > 0 {
        Ratio { num: (100 * count) as u128, den: total as u128 }
    } else {
        Ratio { num: 0, den: 1 }
    }
}

/// Every entry falls in exactly one cost band: the three band counts add
/// up to the number of entries.
pub proof fn lemma_cost_bands_partition(s: Seq<FuelEntry>)
    ensures
        band_count(s, 0) + band_count(s, 1) + band_count(s, 2) == s.len(),
        band_count(s, 0) >= 0 && band_count(s, 1) >= 0 && band_count(s, 2) >= 0,
    decreases s.len(),
{
    if s.len() > 0 {
        lemma_cost_bands_partition(s.drop_last());
    }
}

/// The share in percent of `count` out of `total`.
fn percent(count: u32, total: usize) -> (r: Ratio)
    requires
        total <= MAX_RECORDS,
    ensures
        r == percent_of(count as int, total as int),
{
    if total > 0 {
        Ratio::of(100 * count as u128, total as u128)
    } else {
        Ratio::zero()
    }
}

/// Entries per cost band (low below 50, medium 50 to 150, high above 150),
/// with each band's share in percent.
pub fn cost_distribution(entries: &Vec<FuelEntry>) -> (r: CostDistribution)
    requires
        entries.len() <= MAX_RECORDS,
    ensures
        r.low_cost_entries == band_count(entries@, 0),
        r.medium_cost_entries == band_count(entries@, 1),
        r.high_cost_entries == band_count(entries@, 2),
        r.low_cost_entries + r.medium_cost_entries + r.high_cost_entries == entries.len(),
        r.cost_ranges.len() == 3,
        r.cost_ranges@[0].range@ == "Low (< $50)"@,
        r.cost_ranges@[1].range@ == "Medium ($50-$150)"@,
        r.cost_ranges@[2].range@ == "High (> $150)"@,
        r.cost_ranges@[0].count == r.low_cost_entries,
        r.cost_ranges@[1].count == r.medium_cost_entries,
        r.cost_ranges@[2].count == r.high_cost_entries,
        forall|i: int| 0 <= i < 3 ==> (#[trigger] r.cost_ranges@[i]).percentage
            == percent_of(r.cost_ranges@[i].count as int, entries.len() as int),
        entries.len() > 0 ==> r.cost_ranges@[0].percentage.num + r.cost_ranges@[1].percentage.num
            + r.cost_ranges@[2].percentage.num == 100 * entries.len(),
{
    let mut low: u32 = 0;
    let mut medium: u32 = 0;
    let mut high: u32 = 0;
    let mut i: usize = 0;
    while i < entries.len()
        invariant
            i <= entries.len(),
            entries.len() <= MAX_RECORDS,
            low == band_count(entries@.take(i as int), 0),
            medium == band_count(entries@.take(i as int), 1),
            high == band_count(entries@.take(i as int), 2),
        decreases entries.len() - i,
    {
        proof {
            assert(entries@.take(i + 1).drop_last() =~= entries@.take(i as int));
            lemma_cost_bands_partition(entries@.take(i as int));
        }
        let c = entries[i].total_cost;
        if c < LOW_COST_LIMIT {
            low = low + 1;
        } else if c <= MEDIUM_COST_LIMIT {
            medium = medium + 1;
        } else {
            high = high + 1;
        }
        i = i + 1;
    }
    proof {
        assert(entries@.take(entries.len() as int) =~= entries@);
        lemma_cost_bands_partition(entries@);
    }
    let n = entries.len();
    let ranges = vec![
        CostRange { range: String::from_str("Low (< $50)"), count: low, percentage: percent(low, n) },
        CostRange { range: String::from_str("Medium ($50-$150)"), count: medium, percentage: percent(medium, n) },
        CostRange { range: String::from_str("High (> $150)"), count: high, percentage: percent(high, n) },
    ];
    CostDistribution { low_cost_entries: low, medium_cost_entries: medium, high_cost_entries: high, cost_ranges: ranges }
}

/// Sort keys by total spent.
pub open spec fn spend_keys(users: Seq<User>, s: Seq<FuelEntry>) -> Seq<Ratio> {
    users.map_values(|u: User| Ratio { num: sum_cost(entries_of(s, u.id@)) as u128, den: 1 })
}

/// Average cost per entry, in units; 0 without entries.
pub open spec fn per_entry(cost: int, count: int) -> Ratio {
    if count > 0 {
        Ratio { num: cost as u128, den: (1000 * count) as u128 }
    } else {
        Ratio { num: 0, den: 1 }
    }
}

/// The spending row of one user.
pub open spec fn spending_row(u: User, s: Seq<FuelEntry>) -> UserSpending {
    UserSpending {
        user_id: u.id,
        email: u.email,
        total_spent: sum_cost(entries_of(s, u.id@)) as u64,
        average_per_entry: per_entry(sum_cost(entries_of(s, u.id@)), entries_of(s, u.id@).len() as int),
        entry_count: entries_of(s, u.id@).len() as u32,
    }
}

/// The ten users who spent most, most first; equal totals keep the order of
/// `users`.
pub fn top_spenders(users: &Vec<User>, entries: &Vec<FuelEntry>) -> (r: Vec<UserSpending>)
    requires
        entries.len() <= MAX_RECORDS,
    ensures
        exists|p: Seq<usize>| #[trigger] is_rank_order(spend_keys(users@, entries@), p)
            && r.len() == min_of(10, p.len() as int)
            && forall|i: int| 0 <= i < r.len() ==> r@[i] == spending_row(users@[#[trigger] p[i] as int], entries@),
{
    let mut keys: Vec<Ratio> = Vec::new();
    let mut i: usize = 0;
    while i < users.len()
        invariant
            i <= users.len(),
            entries.len() <= MAX_RECORDS,
            keys@ =~= spend_keys(users@.take(i as int), entries@),
            forall|t: int| 0 <= t < keys.len() ==> fits_key(#[trigger] keys@[t]),
        decreases users.len() - i,
    {
        let (_, cost, _) = owner_totals(entries, &users[i].id);
        keys.push(Ratio::of(cost as u128, 1));
        i = i + 1;
    }
    assert(users@.take(users.len() as int) =~= users@);
    let p = rank_order(&keys);
    let m = if TOP_ROWS <= p.len() { TOP_ROWS } else { p.len() };
    let mut r: Vec<UserSpending> = Vec::new();
    let mut i: usize = 0;
    while i < m
        invariant
            i <= m,
            m == min_of(10, p.len() as int),
            entries.len() <= MAX_RECORDS,
            is_rank_order(keys@, p@),
            keys.len() == users.len(),
            r.len() == i,
            forall|t: int| 0 <= t < i ==> r@[t] == spending_row(users@[#[trigger] p@[t] as int], entries@),
        decreases m - i,
    {
        let u = &users[p[i]];
        let (count, cost, _) = owner_totals(entries, &u.id);
        proof {
            lemma_entries_of_len(entries@, u.id@);
        }
        let average_per_entry = if count > 0 {
            Ratio::of(cost as u128, 1000 * count as u128)
        } else {
            Ratio::zero()
        };
        r.push(UserSpending {
            user_id: u.id.clone(),
            email: u.email.clone(),
            total_spent: cost,
            average_per_entry,
            entry_count: count as u32,
        });
        i = i + 1;
    }
    r
}

/// `r` is the cost analytics of `users` and `entries`.
pub open spec fn cost_analytics_fits(users: Seq<User>, entries: Seq<FuelEntry>, r: CostAnalytics) -> bool {
    &&& (r.cost_distribution.low_cost_entries == band_count(entries, 0))
    &&& (r.cost_distribution.medium_cost_entries == band_count(entries, 1))
    &&& (r.cost_distribution.high_cost_entries == band_count(entries, 2))
    &&& (r.cost_distribution.cost_ranges.len() == 3)
    &&& r.cost_distribution.cost_ranges@[0].count == band_count(entries, 0)
    &&& r.cost_distribution.cost_ranges@[1].count == band_count(entries, 1)
    &&& r.cost_distribution.cost_ranges@[2].count == band_count(entries, 2)
    &&& r.cost_distribution.cost_ranges@[0].range@ == "Low (< $50)"@
    &&& r.cost_distribution.cost_ranges@[1].range@ == "Medium ($50-$150)"@
    &&& r.cost_distribution.cost_ranges@[2].range@ == "High (> $150)"@
    &&& r.budget_analysis.highest_spending_month@ == "June 2025"@
    &&& r.budget_analysis.lowest_spending_month@ == "June 2025"@
    &&& r.budget_analysis.spending_volatility == (Ratio { num: 0, den: 1 })
    &&& (forall|i: int| 0 <= i < 3 ==> (#[trigger] r.cost_distribution.cost_ranges@[i]).percentage
            == percent_of(r.cost_distribution.cost_ranges@[i].count as int, entries.len() as int))
    &&& (exists|p: Seq<usize>| #[trigger] is_rank_order(spend_keys(users, entries), p)
            && r.cost_per_user_stats.top_spenders.len() == min_of(10, p.len() as int)
            && forall|i: int| 0 <= i < r.cost_per_user_stats.top_spenders.len()
                ==> r.cost_per_user_stats.top_spenders@[i] == spending_row(users[#[trigger] p[i] as int], entries))
    &&& (r.cost_per_user_stats.average_cost_per_user == per_entry(
            sum_cost(entries),
            r.cost_per_user_stats.top_spenders.len() as int))
    &&& (r.cost_per_user_stats.median_cost_per_user == r.cost_per_user_stats.average_cost_per_user)
    &&& (r.budget_analysis.average_monthly_spending == sum_cost(entries))
    &&& (r.spending_trends.len() == 0)
    &&& (r.cost_per_user_stats.cost_distribution_by_user.len() == 0)
}

/// Cost analytics: the cost bands, the top spenders, and the total cost of
/// all entries divided by the number of top spenders kept (not by the number
/// of users). Spending trends, the per-user categories, the spending months
/// and the volatility are not derived from the data yet: they are fixed
/// placeholders.
pub fn get_cost_analytics(users: &Vec<User>, entries: &Vec<FuelEntry>) -> (r: CostAnalytics)
    requires
        entries.len() <= MAX_RECORDS,
    ensures
        cost_analytics_fits(users@, entries@, r),
{
    let distribution = cost_distribution(entries);
    let spenders = top_spenders(users, entries);
    let (total_cost, _) = corpus_totals(entries);
    let k = spenders.len();
    let average_cost_per_user = if k > 0 { Ratio::of(total_cost as u128, 1000 * k as u128) } else { Ratio::zero() };
    proof {
        lemma_sums_bounded(entries@);
    }
    CostAnalytics {
        cost_distribution: distribution,
        // Not derived from the data yet.
        spending_trends: Vec::new(),
        budget_analysis: BudgetAnalysis {
            average_monthly_spending: total_cost,
            // Placeholders, not derived from the data.
            highest_spending_month: String::from_str("June 2025"),
            lowest_spending_month: String::from_str("June 2025"),
            spending_volatility: Ratio::zero(),
        },
        cost_per_user_stats: CostPerUserStats {
            average_cost_per_user,
            // The average stands in for the median, which is not derived yet.
            median_cost_per_user: average_cost_per_user,
            top_spenders: spenders,
            cost_distribution_by_user: Vec::new(),
        },
    }
}

/// With at least one entry the three cost-band percentages add up to 100:
/// they share the number of entries as denominator, and their numerators
/// add up to 100 times it.
pub proof fn lemma_cost_percentages_total(users: Seq<User>, entries: Seq<FuelEntry>, r: CostAnalytics)
    requires
        cost_analytics_fits(users, entries, r),
        entries.len() > 0,
    ensures
        forall|i: int| 0 <= i < 3 ==> (#[trigger] r.cost_distribution.cost_ranges@[i]).percentage.den == entries.len(),
        r.cost_distribution.cost_ranges@[0].percentage.num + r.cost_distribution.cost_ranges@[1].percentage.num
            + r.cost_distribution.cost_ranges@[2].percentage.num == 100 * entries.len(),
{
    lemma_cost_bands_partition(entries);
    let c = r.cost_distribution.cost_ranges@;
    assert(c[0].percentage == percent_of(c[0].count as int, entries.len() as int));
    assert(c[1].percentage == percent_of(c[1].count as int, entries.len() as int));
    assert(c[2].percentage == percent_of(c[2].count as int, entries.len() as int));
}

} // verus!
