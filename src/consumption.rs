use vstd::prelude::*;

use crate::model::{lemma_sums_bounded, sum_cost, sum_liters, FuelEntry, Ratio, MAX_RECORDS};
use crate::efficiency::liters_per_entry;
use crate::totals::corpus_totals;

verus! {

/// Fill-ups below this many litres (in thousandths) are small.
pub const SMALL_FILL_LIMIT: u32 = 10_000;

/// Fill-ups up to this many litres (in thousandths) are medium; above it
/// they are large.
pub const MEDIUM_FILL_LIMIT: u32 = 30_000;

/// Entries per hour of the day; no rows are derived yet.
#[derive(Clone, Debug)]
pub struct DailyPattern {
    pub hour_of_day: i32,
    pub entry_count: u32,
    pub average_cost: Ratio,
    pub average_liters: Ratio,
}

/// Entries of one day of the week. `total_liters` is in thousandths,
/// `average_cost` in units.
#[derive(Clone, Debug)]
pub struct WeeklyPattern {
    pub day_of_week: String,
    pub entry_count: u32,
    pub average_cost: Ratio,
    pub total_liters: u64,
}

/// Entries of one season; no rows are derived yet.
#[derive(Clone, Debug)]
pub struct SeasonalPattern {
    pub season: String,
    pub entry_count: u32,
    pub average_price_per_liter: Ratio,
    pub total_cost: Ratio,
}

#[derive(Clone, Debug)]
pub struct FillUpPatterns {
    pub small_fillups: u32,
    pub medium_fillups: u32,
    pub large_fillups: u32,
    pub average_fillup_size: Ratio,
    pub most_common_fillup_range: String,
}

#[derive(Clone, Debug)]
pub struct ConsumptionPatterns {
    pub daily_patterns: Vec<DailyPattern>,
    pub weekly_patterns: Vec<WeeklyPattern>,
    pub seasonal_patterns: Vec<SeasonalPattern>,
    pub fill_up_patterns: FillUpPatterns,
}

/// Size band of a fill-up: 0 small, 1 medium, 2 large.
pub open spec fn size_band(liters: int) -> int {
    if liters < SMALL_FILL_LIMIT { 0 } else if liters <= MEDIUM_FILL_LIMIT { 1 } else { 2 }
}

/// Number of entries of `s` in size band `b`.
pub open spec fn size_count(s: Seq<FuelEntry>, b: int) -> int
    decreases s.len(),
{
    if s.len() == 0 {
        0
    } else {
        size_count(s.drop_last(), b) + if size_band(s.last().liters as int) == b { 1int } else { 0int }
    }
}

/// Every entry falls in exactly one size band.
pub proof fn lemma_size_bands_partition(s: Seq<FuelEntry>)
    ensures
        size_count(s, 0) + size_count(s, 1) + size_count(s, 2) == s.len(),
        size_count(s, 0) >= 0 && size_count(s, 1) >= 0 && size_count(s, 2) >= 0,
    decreases s.len(),
{
    if s.len() > 0 {
        lemma_size_bands_partition(s.drop_last());
    }
}

/// The entries of `s` made on day `d` of the week (0 is Monday), in order.
pub open spec fn day_entries(s: Seq<FuelEntry>, d: int) -> Seq<FuelEntry>
    decreases s.len(),
{
    if s.len() == 0 {
        s
    } else if s.last().date_time.weekday == d {
        day_entries(s.drop_last(), d).push(s.last())
    } else {
        day_entries(s.drop_last(), d)
    }
}

proof fn lemma_day_entries_len(s: Seq<FuelEntry>, d: int)
    ensures
        day_entries(s, d).len() <= s.len(),
    decreases s.len(),
{
    if s.len() > 0 {
        lemma_day_entries_len(s.drop_last(), d);
    }
}

/// English name of a day of the week counted from Monday.
pub open spec fn day_name_spec(d: int) -> Seq<char> {
    if d == 0 { "Monday"@ }
    else if d == 1 { "Tuesday"@ }
    else if d == 2 { "Wednesday"@ }
    else if d == 3 { "Thursday"@ }
    else if d == 4 { "Friday"@ }
    else if d == 5 { "Saturday"@ }
    else { "Sunday"@ }
}

fn day_name(d: u32) -> (r: String)
    ensures
        r@ == day_name_spec(d as int),
{
    let s: &str = if d == 0 { "Monday" }
    else if d == 1 { "Tuesday" }
    else if d == 2 { "Wednesday" }
    else if d == 3 { "Thursday" }
    else if d == 4 { "Friday" }
    else if d == 5 { "Saturday" }
    else { "Sunday" };
    String::from_str(s)
}

/// Average cost per entry, in units; 0 without entries.
pub open spec fn cost_per_entry(cost: int, count: int) -> Ratio {
    if count > 0 {
        Ratio { num: cost as u128, den: (1000 * count) as u128 }
    } else {
        Ratio { num: 0, den: 1 }
    }
}

/// The label of the most common size band; ties go to the smaller band.
pub open spec fn common_range_spec(small: int, medium: int, large: int) -> Seq<char> {
    if small >= medium && small >= large {
        "Small (< 10L)"@
    } else if medium >= large {
        "Medium (10-30L)"@
    } else {
        "Large (> 30L)"@
    }
}

/// `r` is the pattern of day `d` over `s`.
pub open spec fn weekly_fits(r: WeeklyPattern, s: Seq<FuelEntry>, d: int) -> bool {
    &&& r.day_of_week@ == day_name_spec(d)
    &&& r.entry_count == day_entries(s, d).len()
    &&& r.average_cost == cost_per_entry(sum_cost(day_entries(s, d)), day_entries(s, d).len() as int)
    &&& r.total_liters == sum_liters(day_entries(s, d))
}

/// Count, cost and litres of the entries made on day `d` of the week.
fn day_totals(entries: &Vec<FuelEntry>, d: u32) -> (r: (u32, u64, u64))
    requires
        entries.len() <= MAX_RECORDS,
    ensures
        r.0 == day_entries(entries@, d as int).len(),
        r.1 == sum_cost(day_entries(entries@, d as int)),
        r.2 == sum_liters(day_entries(entries@, d as int)),
{
    let mut count: u32 = 0;
    let mut cost: u64 = 0;
    let mut liters: u64 = 0;
    let mut i: usize = 0;
    while i < entries.len()
        invariant
            i <= entries.len(),
            entries.len() <= MAX_RECORDS,
            count == day_entries(entries@.take(i as int), d as int).len(),
            cost == sum_cost(day_entries(entries@.take(i as int), d as int)),
            liters == sum_liters(day_entries(entries@.take(i as int), d as int)),
        decreases entries.len() - i,
    {
        proof {
            assert(entries@.take(i + 1).drop_last() =~= entries@.take(i as int));
            lemma_day_entries_len(entries@.take(i as int), d as int);
            lemma_sums_bounded(day_entries(entries@.take(i as int), d as int));
            let x = day_entries(entries@.take(i as int), d as int);
            assert(x.push(entries@[i as int]).drop_last() =~= x);
        }
        let e = &entries[i];
        if e.date_time.weekday == d {
            count = count + 1;
            cost = cost + e.total_cost as u64;
            liters = liters + e.liters as u64;
        }
        i = i + 1;
    }
    proof {
        assert(entries@.take(entries.len() as int) =~= entries@);
    }
    (count, cost, liters)
}

/// `r` is the consumption patterns of `entries`.
pub open spec fn consumption_fits(entries: Seq<FuelEntry>, r: ConsumptionPatterns) -> bool {
    &&& (r.fill_up_patterns.small_fillups == size_count(entries, 0))
    &&& (r.fill_up_patterns.medium_fillups == size_count(entries, 1))
    &&& (r.fill_up_patterns.large_fillups == size_count(entries, 2))
    &&& (r.fill_up_patterns.average_fillup_size == liters_per_entry(sum_liters(entries), entries.len() as int))
    &&& (r.fill_up_patterns.most_common_fillup_range@ == common_range_spec(
            size_count(entries, 0),
            size_count(entries, 1),
            size_count(entries, 2)))
    &&& (r.weekly_patterns.len() == 7)
    &&& (forall|d: int| 0 <= d < 7 ==> weekly_fits(#[trigger] r.weekly_patterns@[d], entries, d))
    &&& (r.daily_patterns.len() == 0)
    &&& (r.seasonal_patterns.len() == 0)
}

/// Fill-up sizes (small below 10 litres, medium 10 to 30, large above) and,
/// for each day of the week from Monday, the entries made that day. Hourly
/// and seasonal patterns are not derived yet.
pub fn get_consumption_patterns(entries: &Vec<FuelEntry>) -> (r: ConsumptionPatterns)
    requires
        entries.len() <= MAX_RECORDS,
    ensures
        consumption_fits(entries@, r),
{
    let mut small: u32 = 0;
    let mut medium: u32 = 0;
    let mut large: u32 = 0;
    let mut i: usize = 0;
    while i < entries.len()
        invariant
            i <= entries.len(),
            entries.len() <= MAX_RECORDS,
            small == size_count(entries@.take(i as int), 0),
            medium == size_count(entries@.take(i as int), 1),
            large == size_count(entries@.take(i as int), 2),
        decreases entries.len() - i,
    {
        proof {
            assert(entries@.take(i + 1).drop_last() =~= entries@.take(i as int));
            lemma_size_bands_partition(entries@.take(i as int));
        }
        let l = entries[i].liters;
        if l < SMALL_FILL_LIMIT {
            small = small + 1;
        } else if l <= MEDIUM_FILL_LIMIT {
            medium = medium + 1;
        } else {
            large = large + 1;
        }
        i = i + 1;
    }
    assert(entries@.take(entries.len() as int) =~= entries@);
    let (_, total_liters) = corpus_totals(entries);
    proof {
        lemma_sums_bounded(entries@);
    }
    let n = entries.len();
    let average_fillup_size = if n > 0 { Ratio::of(total_liters as u128, 1000 * n as u128) } else { Ratio::zero() };
    let label: &str = if small >= medium && small >= large {
        "Small (< 10L)"
    } else if medium >= large {
        "Medium (10-30L)"
    } else {
        "Large (> 30L)"
    };
    let mut weekly: Vec<WeeklyPattern> = Vec::new();
    let mut d: u32 = 0;
    while d < 7
        invariant
            d <= 7,
            entries.len() <= MAX_RECORDS,
            weekly.len() == d,
            forall|q: int| 0 <= q < d ==> weekly_fits(#[trigger] weekly@[q], entries@, q),
        decreases 7 - d,
    {
        let (count, cost, liters) = day_totals(entries, d);
        let average_cost = if count > 0 { Ratio::of(cost as u128, 1000 * count as u128) } else { Ratio::zero() };
        weekly.push(WeeklyPattern { day_of_week: day_name(d), entry_count: count, average_cost, total_liters: liters });
        d = d + 1;
    }
    ConsumptionPatterns {
        // Not derived from the data yet.
        daily_patterns: Vec::new(),
        weekly_patterns: weekly,
        // Not derived from the data yet.
        seasonal_patterns: Vec::new(),
        fill_up_patterns: FillUpPatterns {
            small_fillups: small,
            medium_fillups: medium,
            large_fillups: large,
            average_fillup_size,
            most_common_fillup_range: String::from_str(label),
        },
    }
}

} // verus!
