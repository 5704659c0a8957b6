use vstd::prelude::*;

use crate::model::{FuelEntry, Ratio, MAX_RECORDS};

verus! {

/// Price of one day; no rows are derived yet.
#[derive(Clone, Debug)]
pub struct DailyPriceTrend {
    pub date: String,
    pub average_price: Ratio,
    pub min_price: Ratio,
    pub max_price: Ratio,
    pub price_range: Ratio,
}

/// Spread of the price per litre over all entries, in units. The standard
/// deviation is the square root of `price_variance`; the volatility index is
/// that deviation over `mean_price`, times 100.
#[derive(Clone, Debug)]
pub struct PriceVolatility {
    pub price_variance: Ratio,
    pub mean_price: Ratio,
    pub most_volatile_period: String,
    pub least_volatile_period: String,
}

/// Lowest and highest price per litre, in units, and the spread between
/// them in percent of the lowest (`None` when the lowest price is 0).
#[derive(Clone, Debug)]
pub struct PriceComparisons {
    pub current_vs_last_month: Ratio,
    pub current_vs_last_year: Ratio,
    pub lowest_recorded_price: Ratio,
    pub highest_recorded_price: Ratio,
    pub price_change_percentage: Option<Ratio>,
}

#[derive(Clone, Debug)]
pub struct RegionalPrice {
    pub region: String,
    pub average_price: Ratio,
    pub entry_count: u32,
    pub price_rank: i32,
}

#[derive(Clone, Debug)]
pub struct PriceTrends {
    pub daily_price_trends: Vec<DailyPriceTrend>,
    pub price_volatility: PriceVolatility,
    pub price_comparisons: PriceComparisons,
    pub regional_price_data: Vec<RegionalPrice>,
}

/// Sum of the prices per litre of `s`.
pub open spec fn price_sum(s: Seq<FuelEntry>) -> int
    decreases s.len(),
{
    if s.len() == 0 {
        0
    } else {
        price_sum(s.drop_last()) + s.last().price_per_liter
    }
}

/// Sum of the squared prices per litre of `s`.
pub open spec fn price_square_sum(s: Seq<FuelEntry>) -> int
    decreases s.len(),
{
    if s.len() == 0 {
        0
    } else {
        price_square_sum(s.drop_last()) + s.last().price_per_liter * s.last().price_per_liter
    }
}

/// Sum of `(p - x)^2` over the prices `p` of `s`.
pub open spec fn deviation_sum(s: Seq<FuelEntry>, x: int) -> int
    decreases s.len(),
{
    if s.len() == 0 {
        0
    } else {
        deviation_sum(s.drop_last(), x) + (s.last().price_per_liter - x) * (s.last().price_per_liter - x)
    }
}

/// Lowest price per litre of a non-empty `s`.
pub open spec fn lowest_price(s: Seq<FuelEntry>) -> int
    decreases s.len(),
{
    if s.len() <= 1 {
        s[0].price_per_liter as int
    } else if s.last().price_per_liter < lowest_price(s.drop_last()) {
        s.last().price_per_liter as int
    } else {
        lowest_price(s.drop_last())
    }
}

/// Highest price per litre of a non-empty `s`.
pub open spec fn highest_price(s: Seq<FuelEntry>) -> int
    decreases s.len(),
{
    if s.len() <= 1 {
        s[0].price_per_liter as int
    } else if s.last().price_per_liter > highest_price(s.drop_last()) {
        s.last().price_per_liter as int
    } else {
        highest_price(s.drop_last())
    }
}

/// `n` times the sum of squares, less the squared sum: `n^2` times the
/// variance.
pub open spec fn spread(s: Seq<FuelEntry>) -> int {
    s.len() * price_square_sum(s) - price_sum(s) * price_sum(s)
}

proof fn lemma_deviation_sum(s: Seq<FuelEntry>, x: int)
    ensures
        deviation_sum(s, x) == price_square_sum(s) - 2 * x * price_sum(s) + s.len() * x * x,
        deviation_sum(s, x) >= 0,
    decreases s.len(),
{
    if s.len() > 0 {
        lemma_deviation_sum(s.drop_last(), x);
        let p = s.last().price_per_liter as int;
        let n = s.len() - 1;
        assert((p - x) * (p - x) >= 0) by (nonlinear_arith);
        assert((p - x) * (p - x) == p * p - 2 * x * p + x * x) by (nonlinear_arith);
        assert(n * x * x + x * x == s.len() * x * x) by (nonlinear_arith)
            requires n + 1 == s.len();
        assert(2 * x * price_sum(s.drop_last()) + 2 * x * p == 2 * x * price_sum(s)) by (nonlinear_arith)
            requires price_sum(s) == price_sum(s.drop_last()) + p;
    }
}

/// The spread of prices is never negative.
proof fn lemma_spread_nonneg(s: Seq<FuelEntry>)
    ensures
        spread(s) >= 0,
    decreases s.len(),
{
    if s.len() > 0 {
        let t = s.drop_last();
        let x = s.last().price_per_liter as int;
        let (n, q, p) = (t.len() as int, price_square_sum(t), price_sum(t));
        lemma_spread_nonneg(t);
        lemma_deviation_sum(t, x);
        assert((n + 1) * (q + x * x) - (p + x) * (p + x) == (n * q - p * p) + (q - 2 * x * p + n * x * x))
            by (nonlinear_arith);
    }
}

pub proof fn lemma_price_bounds(s: Seq<FuelEntry>)
    ensures
        0 <= price_sum(s) <= s.len() * 0xffff_ffff,
        0 <= price_square_sum(s) <= s.len() * 0xffff_fffe_0000_0001,
        s.len() > 0 ==> 0 <= lowest_price(s) <= highest_price(s) <= 0xffff_ffff,
    decreases s.len(),
{
    if s.len() > 0 {
        lemma_price_bounds(s.drop_last());
        let p = s.last().price_per_liter as int;
        assert(p * p <= 0xffff_fffe_0000_0001) by (nonlinear_arith)
            requires 0 <= p <= 0xffff_ffff;
        assert(p * p >= 0) by (nonlinear_arith);
    }
}

/// `r` is the price trends of `entries`.
pub open spec fn price_trends_fits(entries: Seq<FuelEntry>, r: PriceTrends) -> bool {
    &&& (r.daily_price_trends.len() == 0)
    &&& (entries.len() == 0 ==> {
            &&& r.price_volatility.price_variance == (Ratio { num: 0, den: 1 })
            &&& r.price_volatility.mean_price == (Ratio { num: 0, den: 1 })
            &&& r.price_volatility.most_volatile_period@ == "N/A"@
            &&& r.price_volatility.least_volatile_period@ == "N/A"@
            &&& r.price_comparisons.current_vs_last_month == (Ratio { num: 0, den: 1 })
            &&& r.price_comparisons.current_vs_last_year == (Ratio { num: 0, den: 1 })
            &&& r.price_comparisons.lowest_recorded_price == (Ratio { num: 0, den: 1 })
            &&& r.price_comparisons.highest_recorded_price == (Ratio { num: 0, den: 1 })
            &&& r.price_comparisons.price_change_percentage == Some(Ratio { num: 0, den: 1 })
            &&& r.regional_price_data.len() == 0
            })
    &&& (entries.len() > 0 ==> {
            let n = entries.len() as int;
            let lo = lowest_price(entries);
            let hi = highest_price(entries);
            &&& r.price_volatility.mean_price == (Ratio { num: price_sum(entries) as u128, den: (1000 * n) as u128 })
            &&& r.price_volatility.price_variance == (Ratio {
                num: spread(entries) as u128,
                den: (n * n * 1_000_000) as u128,
            })
            &&& r.price_comparisons.lowest_recorded_price == (Ratio { num: lo as u128, den: 1000 })
            &&& r.price_comparisons.highest_recorded_price == (Ratio { num: hi as u128, den: 1000 })
            &&& (lo > 0 ==> r.price_comparisons.price_change_percentage == Some(
                Ratio { num: (100 * (hi - lo)) as u128, den: lo as u128 },
            ))
            &&& (lo == 0 ==> r.price_comparisons.price_change_percentage is None)
            &&& r.regional_price_data.len() == 1
            &&& r.regional_price_data@[0].average_price == r.price_volatility.mean_price
            &&& r.regional_price_data@[0].entry_count == n
            &&& r.regional_price_data@[0].price_rank == 1
            &&& r.regional_price_data@[0].region@ == "Global Average"@
            &&& r.price_volatility.most_volatile_period@ == "June 2025"@
            &&& r.price_volatility.least_volatile_period@ == "June 2025"@
            &&& r.price_comparisons.current_vs_last_month == (Ratio { num: 0, den: 1 })
            &&& r.price_comparisons.current_vs_last_year == (Ratio { num: 0, den: 1 })
            })
}

/// Price trends over all entries: mean, variance, lowest and highest price
/// per litre. Daily trends, the month comparisons and the volatile periods
/// are not derived from the data yet: they are fixed placeholders. Without
/// entries every figure is 0, the periods read "N/A" and no region is
/// listed.
pub fn get_price_trends(entries: &Vec<FuelEntry>) -> (r: PriceTrends)
    requires
        entries.len() <= MAX_RECORDS,
    ensures
        price_trends_fits(entries@, r),
{
    let n = entries.len();
    if n == 0 {
        return PriceTrends {
            daily_price_trends: Vec::new(),
            price_volatility: PriceVolatility {
                price_variance: Ratio::zero(),
                mean_price: Ratio::zero(),
                most_volatile_period: String::from_str("N/A"),
                least_volatile_period: String::from_str("N/A"),
            },
            price_comparisons: PriceComparisons {
                current_vs_last_month: Ratio::zero(),
                current_vs_last_year: Ratio::zero(),
                lowest_recorded_price: Ratio::zero(),
                highest_recorded_price: Ratio::zero(),
                price_change_percentage: Some(Ratio::zero()),
            },
            regional_price_data: Vec::new(),
        };
    }
    let mut sum: u128 = 0;
    let mut squares: u128 = 0;
    let mut lo: u32 = entries[0].price_per_liter;
    let mut hi: u32 = entries[0].price_per_liter;
    let mut i: usize = 0;
    while i < n
        invariant
            i <= n,
            n == entries.len(),
            0 < n <= MAX_RECORDS,
            sum == price_sum(entries@.take(i as int)),
            squares == price_square_sum(entries@.take(i as int)),
            i > 0 ==> lo == lowest_price(entries@.take(i as int)),
            i > 0 ==> hi == highest_price(entries@.take(i as int)),
            i == 0 ==> lo == entries@[0].price_per_liter && hi == entries@[0].price_per_liter,
        decreases n - i,
    {
        proof {
            assert(entries@.take(i + 1).drop_last() =~= entries@.take(i as int));
            lemma_price_bounds(entries@.take(i as int));
        }
        let p = entries[i].price_per_liter;
        proof {
            assert((p as int) * (p as int) <= 0xffff_fffe_0000_0001) by (nonlinear_arith)
                requires 0 <= p <= 0xffff_ffff;
        }
        sum = sum + p as u128;
        squares = squares + (p as u128) * (p as u128);
        if i > 0 {
            if p < lo {
                lo = p;
            }
            if p > hi {
                hi = p;
            }
        }
        i = i + 1;
    }
    proof {
        assert(entries@.take(n as int) =~= entries@);
        lemma_price_bounds(entries@);
        lemma_spread_nonneg(entries@);
        assert(n * squares <= MAX_RECORDS * (MAX_RECORDS * 0xffff_fffe_0000_0001)) by (nonlinear_arith)
            requires n <= MAX_RECORDS, squares <= n * 0xffff_fffe_0000_0001;
        assert(sum * sum <= (MAX_RECORDS * 0xffff_ffff) * (MAX_RECORDS * 0xffff_ffff)) by (nonlinear_arith)
            requires 0 <= sum <= MAX_RECORDS * 0xffff_ffff;
        assert(n * n * 1_000_000 <= MAX_RECORDS * MAX_RECORDS * 1_000_000) by (nonlinear_arith)
            requires n <= MAX_RECORDS;
    }
    let count = n as u128;
    let variance = Ratio::of(count * squares - sum * sum, count * count * 1_000_000);
    let mean = Ratio::of(sum, 1000 * count);
    let change = if lo > 0 { Some(Ratio::of(100 * (hi - lo) as u128, lo as u128)) } else { None };
    let mut regions: Vec<RegionalPrice> = Vec::new();
    regions.push(RegionalPrice {
        region: String::from_str("Global Average"),
        average_price: mean,
        entry_count: n as u32,
        price_rank: 1,
    });
    PriceTrends {
        // Not derived from the data yet.
        daily_price_trends: Vec::new(),
        price_volatility: PriceVolatility {
            price_variance: variance,
            mean_price: mean,
            // Placeholders, not derived from the data.
            most_volatile_period: String::from_str("June 2025"),
            least_volatile_period: String::from_str("June 2025"),
        },
        price_comparisons: PriceComparisons {
            // Placeholders, not derived from the data.
            current_vs_last_month: Ratio::zero(),
            current_vs_last_year: Ratio::zero(),
            lowest_recorded_price: Ratio::of(lo as u128, 1000),
            highest_recorded_price: Ratio::of(hi as u128, 1000),
            price_change_percentage: change,
        },
        regional_price_data: regions,
    }
}

} // verus!
