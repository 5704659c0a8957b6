use vstd::prelude::*;

use crate::calendar::{month_name, month_name_spec};
use crate::model::{Ratio, MAX_RECORDS};
use crate::monthly::{price_ratio, MonthlyStats};

verus! {

/// Number of months forecast.
pub const FORECAST_MONTHS: u32 = 6;

#[derive(Clone, Debug)]
pub struct PriceForecast {
    pub month: String,
    pub year: i32,
    pub predicted_price: Ratio,
    pub confidence_level: Ratio,
    pub trend_direction: String,
}

/// Forecast litres (in units) and entries of one month.
#[derive(Clone, Debug)]
pub struct ConsumptionForecast {
    pub month: String,
    pub year: i32,
    pub predicted_consumption: Ratio,
    pub predicted_entries: u128,
}

#[derive(Clone, Debug)]
pub struct UserGrowthForecast {
    pub month: String,
    pub year: i32,
    pub predicted_new_users: u64,
    pub predicted_total_users: u64,
    pub growth_rate: Ratio,
}

#[derive(Clone, Debug)]
pub struct RevenueProjections {
    pub next_month_revenue: Ratio,
    pub next_quarter_revenue: Ratio,
    pub annual_revenue_projection: Ratio,
    pub growth_assumptions: String,
}

#[derive(Clone, Debug)]
pub struct PredictiveAnalytics {
    pub fuel_price_forecast: Vec<PriceForecast>,
    pub consumption_forecast: Vec<ConsumptionForecast>,
    pub user_growth_forecast: Vec<UserGrowthForecast>,
    pub revenue_projections: RevenueProjections,
}

/// The price the forecast starts from: the average price of the first
/// monthly row, or 120 without rows.
pub open spec fn base_price(m: Seq<MonthlyStats>) -> Ratio {
    if m.len() > 0 { m[0].average_price } else { Ratio { num: 120, den: 1 } }
}

/// The litres (in units) the forecast starts from: those of the first
/// monthly row, or 100 without rows.
pub open spec fn base_consumption(m: Seq<MonthlyStats>) -> Ratio {
    if m.len() > 0 { Ratio { num: m[0].total_liters as u128, den: 1000 } } else { Ratio { num: 100, den: 1 } }
}

/// Base price times base consumption, as a fraction.
pub open spec fn base_revenue(m: Seq<MonthlyStats>) -> Ratio {
    if m.len() == 0 {
        Ratio { num: 12000, den: 1 }
    } else if m[0].total_liters > 0 {
        Ratio { num: m[0].total_cost as u128, den: 1000 }
    } else {
        Ratio { num: 0, den: 1 }
    }
}

/// Month number of the `i`-th month after `base_month`.
pub open spec fn month_after(base_month: int, i: int) -> int {
    (base_month - 1 + i) % 12 + 1
}

/// Year of the `i`-th month after `base_month` of `base_year`.
pub open spec fn year_after(base_year: int, base_month: int, i: int) -> int {
    base_year + (base_month - 1 + i) / 12
}

/// New users per forecast month: a tenth of the users, at least 1.
pub open spec fn monthly_new_users(users: int) -> int {
    if users / 10 < 1 { 1 } else { users / 10 }
}

/// `r` is the forecast from `monthly` for `user_count` users after `base_month` of `base_year`.
pub open spec fn forecast_fits(monthly: Seq<MonthlyStats>, user_count: usize, base_year: i32, base_month: u32, r: PredictiveAnalytics) -> bool {
    &&& (r.fuel_price_forecast.len() == 6)
    &&& (r.consumption_forecast.len() == 6)
    &&& (r.user_growth_forecast.len() == 6)
    &&& (forall|i: int| 0 <= i < 6 ==> {
            let p = #[trigger] r.fuel_price_forecast@[i];
            &&& p.month@ == month_name_spec(month_after(base_month as int, i + 1))
            &&& p.year == year_after(base_year as int, base_month as int, i + 1)
            &&& p.confidence_level == (Ratio { num: 75, den: 1 })
            &&& p.trend_direction@ == "Increasing"@
            &&& p.predicted_price == (Ratio {
                num: (base_price(monthly).num * (51 + i)) as u128,
                den: (base_price(monthly).den * 50) as u128,
        })
        })
    &&& (forall|i: int| 0 <= i < 6 ==> {
            let c = #[trigger] r.consumption_forecast@[i];
            let b = base_consumption(monthly);
            &&& c.month@ == month_name_spec(month_after(base_month as int, i + 1))
            &&& c.year == year_after(base_year as int, base_month as int, i + 1)
            &&& c.predicted_consumption == (Ratio { num: (b.num * (21 + i)) as u128, den: (b.den * 20) as u128 })
            &&& c.predicted_entries == (b.num * (21 + i)) / (b.den * 200)
        })
    &&& (forall|i: int| 0 <= i < 6 ==> {
            let g = #[trigger] r.user_growth_forecast@[i];
            &&& g.month@ == month_name_spec(month_after(base_month as int, i + 1))
            &&& g.year == year_after(base_year as int, base_month as int, i + 1)
            &&& g.growth_rate == (Ratio { num: 10, den: 1 })
            &&& g.predicted_new_users == monthly_new_users(user_count as int)
            &&& g.predicted_total_users == user_count + monthly_new_users(user_count as int) * (i + 1)
        })
    &&& (base_revenue(monthly).num * base_price(monthly).den * base_consumption(monthly).den
            == base_price(monthly).num * base_consumption(monthly).num * base_revenue(monthly).den)
    &&& (r.revenue_projections.next_month_revenue == (Ratio {
            num: (base_revenue(monthly).num * 11) as u128,
            den: (base_revenue(monthly).den * 10) as u128,
            }))
    &&& (r.revenue_projections.next_quarter_revenue == (Ratio {
            num: (base_revenue(monthly).num * 32) as u128,
            den: (base_revenue(monthly).den * 10) as u128,
            }))
    &&& (r.revenue_projections.annual_revenue_projection == (Ratio {
            num: (base_revenue(monthly).num * 125) as u128,
            den: (base_revenue(monthly).den * 10) as u128,
            }))
    &&& r.revenue_projections.growth_assumptions@ == "Based on current trends with 10% growth rate"@
}

/// Six-month forecasts from the latest monthly row (`monthly[0]`), for the
/// six months after `base_month` of `base_year`: month `i` (1 to 6) gets the
/// base price times `1 + 0.02 i`, the base litres times `1 + 0.05 i` and a
/// tenth of those litres as entries; users grow by a tenth of `user_count`
/// (at least 1) a month. Revenue projections are the base price times the
/// base litres times 1.1, 3.2 and 12.5. Confidence, trend direction and
/// growth rate are fixed placeholders, not derived from the data.
pub fn get_predictive_analytics(monthly: &Vec<MonthlyStats>, user_count: usize, base_year: i32, base_month: u32) -> (r:
    PredictiveAnalytics)
    requires
        monthly.len() > 0 ==> monthly@[0].average_price == price_ratio(
            monthly@[0].total_cost as int,
            monthly@[0].total_liters as int,
        ),
        user_count <= MAX_RECORDS,
        1 <= base_month <= 12,
        base_year < i32::MAX,
    ensures
        forecast_fits(monthly@, user_count, base_year, base_month, r),
{
    let price = if monthly.len() > 0 { monthly[0].average_price } else { Ratio::of(120, 1) };
    let consumption = if monthly.len() > 0 { Ratio::of(monthly[0].total_liters as u128, 1000) } else { Ratio::of(100, 1) };
    let revenue = if monthly.len() == 0 {
        Ratio::of(12000, 1)
    } else if monthly[0].total_liters > 0 {
        Ratio::of(monthly[0].total_cost as u128, 1000)
    } else {
        Ratio::zero()
    };
    proof {
        if monthly.len() > 0 && monthly@[0].total_liters > 0 {
            let (c, l) = (monthly@[0].total_cost as int, monthly@[0].total_liters as int);
            assert(c * l * 1000 == c * (l * 1000)) by (nonlinear_arith);
        }
    }
    let tenth = user_count as u64 / 10;
    let new_users: u64 = if tenth < 1 { 1 } else { tenth };
    let mut prices: Vec<PriceForecast> = Vec::new();
    let mut consumptions: Vec<ConsumptionForecast> = Vec::new();
    let mut growth: Vec<UserGrowthForecast> = Vec::new();
    let mut i: u32 = 0;
    while i < FORECAST_MONTHS
        invariant
            i <= 6,
            1 <= base_month <= 12,
            base_year < i32::MAX,
            user_count <= MAX_RECORDS,
            price == base_price(monthly@),
            consumption == base_consumption(monthly@),
            new_users == monthly_new_users(user_count as int),
            price.num <= 0xffff_ffff_ffff_ffff,
            price.den <= 0xffff_ffff_ffff_ffff,
            consumption.num <= 0xffff_ffff_ffff_ffff,
            consumption.den <= 1000,
            prices.len() == i,
            consumptions.len() == i,
            growth.len() == i,
            forall|q: int| 0 <= q < i ==> {
                let p = #[trigger] prices@[q];
                &&& p.month@ == month_name_spec(month_after(base_month as int, q + 1))
                &&& p.year == year_after(base_year as int, base_month as int, q + 1)
            &&& p.confidence_level == (Ratio { num: 75, den: 1 })
            &&& p.trend_direction@ == "Increasing"@
                &&& p.predicted_price == (Ratio {
                    num: (price.num * (51 + q)) as u128,
                    den: (price.den * 50) as u128,
                })
            },
            forall|q: int| 0 <= q < i ==> {
                let c = #[trigger] consumptions@[q];
                &&& c.month@ == month_name_spec(month_after(base_month as int, q + 1))
                &&& c.year == year_after(base_year as int, base_month as int, q + 1)
                &&& c.predicted_consumption == (Ratio {
                    num: (consumption.num * (21 + q)) as u128,
                    den: (consumption.den * 20) as u128,
                })
                &&& c.predicted_entries == (consumption.num * (21 + q)) / (consumption.den * 200)
            },
            forall|q: int| 0 <= q < i ==> {
                let g = #[trigger] growth@[q];
                &&& g.month@ == month_name_spec(month_after(base_month as int, q + 1))
                &&& g.year == year_after(base_year as int, base_month as int, q + 1)
            &&& g.growth_rate == (Ratio { num: 10, den: 1 })
                &&& g.predicted_new_users == new_users
                &&& g.predicted_total_users == user_count + new_users * (q + 1)
            },
        decreases 6 - i,
    {
        let step = i + 1;
        let offset = base_month - 1 + step;
        let month = offset % 12 + 1;
        let year = base_year + (offset / 12) as i32;
        proof {
            assert(price.num * (51 + i) <= 0xffff_ffff_ffff_ffff * 57) by (nonlinear_arith)
                requires price.num <= 0xffff_ffff_ffff_ffff, i <= 6;
            assert(consumption.num * (21 + i) <= 0xffff_ffff_ffff_ffff * 27) by (nonlinear_arith)
                requires consumption.num <= 0xffff_ffff_ffff_ffff, i <= 6;
        }
        proof {
            assert(new_users * step <= MAX_RECORDS * 6) by (nonlinear_arith)
                requires new_users <= MAX_RECORDS, step <= 6;
        }
        let num = price.num * (51 + i as u128);
        prices.push(PriceForecast {
            month: month_name(month),
            year,
            predicted_price: Ratio::of(num, price.den * 50),
            // Placeholders, not derived from the data.
            confidence_level: Ratio::of(75, 1),
            trend_direction: String::from_str("Increasing"),
        });
        let litres = consumption.num * (21 + i as u128);
        consumptions.push(ConsumptionForecast {
            month: month_name(month),
            year,
            predicted_consumption: Ratio::of(litres, consumption.den * 20),
            predicted_entries: litres / (consumption.den * 200),
        });
        growth.push(UserGrowthForecast {
            month: month_name(month),
            year,
            predicted_new_users: new_users,
            predicted_total_users: user_count as u64 + new_users * step as u64,
            // Placeholder, not derived from the data.
            growth_rate: Ratio::of(10, 1),
        });
        i = i + 1;
    }
    PredictiveAnalytics {
        fuel_price_forecast: prices,
        consumption_forecast: consumptions,
        user_growth_forecast: growth,
        revenue_projections: RevenueProjections {
            next_month_revenue: Ratio::of(revenue.num * 11, revenue.den * 10),
            next_quarter_revenue: Ratio::of(revenue.num * 32, revenue.den * 10),
            annual_revenue_projection: Ratio::of(revenue.num * 125, revenue.den * 10),
            growth_assumptions: String::from_str("Based on current trends with 10% growth rate"),
        },
    }
}

} // verus!
