use vstd::prelude::*;

use crate::behavior::{activity_fits, behavior_fits, get_user_behavior_stats, same_activity, UserBehaviorStats};
use crate::consumption::{consumption_fits, get_consumption_patterns, ConsumptionPatterns};
use crate::cost::{cost_analytics_fits, get_cost_analytics, CostAnalytics};
use crate::efficiency::{efficiency_fits, get_fuel_efficiency_stats, FuelEfficiencyStats};
use crate::forecast::{forecast_fits, get_predictive_analytics, PredictiveAnalytics};
use crate::model::{sum_cost, sum_liters, FuelEntry, Ratio, User, MAX_RECORDS};
use crate::monthly::{
    get_monthly_stats, get_user_registration_stats, monthly_fits, registrations_fit, MonthlyStats,
    UserRegistrationStats,
};
use crate::forecast::{base_consumption, base_price, base_revenue};
use crate::monthly::{
    entry_samples, lemma_month_table_unique, monthly_tallies, real_months, signup_samples, signup_tallies,
};
use crate::prices::{lemma_price_bounds, lowest_price, get_price_trends, price_trends_fits, PriceTrends};
use crate::cost::{spend_keys, spending_row};
use crate::efficiency::{
    active_users, efficiency_rows, picks_from_end, picks_from_start, score_keys, tracked_distance, tracked_entries,
    lemma_tracked_bounds,
};
use crate::ranking::{is_rank_order, lemma_rank_order_unique};
use crate::totals::{
    cost_keys, count_keys, entry_count_row, min_of, picks, time_keys,
};
use crate::totals::{
    average_price_per_liter, corpus_totals, get_users_with_most_entries, most_entries_fit, most_expensive_entries,
    most_expensive_fit, recent_entries, recent_fit, UserEntryCount,
};

verus! {

/// The whole dashboard. Sums are in thousandths; ratios in units.
#[derive(Clone, Debug)]
pub struct DashboardStats {
    pub total_users: u32,
    pub total_fuel_entries: u32,
    pub total_fuel_cost: u64,
    pub total_liters: u64,
    pub average_price_per_liter: Ratio,
    pub users_with_most_entries: Vec<UserEntryCount>,
    pub most_expensive_entries: Vec<FuelEntry>,
    pub recent_entries: Vec<FuelEntry>,
    pub monthly_stats: Vec<MonthlyStats>,
    pub user_registration_stats: Vec<UserRegistrationStats>,
    pub fuel_efficiency_stats: FuelEfficiencyStats,
    pub consumption_patterns: ConsumptionPatterns,
    pub cost_analytics: CostAnalytics,
    pub user_behavior_stats: UserBehaviorStats,
    pub predictive_analytics: PredictiveAnalytics,
    pub price_trends: PriceTrends,
}

/// Average price per litre of `entries`: total cost over total litres, 0
/// without litres.
pub open spec fn corpus_price(entries: Seq<FuelEntry>) -> Ratio {
    if sum_liters(entries) > 0 {
        Ratio { num: sum_cost(entries) as u128, den: sum_liters(entries) as u128 }
    } else {
        Ratio { num: 0, den: 1 }
    }
}

/// `r` is the dashboard of `users` and `entries`, with forecasts for the six
/// months after `base_month` of `base_year`.
pub open spec fn dashboard_fits(
    users: Seq<User>,
    entries: Seq<FuelEntry>,
    base_year: i32,
    base_month: u32,
    r: DashboardStats,
) -> bool {
    &&& r.total_users == users.len()
    &&& r.total_fuel_entries == entries.len()
    &&& r.total_fuel_cost == sum_cost(entries)
    &&& r.total_liters == sum_liters(entries)
    &&& r.average_price_per_liter == corpus_price(entries)
    &&& most_entries_fit(users, entries, r.users_with_most_entries@)
    &&& most_expensive_fit(entries, r.most_expensive_entries@)
    &&& recent_fit(entries, r.recent_entries@)
    &&& monthly_fits(entries, r.monthly_stats@)
    &&& registrations_fit(users, r.user_registration_stats@)
    &&& efficiency_fits(users, entries, r.fuel_efficiency_stats)
    &&& consumption_fits(entries, r.consumption_patterns)
    &&& cost_analytics_fits(users, entries, r.cost_analytics)
    &&& behavior_fits(users, entries, r.user_behavior_stats)
    &&& forecast_fits(r.monthly_stats@, users.len() as usize, base_year, base_month, r.predictive_analytics)
    &&& price_trends_fits(entries, r.price_trends)
}

/// Builds the dashboard from all users and entries. Forecast months are the
/// six after `base_month` of `base_year`.
pub fn get_dashboard_stats(users: &Vec<User>, entries: &Vec<FuelEntry>, base_year: i32, base_month: u32) -> (r:
    DashboardStats)
    requires
        users.len() <= MAX_RECORDS,
        entries.len() <= MAX_RECORDS,
        1 <= base_month <= 12,
        base_year < i32::MAX,
    ensures
        dashboard_fits(users@, entries@, base_year, base_month, r),
{
    let (total_fuel_cost, total_liters) = corpus_totals(entries);
    let monthly_stats = get_monthly_stats(entries);
    proof {
        if monthly_stats.len() > 0 {
            assert(monthly_stats@[0].average_price == crate::monthly::price_ratio(
                monthly_stats@[0].total_cost as int,
                monthly_stats@[0].total_liters as int,
            ));
        }
    }
    let predictive_analytics = get_predictive_analytics(&monthly_stats, users.len(), base_year, base_month);
    DashboardStats {
        total_users: users.len() as u32,
        total_fuel_entries: entries.len() as u32,
        total_fuel_cost,
        total_liters,
        average_price_per_liter: average_price_per_liter(total_fuel_cost, total_liters),
        users_with_most_entries: get_users_with_most_entries(users, entries),
        most_expensive_entries: most_expensive_entries(entries),
        recent_entries: recent_entries(entries),
        monthly_stats,
        user_registration_stats: get_user_registration_stats(users),
        fuel_efficiency_stats: get_fuel_efficiency_stats(users, entries),
        consumption_patterns: get_consumption_patterns(entries),
        cost_analytics: get_cost_analytics(users, entries),
        user_behavior_stats: get_user_behavior_stats(users, entries),
        predictive_analytics,
        price_trends: get_price_trends(entries),
    }
}

/// The dashboard when it can be built: at most `MAX_RECORDS` users and
/// entries (the counts are reported as `i32`), a forecast base month from 1
/// to 12 and a base year below `i32::MAX`; `None` otherwise.
pub fn try_dashboard_stats(users: &Vec<User>, entries: &Vec<FuelEntry>, base_year: i32, base_month: u32) -> (r: Option<
    DashboardStats,
>)
    ensures
        r is Some <==> (users.len() <= MAX_RECORDS && entries.len() <= MAX_RECORDS && 1 <= base_month <= 12
            && base_year < i32::MAX),
        r matches Some(d) ==> dashboard_fits(users@, entries@, base_year, base_month, d),
{
    if users.len() <= MAX_RECORDS && entries.len() <= MAX_RECORDS && 1 <= base_month && base_month <= 12
        && base_year < i32::MAX {
        Some(get_dashboard_stats(users, entries, base_year, base_month))
    } else {
        None
    }
}

/// Building the dashboard twice from the same users, entries and forecast
/// base gives the same totals, the same rankings of entries, users,
/// spenders, efficiency and activity, the same monthly and sign-up tables,
/// the same cost and size bands, odometer, price and forecast figures, and
/// the same fixed placeholder figures and texts, provided every date falls
/// in a real month (as every calendar-built `Moment` does).
pub proof fn lemma_dashboard_repeatable(
    users: Seq<User>,
    entries: Seq<FuelEntry>,
    base_year: i32,
    base_month: u32,
    r1: DashboardStats,
    r2: DashboardStats,
)
    requires
        dashboard_fits(users, entries, base_year, base_month, r1),
        dashboard_fits(users, entries, base_year, base_month, r2),
        forall|k: int| 0 <= k < entries.len() ==> 1 <= (#[trigger] entries[k]).date_time.month <= 12,
        forall|k: int| 0 <= k < users.len() ==> 1 <= (#[trigger] users[k]).created_at.month <= 12,
    ensures
        r1.user_behavior_stats.engagement_metrics == r2.user_behavior_stats.engagement_metrics,
        r1.user_behavior_stats.retention_analysis == r2.user_behavior_stats.retention_analysis,
        r1.user_behavior_stats.activity_patterns.most_active_users.len()
            == r2.user_behavior_stats.activity_patterns.most_active_users.len(),
        r1.user_behavior_stats.activity_patterns.least_active_users.len()
            == r2.user_behavior_stats.activity_patterns.least_active_users.len(),
        forall|i: int| 0 <= i < r1.user_behavior_stats.activity_patterns.most_active_users.len() ==> same_activity(
            #[trigger] r1.user_behavior_stats.activity_patterns.most_active_users@[i],
            r2.user_behavior_stats.activity_patterns.most_active_users@[i],
        ),
        forall|i: int| 0 <= i < r1.user_behavior_stats.activity_patterns.least_active_users.len() ==> same_activity(
            #[trigger] r1.user_behavior_stats.activity_patterns.least_active_users@[i],
            r2.user_behavior_stats.activity_patterns.least_active_users@[i],
        ),
        r1.cost_analytics.budget_analysis.spending_volatility == r2.cost_analytics.budget_analysis.spending_volatility,
        r1.cost_analytics.budget_analysis.highest_spending_month@
            == r2.cost_analytics.budget_analysis.highest_spending_month@,
        r1.cost_analytics.budget_analysis.lowest_spending_month@
            == r2.cost_analytics.budget_analysis.lowest_spending_month@,
        r1.price_trends.price_volatility.most_volatile_period@ == r2.price_trends.price_volatility.most_volatile_period@,
        r1.price_trends.price_volatility.least_volatile_period@
            == r2.price_trends.price_volatility.least_volatile_period@,
        r1.price_trends.price_comparisons == r2.price_trends.price_comparisons,
        forall|i: int| 0 <= i < 6 ==> (#[trigger] r1.predictive_analytics.fuel_price_forecast@[i]).confidence_level
            == r2.predictive_analytics.fuel_price_forecast@[i].confidence_level,
        forall|i: int| 0 <= i < 6 ==> (#[trigger] r1.predictive_analytics.user_growth_forecast@[i]).growth_rate
            == r2.predictive_analytics.user_growth_forecast@[i].growth_rate,
        monthly_tallies(r1.monthly_stats@) == monthly_tallies(r2.monthly_stats@),
        forall|i: int| 0 <= i < r1.monthly_stats.len() ==> (#[trigger] r1.monthly_stats@[i]).average_price
            == r2.monthly_stats@[i].average_price,
        signup_tallies(r1.user_registration_stats@) == signup_tallies(r2.user_registration_stats@),
        forall|i: int| 0 <= i < 6 ==> (#[trigger] r1.predictive_analytics.fuel_price_forecast@[i]).predicted_price
            == r2.predictive_analytics.fuel_price_forecast@[i].predicted_price,
        forall|i: int| 0 <= i < 6 ==> (#[trigger] r1.predictive_analytics.consumption_forecast@[i]).predicted_consumption
            == r2.predictive_analytics.consumption_forecast@[i].predicted_consumption
            && r1.predictive_analytics.consumption_forecast@[i].predicted_entries
            == r2.predictive_analytics.consumption_forecast@[i].predicted_entries,
        forall|i: int| 0 <= i < 6 ==> (#[trigger] r1.predictive_analytics.user_growth_forecast@[i]).predicted_total_users
            == r2.predictive_analytics.user_growth_forecast@[i].predicted_total_users,
        r1.predictive_analytics.revenue_projections.next_month_revenue
            == r2.predictive_analytics.revenue_projections.next_month_revenue,
        r1.predictive_analytics.revenue_projections.annual_revenue_projection
            == r2.predictive_analytics.revenue_projections.annual_revenue_projection,
        r1.total_users == r2.total_users,
        r1.total_fuel_entries == r2.total_fuel_entries,
        r1.total_fuel_cost == r2.total_fuel_cost,
        r1.total_liters == r2.total_liters,
        r1.average_price_per_liter == r2.average_price_per_liter,
        r1.most_expensive_entries@ == r2.most_expensive_entries@,
        r1.recent_entries@ == r2.recent_entries@,
        r1.users_with_most_entries@ == r2.users_with_most_entries@,
        r1.cost_analytics.cost_per_user_stats.top_spenders@ == r2.cost_analytics.cost_per_user_stats.top_spenders@,
        r1.cost_analytics.cost_per_user_stats.average_cost_per_user
            == r2.cost_analytics.cost_per_user_stats.average_cost_per_user,
        r1.cost_analytics.cost_distribution.low_cost_entries == r2.cost_analytics.cost_distribution.low_cost_entries,
        r1.cost_analytics.cost_distribution.medium_cost_entries
            == r2.cost_analytics.cost_distribution.medium_cost_entries,
        r1.cost_analytics.cost_distribution.high_cost_entries == r2.cost_analytics.cost_distribution.high_cost_entries,
        r1.consumption_patterns.fill_up_patterns.small_fillups == r2.consumption_patterns.fill_up_patterns.small_fillups,
        r1.consumption_patterns.fill_up_patterns.medium_fillups
            == r2.consumption_patterns.fill_up_patterns.medium_fillups,
        r1.consumption_patterns.fill_up_patterns.large_fillups == r2.consumption_patterns.fill_up_patterns.large_fillups,
        r1.fuel_efficiency_stats.most_efficient_users@ == r2.fuel_efficiency_stats.most_efficient_users@,
        r1.fuel_efficiency_stats.least_efficient_users@ == r2.fuel_efficiency_stats.least_efficient_users@,
        r1.fuel_efficiency_stats.average_fuel_per_entry == r2.fuel_efficiency_stats.average_fuel_per_entry,
        r1.fuel_efficiency_stats.odometer_analytics.users_with_odometer
            == r2.fuel_efficiency_stats.odometer_analytics.users_with_odometer,
        r1.fuel_efficiency_stats.odometer_analytics.average_distance_per_entry
            == r2.fuel_efficiency_stats.odometer_analytics.average_distance_per_entry,
        r1.fuel_efficiency_stats.odometer_analytics.total_distance_tracked
            == r2.fuel_efficiency_stats.odometer_analytics.total_distance_tracked,
        r1.fuel_efficiency_stats.odometer_analytics.fuel_per_km == r2.fuel_efficiency_stats.odometer_analytics.fuel_per_km,
        r1.price_trends.price_volatility.price_variance == r2.price_trends.price_volatility.price_variance,
        r1.price_trends.price_volatility.mean_price == r2.price_trends.price_volatility.mean_price,
        r1.price_trends.price_comparisons.lowest_recorded_price == r2.price_trends.price_comparisons.lowest_recorded_price,
        r1.price_trends.price_comparisons.highest_recorded_price
            == r2.price_trends.price_comparisons.highest_recorded_price,
{
    let es = entry_samples(entries);
    assert(real_months(es)) by {
        assert forall|k: int| 0 <= k < es.len() implies 1 <= (#[trigger] es[k]).month <= 12 by {
            assert(1 <= entries[k].date_time.month <= 12);
        }
    }
    lemma_month_table_unique(es, monthly_tallies(r1.monthly_stats@), monthly_tallies(r2.monthly_stats@));
    let (m1, m2) = (r1.monthly_stats@, r2.monthly_stats@);
    assert forall|i: int| 0 <= i < m1.len() implies (#[trigger] m1[i]).average_price == m2[i].average_price by {
        assert(monthly_tallies(m1)[i] == monthly_tallies(m2)[i]);
    }
    if m1.len() > 0 {
        assert(monthly_tallies(m1)[0] == monthly_tallies(m2)[0]);
        assert(base_price(m1) == base_price(m2));
        assert(base_consumption(m1) == base_consumption(m2));
        assert(base_revenue(m1) == base_revenue(m2));
    } else {
        assert(monthly_tallies(m2).len() == 0);
    }
    let us = signup_samples(users);
    assert(real_months(us)) by {
        assert forall|k: int| 0 <= k < us.len() implies 1 <= (#[trigger] us[k]).month <= 12 by {
            assert(1 <= users[k].created_at.month <= 12);
        }
    }
    lemma_month_table_unique(
        us,
        signup_tallies(r1.user_registration_stats@),
        signup_tallies(r2.user_registration_stats@),
    );

    let k1 = cost_keys(entries);
    let pa = choose|p: Seq<usize>| #[trigger] is_rank_order(k1, p) && picks(entries, p, 10, r1.most_expensive_entries@);
    let pb = choose|p: Seq<usize>| #[trigger] is_rank_order(k1, p) && picks(entries, p, 10, r2.most_expensive_entries@);
    lemma_rank_order_unique(k1, pa, pb);
    assert forall|i: int| 0 <= i < r1.most_expensive_entries@.len() implies r1.most_expensive_entries@[i]
        == r2.most_expensive_entries@[i] by {
        assert(r1.most_expensive_entries@[i] == entries[pa[i] as int]);
        assert(r2.most_expensive_entries@[i] == entries[pb[i] as int]);
    }
    assert(r1.most_expensive_entries@ =~= r2.most_expensive_entries@);

    let k2 = time_keys(entries);
    let pa = choose|p: Seq<usize>| #[trigger] is_rank_order(k2, p) && picks(entries, p, 10, r1.recent_entries@);
    let pb = choose|p: Seq<usize>| #[trigger] is_rank_order(k2, p) && picks(entries, p, 10, r2.recent_entries@);
    lemma_rank_order_unique(k2, pa, pb);
    assert forall|i: int| 0 <= i < r1.recent_entries@.len() implies r1.recent_entries@[i]
        == r2.recent_entries@[i] by {
        assert(r1.recent_entries@[i] == entries[pa[i] as int]);
        assert(r2.recent_entries@[i] == entries[pb[i] as int]);
    }
    assert(r1.recent_entries@ =~= r2.recent_entries@);

    let k3 = count_keys(users, entries);
    let (a, b) = (r1.users_with_most_entries@, r2.users_with_most_entries@);
    let pa = choose|p: Seq<usize>| #[trigger] is_rank_order(k3, p) && a.len() == min_of(10, p.len() as int)
        && forall|i: int| 0 <= i < a.len() ==> a[i] == entry_count_row(users[#[trigger] p[i] as int], entries);
    let pb = choose|p: Seq<usize>| #[trigger] is_rank_order(k3, p) && b.len() == min_of(10, p.len() as int)
        && forall|i: int| 0 <= i < b.len() ==> b[i] == entry_count_row(users[#[trigger] p[i] as int], entries);
    lemma_rank_order_unique(k3, pa, pb);
    assert forall|i: int| 0 <= i < a.len() implies a[i] == b[i] by {
        assert(a[i] == entry_count_row(users[pa[i] as int], entries));
        assert(b[i] == entry_count_row(users[pb[i] as int], entries));
    }
    assert(a =~= b);

    let (ba, bb) = (r1.user_behavior_stats.activity_patterns, r2.user_behavior_stats.activity_patterns);
    let qa = choose|p: Seq<usize>| #[trigger] is_rank_order(k3, p)
        && ba.most_active_users.len() == min_of(10, p.len() as int)
        && ba.least_active_users.len() == min_of(10, p.len() as int)
        && (forall|i: int| 0 <= i < ba.most_active_users.len()
            ==> activity_fits(ba.most_active_users@[i], users[#[trigger] p[i] as int], entries))
        && (forall|i: int| 0 <= i < ba.least_active_users.len()
            ==> activity_fits(ba.least_active_users@[i], users[#[trigger] p[p.len() - 1 - i] as int], entries));
    let qb = choose|p: Seq<usize>| #[trigger] is_rank_order(k3, p)
        && bb.most_active_users.len() == min_of(10, p.len() as int)
        && bb.least_active_users.len() == min_of(10, p.len() as int)
        && (forall|i: int| 0 <= i < bb.most_active_users.len()
            ==> activity_fits(bb.most_active_users@[i], users[#[trigger] p[i] as int], entries))
        && (forall|i: int| 0 <= i < bb.least_active_users.len()
            ==> activity_fits(bb.least_active_users@[i], users[#[trigger] p[p.len() - 1 - i] as int], entries));
    lemma_rank_order_unique(k3, qa, qb);
    assert forall|i: int| 0 <= i < ba.most_active_users.len() implies same_activity(
        #[trigger] ba.most_active_users@[i],
        bb.most_active_users@[i],
    ) by {
        assert(activity_fits(ba.most_active_users@[i], users[qa[i] as int], entries));
        assert(activity_fits(bb.most_active_users@[i], users[qb[i] as int], entries));
    }
    assert forall|i: int| 0 <= i < ba.least_active_users.len() implies same_activity(
        #[trigger] ba.least_active_users@[i],
        bb.least_active_users@[i],
    ) by {
        assert(activity_fits(ba.least_active_users@[i], users[qa[qa.len() - 1 - i] as int], entries));
        assert(activity_fits(bb.least_active_users@[i], users[qb[qb.len() - 1 - i] as int], entries));
    }

    lemma_price_bounds(entries);
    let (c1, c2) = (r1.price_trends.price_comparisons, r2.price_trends.price_comparisons);
    if entries.len() > 0 {
        if lowest_price(entries) > 0 {
            assert(c1.price_change_percentage == c2.price_change_percentage);
        } else {
            assert(c1.price_change_percentage == Option::<Ratio>::None);
            assert(c2.price_change_percentage == Option::<Ratio>::None);
        }
    }
    assert(c1 == c2);

    let k4 = spend_keys(users, entries);
    let (a, b) = (r1.cost_analytics.cost_per_user_stats.top_spenders@, r2.cost_analytics.cost_per_user_stats.top_spenders@);
    let pa = choose|p: Seq<usize>| #[trigger] is_rank_order(k4, p) && a.len() == min_of(10, p.len() as int)
        && forall|i: int| 0 <= i < a.len() ==> a[i] == spending_row(users[#[trigger] p[i] as int], entries);
    let pb = choose|p: Seq<usize>| #[trigger] is_rank_order(k4, p) && b.len() == min_of(10, p.len() as int)
        && forall|i: int| 0 <= i < b.len() ==> b[i] == spending_row(users[#[trigger] p[i] as int], entries);
    lemma_rank_order_unique(k4, pa, pb);
    assert forall|i: int| 0 <= i < a.len() implies a[i] == b[i] by {
        assert(a[i] == spending_row(users[pa[i] as int], entries));
        assert(b[i] == spending_row(users[pb[i] as int], entries));
    }
    assert(a =~= b);

    let k5 = score_keys(active_users(users, entries), entries);
    let rows = efficiency_rows(users, entries);
    let (e1, e2) = (r1.fuel_efficiency_stats, r2.fuel_efficiency_stats);
    let pa = choose|p: Seq<usize>| #[trigger] is_rank_order(k5, p)
        && picks_from_start(rows, p, 5, e1.most_efficient_users@)
        && picks_from_end(rows, p, 5, e1.least_efficient_users@);
    let pb = choose|p: Seq<usize>| #[trigger] is_rank_order(k5, p)
        && picks_from_start(rows, p, 5, e2.most_efficient_users@)
        && picks_from_end(rows, p, 5, e2.least_efficient_users@);
    lemma_rank_order_unique(k5, pa, pb);
    let (o1, o2) = (e1.odometer_analytics, e2.odometer_analytics);
    lemma_tracked_bounds(users, entries);
    if tracked_entries(users, entries) == 0 {
        assert(o1.average_distance_per_entry == Option::<Ratio>::None);
        assert(o2.average_distance_per_entry == Option::<Ratio>::None);
    }
    if tracked_distance(users, entries) == 0 {
        assert(o1.total_distance_tracked == Option::<u128>::None);
        assert(o2.total_distance_tracked == Option::<u128>::None);
    }
    assert forall|i: int| 0 <= i < e1.most_efficient_users@.len() implies e1.most_efficient_users@[i]
        == e2.most_efficient_users@[i] by {
        assert(e1.most_efficient_users@[i] == rows[pa[i] as int]);
        assert(e2.most_efficient_users@[i] == rows[pb[i] as int]);
    }
    assert forall|i: int| 0 <= i < e1.least_efficient_users@.len() implies e1.least_efficient_users@[i]
        == e2.least_efficient_users@[i] by {
        assert(e1.least_efficient_users@[i] == rows[pa[pa.len() - 1 - i] as int]);
        assert(e2.least_efficient_users@[i] == rows[pb[pb.len() - 1 - i] as int]);
    }
    assert(e1.most_efficient_users@ =~= e2.most_efficient_users@);
    assert(e1.least_efficient_users@ =~= e2.least_efficient_users@);
}

} // verus!
