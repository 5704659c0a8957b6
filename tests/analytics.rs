use fuel_stats::calendar::{month_name, month_name_rank, Moment};
use fuel_stats::consumption::get_consumption_patterns;
use fuel_stats::cost::{cost_distribution, get_cost_analytics, top_spenders};
use fuel_stats::efficiency::get_fuel_efficiency_stats;
use fuel_stats::behavior::get_user_behavior_stats;
use fuel_stats::forecast::get_predictive_analytics;
use fuel_stats::model::{FuelEntry, Ratio, User};
use fuel_stats::monthly::{get_monthly_stats, get_user_registration_stats};
use fuel_stats::prices::get_price_trends;
use fuel_stats::report::{get_dashboard_stats, try_dashboard_stats};
use fuel_stats::totals::{
    average_price_per_liter, corpus_totals, get_users_with_most_entries, most_expensive_entries, recent_entries,
};

const JAN_5_2024: i64 = 1_704_412_800;
const FEB_10_2024: i64 = 1_707_523_200;
const DAY: i64 = 86_400;

fn at(secs: i64) -> Moment {
    Moment::from_unix(secs).expect("time in range")
}

fn user(id: &str, secs: i64) -> User {
    User {
        id: id.to_string(),
        email: format!("{}@example.com", id),
        password_hash: "hash".to_string(),
        created_at: at(secs),
    }
}

fn entry(id: &str, owner: &str, liters: u32, price: u32, cost: u32, secs: i64, odo: Option<u32>) -> FuelEntry {
    FuelEntry {
        id: id.to_string(),
        user_id: owner.to_string(),
        liters,
        price_per_liter: price,
        total_cost: cost,
        date_time: at(secs),
        odometer_reading: odo,
    }
}

fn ratio(num: u128, den: u128) -> Ratio {
    Ratio { num, den }
}

fn value(r: Ratio) -> f64 {
    r.num as f64 / r.den as f64
}

#[test]
fn moment_from_unix_reads_calendar_fields() {
    let m = at(JAN_5_2024);
    assert_eq!(m.secs, JAN_5_2024);
    assert_eq!(m.year, 2024);
    assert_eq!(m.month, 1);
    assert_eq!(m.weekday, 4);
    assert_eq!(m.day_text, "2024-01-05");
    let f = at(FEB_10_2024 + 3600);
    assert_eq!((f.year, f.month, f.weekday), (2024, 2, 5));
    assert_eq!(f.day_text, "2024-02-10");
    assert!(Moment::from_unix(i64::MAX).is_none());
    assert!(Moment::from_unix(fuel_stats::calendar::CALENDAR_SPAN_SECS).is_some());
    assert!(Moment::from_unix(-fuel_stats::calendar::CALENDAR_SPAN_SECS).is_some());
}

#[test]
fn month_names_and_alphabetical_rank() {
    assert_eq!(month_name(1), "January");
    assert_eq!(month_name(12), "December");
    assert_eq!(month_name(13), "Unknown");
    assert_eq!(month_name(0), "Unknown");
    assert_eq!(month_name_rank(4), 0);
    assert_eq!(month_name_rank(9), 11);
    assert_eq!(month_name_rank(0), 12);
}

#[test]
fn empty_corpus_reports_zeros() {
    let users: Vec<User> = Vec::new();
    let entries: Vec<FuelEntry> = Vec::new();
    let d = get_dashboard_stats(&users, &entries, 2025, 6);
    assert_eq!(d.total_users, 0);
    assert_eq!(d.total_fuel_entries, 0);
    assert_eq!(d.total_fuel_cost, 0);
    assert_eq!(d.total_liters, 0);
    assert_eq!(d.average_price_per_liter, ratio(0, 1));
    assert!(d.users_with_most_entries.is_empty());
    assert!(d.most_expensive_entries.is_empty());
    assert!(d.recent_entries.is_empty());
    assert!(d.monthly_stats.is_empty());
    assert!(d.user_registration_stats.is_empty());
    assert_eq!(d.fuel_efficiency_stats.average_fuel_per_entry, ratio(0, 1));
    assert!(d.fuel_efficiency_stats.most_efficient_users.is_empty());
    assert!(d.fuel_efficiency_stats.least_efficient_users.is_empty());
    assert_eq!(d.fuel_efficiency_stats.odometer_analytics.users_with_odometer, 0);
    assert!(d.fuel_efficiency_stats.odometer_analytics.fuel_per_km.is_none());
    assert_eq!(d.consumption_patterns.fill_up_patterns.average_fillup_size, ratio(0, 1));
    assert_eq!(d.consumption_patterns.weekly_patterns.len(), 7);
    assert_eq!(d.consumption_patterns.weekly_patterns[0].entry_count, 0);
    assert_eq!(d.cost_analytics.cost_distribution.cost_ranges[0].percentage, ratio(0, 1));
    assert_eq!(d.cost_analytics.cost_per_user_stats.average_cost_per_user, ratio(0, 1));
    assert_eq!(d.user_behavior_stats.engagement_metrics.feature_usage_stats.odometer_usage_rate, ratio(0, 1));
    assert_eq!(d.price_trends.price_volatility.mean_price, ratio(0, 1));
    assert_eq!(d.price_trends.price_volatility.most_volatile_period, "N/A");
    assert_eq!(d.price_trends.price_volatility.least_volatile_period, "N/A");
    assert_eq!(d.price_trends.price_comparisons.current_vs_last_month, ratio(0, 1));
    assert_eq!(d.cost_analytics.budget_analysis.highest_spending_month, "June 2025");
    assert_eq!(d.user_behavior_stats.engagement_metrics.average_session_entries, ratio(3, 2));
    assert_eq!(d.predictive_analytics.user_growth_forecast[0].growth_rate, ratio(10, 1));
    assert_eq!(d.predictive_analytics.fuel_price_forecast[0].trend_direction, "Increasing");
    assert!(d.price_trends.regional_price_data.is_empty());
    let first = &d.predictive_analytics.fuel_price_forecast[0];
    assert_eq!(value(first.predicted_price), 120.0 * 1.02);
    assert_eq!(d.predictive_analytics.user_growth_forecast[0].predicted_new_users, 1);
}

#[test]
fn one_user_two_months() {
    let users = vec![user("a", JAN_5_2024)];
    let entries = vec![
        entry("e1", "a", 10_000, 5_000, 50_000, JAN_5_2024, None),
        entry("e2", "a", 20_000, 4_000, 80_000, FEB_10_2024, None),
    ];
    let d = get_dashboard_stats(&users, &entries, 2025, 6);
    assert_eq!(d.total_fuel_cost, 130_000);
    assert_eq!(d.total_liters, 30_000);
    assert_eq!(d.average_price_per_liter, ratio(130_000, 30_000));
    assert_eq!(d.monthly_stats.len(), 2);
    assert_eq!(d.monthly_stats[0].total_entries, 1);
    assert_eq!(d.monthly_stats[1].total_entries, 1);
    // Months of one year sort by name from the end of the alphabet.
    assert_eq!(d.monthly_stats[0].month, "January");
    assert_eq!(d.monthly_stats[1].month, "February");
    assert_eq!(d.monthly_stats[0].average_price, ratio(50_000, 10_000));
}

#[test]
fn totals_are_exact_sums() {
    let entries = vec![
        entry("e1", "a", 12_345, 1_000, 7, JAN_5_2024, None),
        entry("e2", "b", 1, 1_000, 1_000_001, JAN_5_2024, None),
        entry("e3", "a", 4_294_967_295, 1_000, 4_294_967_295, JAN_5_2024, None),
    ];
    let (cost, liters) = corpus_totals(&entries);
    assert_eq!(cost, 7 + 1_000_001 + 4_294_967_295);
    assert_eq!(liters, 12_345 + 1 + 4_294_967_295);
}

#[test]
fn average_price_guards_zero_litres() {
    assert_eq!(average_price_per_liter(500, 0), ratio(0, 1));
    assert_eq!(average_price_per_liter(500, 200), ratio(500, 200));
    assert_eq!(value(average_price_per_liter(500, 200)), 2.5);
}

#[test]
fn user_with_more_entries_ranks_first() {
    let users = vec![user("b", JAN_5_2024), user("a", JAN_5_2024)];
    let mut entries = vec![entry("b1", "b", 10_000, 1_000, 10_000, JAN_5_2024, None)];
    for i in 0..5 {
        entries.push(entry(&format!("a{}", i), "a", 10_000, 1_000, 10_000, JAN_5_2024 + i * DAY, None));
    }
    let r = get_users_with_most_entries(&users, &entries);
    assert_eq!(r.len(), 2);
    assert_eq!(r[0].user_id, "a");
    assert_eq!(r[0].entry_count, 5);
    assert_eq!(r[0].total_cost, 50_000);
    assert_eq!(r[1].user_id, "b");
    assert_eq!(r[1].entry_count, 1);
}

#[test]
fn most_expensive_sorted_and_capped() {
    let mut entries = Vec::new();
    for i in 0..12u32 {
        let cost = (i * 7_919) % 13 * 1_000;
        entries.push(entry(&format!("e{}", i), "a", 1_000, 1_000, cost, JAN_5_2024 + i as i64, None));
    }
    let r = most_expensive_entries(&entries);
    assert_eq!(r.len(), 10);
    for w in r.windows(2) {
        assert!(w[0].total_cost >= w[1].total_cost);
    }
    let few = most_expensive_entries(&entries[..3].to_vec());
    assert_eq!(few.len(), 3);
}

#[test]
fn equal_costs_keep_input_order() {
    let entries = vec![
        entry("first", "a", 1_000, 1_000, 5_000, JAN_5_2024, None),
        entry("second", "a", 1_000, 1_000, 5_000, JAN_5_2024, None),
        entry("top", "a", 1_000, 1_000, 9_000, JAN_5_2024, None),
    ];
    let r = most_expensive_entries(&entries);
    let ids: Vec<&str> = r.iter().map(|e| e.id.as_str()).collect();
    assert_eq!(ids, vec!["top", "first", "second"]);
}

#[test]
fn recent_entries_latest_first() {
    let entries = vec![
        entry("old", "a", 1_000, 1_000, 1_000, JAN_5_2024, None),
        entry("new", "a", 1_000, 1_000, 1_000, FEB_10_2024, None),
        entry("mid", "a", 1_000, 1_000, 1_000, JAN_5_2024 + DAY, None),
    ];
    let r = recent_entries(&entries);
    let ids: Vec<&str> = r.iter().map(|e| e.id.as_str()).collect();
    assert_eq!(ids, vec!["new", "mid", "old"]);
}

#[test]
fn monthly_counts_cover_all_entries() {
    let mut entries = Vec::new();
    for i in 0..40i64 {
        entries.push(entry(&format!("e{}", i), "a", 1_000, 1_000, 1_000, JAN_5_2024 + i * 9 * DAY, None));
    }
    let m = get_monthly_stats(&entries);
    let total: u32 = m.iter().map(|r| r.total_entries).sum();
    assert_eq!(total, 40);
    for w in m.windows(2) {
        assert!(w[0].year > w[1].year || (w[0].year == w[1].year && w[0].month > w[1].month));
    }
}

#[test]
fn registrations_per_month() {
    let users = vec![user("a", JAN_5_2024), user("b", JAN_5_2024 + DAY), user("c", FEB_10_2024)];
    let r = get_user_registration_stats(&users);
    assert_eq!(r.len(), 2);
    assert_eq!(r[0].month, "January");
    assert_eq!(r[0].new_users, 2);
    assert_eq!(r[1].month, "February");
    assert_eq!(r[1].new_users, 1);
}

#[test]
fn cost_bands_and_percentages() {
    let entries = vec![
        entry("l", "a", 1_000, 1_000, 49_999, JAN_5_2024, None),
        entry("m1", "a", 1_000, 1_000, 50_000, JAN_5_2024, None),
        entry("m2", "a", 1_000, 1_000, 150_000, JAN_5_2024, None),
        entry("h", "a", 1_000, 1_000, 150_001, JAN_5_2024, None),
    ];
    let d = cost_distribution(&entries);
    assert_eq!((d.low_cost_entries, d.medium_cost_entries, d.high_cost_entries), (1, 2, 1));
    assert_eq!(d.cost_ranges[0].range, "Low (< $50)");
    assert_eq!(d.cost_ranges[1].percentage, ratio(200, 4));
    let sum: f64 = d.cost_ranges.iter().map(|c| value(c.percentage)).sum();
    assert!((sum - 100.0).abs() < 1e-9);
}

#[test]
fn cost_average_divides_by_top_spenders() {
    let users = vec![user("a", JAN_5_2024), user("b", JAN_5_2024), user("c", JAN_5_2024)];
    let entries = vec![
        entry("e1", "a", 1_000, 1_000, 30_000, JAN_5_2024, None),
        entry("e2", "b", 1_000, 1_000, 90_000, JAN_5_2024, None),
        entry("e3", "b", 1_000, 1_000, 10_000, JAN_5_2024, None),
    ];
    let c = get_cost_analytics(&users, &entries);
    let s = &c.cost_per_user_stats.top_spenders;
    assert_eq!(s.len(), 3);
    assert_eq!(s[0].user_id, "b");
    assert_eq!(s[0].total_spent, 100_000);
    assert_eq!(value(s[0].average_per_entry), 50.0);
    assert_eq!(s[2].user_id, "c");
    assert_eq!(s[2].average_per_entry, ratio(0, 1));
    assert_eq!(value(c.cost_per_user_stats.average_cost_per_user), 130.0 / 3.0);
    assert_eq!(c.budget_analysis.average_monthly_spending, 130_000);
    assert_eq!(top_spenders(&users, &entries).len(), 3);
}

#[test]
fn fill_up_sizes_fall_in_one_band() {
    let entries = vec![
        entry("s", "a", 5_000, 1_000, 5_000, JAN_5_2024, None),
        entry("m", "a", 15_000, 1_000, 15_000, JAN_5_2024, None),
        entry("l", "a", 35_000, 1_000, 35_000, FEB_10_2024, None),
    ];
    let p = get_consumption_patterns(&entries);
    let f = &p.fill_up_patterns;
    assert_eq!((f.small_fillups, f.medium_fillups, f.large_fillups), (1, 1, 1));
    assert_eq!(f.most_common_fillup_range, "Small (< 10L)");
    assert_eq!(value(f.average_fillup_size), 55.0 / 3.0);
    let friday = &p.weekly_patterns[4];
    assert_eq!(friday.day_of_week, "Friday");
    assert_eq!(friday.entry_count, 2);
    assert_eq!(friday.total_liters, 20_000);
    assert_eq!(value(friday.average_cost), 10.0);
    assert_eq!(p.weekly_patterns[5].entry_count, 1);
    assert_eq!(p.weekly_patterns[0].day_of_week, "Monday");
}

#[test]
fn efficiency_scores_and_distances() {
    let users = vec![user("a", JAN_5_2024), user("b", JAN_5_2024), user("idle", JAN_5_2024)];
    let entries = vec![
        entry("a2", "a", 20_000, 1_000, 20_000, JAN_5_2024 + 2 * DAY, Some(1_300_000)),
        entry("a1", "a", 20_000, 1_000, 20_000, JAN_5_2024, Some(1_000_000)),
        entry("a3", "a", 20_000, 1_000, 20_000, JAN_5_2024 + 3 * DAY, None),
        entry("b1", "b", 40_000, 1_000, 40_000, JAN_5_2024, Some(500_000)),
        entry("b2", "b", 40_000, 1_000, 40_000, JAN_5_2024 + DAY, Some(400_000)),
    ];
    let s = get_fuel_efficiency_stats(&users, &entries);
    assert_eq!(s.most_efficient_users.len(), 2);
    assert_eq!(s.most_efficient_users[0].user_id, "a");
    assert_eq!(value(s.most_efficient_users[0].fuel_efficiency_score), 5.0);
    assert_eq!(value(s.most_efficient_users[0].average_liters_per_entry), 20.0);
    assert_eq!(value(s.most_efficient_users[1].fuel_efficiency_score), 2.5);
    assert_eq!(s.least_efficient_users[0].user_id, "b");
    let o = &s.odometer_analytics;
    assert_eq!(o.users_with_odometer, 1);
    assert_eq!(o.users_without_odometer, 1);
    assert_eq!(o.total_distance_tracked, Some(300_000));
    assert_eq!(value(o.average_distance_per_entry.unwrap()), 100.0);
    assert_eq!(value(s.average_fuel_per_entry), 28.0);
    assert_eq!(value(o.fuel_per_km.unwrap()), 0.28);
}

#[test]
fn lower_average_gives_higher_score() {
    let users = vec![user("big", JAN_5_2024), user("small", JAN_5_2024)];
    let entries = vec![
        entry("x", "big", 50_000, 1_000, 1_000, JAN_5_2024, None),
        entry("y", "small", 8_000, 1_000, 1_000, JAN_5_2024, None),
    ];
    let s = get_fuel_efficiency_stats(&users, &entries);
    let best = &s.most_efficient_users[0];
    let worst = &s.most_efficient_users[1];
    assert_eq!(best.user_id, "small");
    assert!(value(best.average_liters_per_entry) < value(worst.average_liters_per_entry));
    assert!(value(best.fuel_efficiency_score) > value(worst.fuel_efficiency_score));
    assert_eq!(value(best.fuel_efficiency_score), 12.5);
}

#[test]
fn behaviour_activity_rows() {
    let users = vec![user("a", JAN_5_2024), user("none", JAN_5_2024)];
    let entries = vec![
        entry("a1", "a", 1_000, 1_000, 1_000, JAN_5_2024, Some(1)),
        entry("a2", "a", 1_000, 1_000, 1_000, JAN_5_2024 + 10 * DAY + 5, None),
        entry("a3", "a", 1_000, 1_000, 1_000, JAN_5_2024 + 3 * DAY, None),
    ];
    let b = get_user_behavior_stats(&users, &entries);
    let most = &b.activity_patterns.most_active_users;
    assert_eq!(most.len(), 2);
    assert_eq!(most[0].user_id, "a");
    assert_eq!(most[0].entry_count, 3);
    assert_eq!(most[0].days_active, 10);
    assert_eq!(most[0].average_entries_per_day, ratio(3, 10));
    assert_eq!(most[0].last_activity, "2024-01-15");
    assert_eq!(most[1].last_activity, "Never");
    assert_eq!(most[1].days_active, 0);
    assert_eq!(b.activity_patterns.least_active_users[0].user_id, "none");
    assert_eq!(value(b.engagement_metrics.feature_usage_stats.odometer_usage_rate), 100.0 / 3.0);
    assert_eq!(value(b.retention_analysis.churn_rate), 5.0);
}

#[test]
fn same_day_activity_counts_one_day() {
    let users = vec![user("a", JAN_5_2024)];
    let entries = vec![entry("a1", "a", 1_000, 1_000, 1_000, JAN_5_2024, None)];
    let b = get_user_behavior_stats(&users, &entries);
    assert_eq!(b.activity_patterns.most_active_users[0].days_active, 1);
    assert_eq!(b.activity_patterns.most_active_users[0].last_activity, "2024-01-05");
}

#[test]
fn price_trend_figures() {
    let entries = vec![
        entry("a", "u", 1_000, 1_000, 1_000, JAN_5_2024, None),
        entry("b", "u", 1_000, 3_000, 1_000, JAN_5_2024, None),
    ];
    let t = get_price_trends(&entries);
    assert_eq!(value(t.price_volatility.mean_price), 2.0);
    assert_eq!(value(t.price_volatility.price_variance), 1.0);
    assert_eq!(value(t.price_comparisons.lowest_recorded_price), 1.0);
    assert_eq!(value(t.price_comparisons.highest_recorded_price), 3.0);
    assert_eq!(value(t.price_comparisons.price_change_percentage.unwrap()), 200.0);
    assert_eq!(t.regional_price_data[0].region, "Global Average");
    assert_eq!(t.price_volatility.least_volatile_period, "June 2025");
    assert_eq!(t.price_comparisons.current_vs_last_year, ratio(0, 1));
    assert_eq!(t.regional_price_data[0].entry_count, 2);
}

#[test]
fn forecast_from_latest_month() {
    let entries = vec![
        entry("e1", "a", 10_000, 5_000, 50_000, JAN_5_2024, None),
        entry("e2", "a", 20_000, 4_000, 80_000, FEB_10_2024, None),
    ];
    let monthly = get_monthly_stats(&entries);
    let f = get_predictive_analytics(&monthly, 25, 2025, 6);
    assert_eq!(f.fuel_price_forecast.len(), 6);
    assert_eq!(f.fuel_price_forecast[0].month, "July");
    assert_eq!(f.fuel_price_forecast[0].year, 2025);
    assert_eq!(f.fuel_price_forecast[5].month, "December");
    assert!((value(f.fuel_price_forecast[0].predicted_price) - 5.0 * 1.02).abs() < 1e-12);
    assert!((value(f.consumption_forecast[1].predicted_consumption) - 10.0 * 1.10).abs() < 1e-12);
    assert_eq!(f.consumption_forecast[1].predicted_entries, 1);
    assert_eq!(f.user_growth_forecast[2].predicted_new_users, 2);
    assert_eq!(f.user_growth_forecast[2].predicted_total_users, 31);
    assert!((value(f.revenue_projections.next_month_revenue) - 50.0 * 1.1).abs() < 1e-12);
    let wrap = get_predictive_analytics(&monthly, 0, 2025, 11);
    assert_eq!(wrap.consumption_forecast[0].month, "December");
    assert_eq!(wrap.consumption_forecast[1].month, "January");
    assert_eq!(wrap.consumption_forecast[1].year, 2026);
}

#[test]
fn same_input_same_report() {
    let users = vec![user("a", JAN_5_2024), user("b", FEB_10_2024)];
    let entries = vec![
        entry("e1", "a", 10_000, 5_000, 50_000, JAN_5_2024, Some(10_000)),
        entry("e2", "a", 20_000, 4_000, 80_000, FEB_10_2024, Some(90_000)),
        entry("e3", "b", 35_000, 2_000, 70_000, FEB_10_2024, None),
    ];
    let first = get_dashboard_stats(&users, &entries, 2025, 6);
    let second = get_dashboard_stats(&users, &entries, 2025, 6);
    assert_eq!(format!("{:?}", first), format!("{:?}", second));
    let checked = try_dashboard_stats(&users, &entries, 2025, 6).expect("within bounds");
    assert_eq!(format!("{:?}", first), format!("{:?}", checked));
    assert!(try_dashboard_stats(&users, &entries, 2025, 13).is_none());
    assert!(try_dashboard_stats(&users, &entries, i32::MAX, 6).is_none());
}
