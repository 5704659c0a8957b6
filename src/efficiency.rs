use vstd::prelude::*;

use crate::model::{
    entries_of, field_max, lemma_entries_of_len, lemma_sums_bounded, owner_totals, sum_liters, FuelEntry, Ratio,
    User, MAX_RECORDS,
};
use crate::ranking::{fits_key, is_rank_order, rank_order};
use crate::totals::{corpus_totals, min_of};

verus! {

/// `t` with `x` placed after every entry not later than it.
pub open spec fn insert_by_time(t: Seq<FuelEntry>, x: FuelEntry) -> Seq<FuelEntry>
    decreases t.len(),
{
    if t.len() == 0 || t.last().date_time.secs <= x.date_time.secs {
        t.push(x)
    } else {
        insert_by_time(t.drop_last(), x).push(t.last())
    }
}

/// The entries of `s` from the earliest on; entries at the same time keep
/// their order.
pub open spec fn timeline(s: Seq<FuelEntry>) -> Seq<FuelEntry>
    decreases s.len(),
{
    if s.len() == 0 {
        s
    } else {
        insert_by_time(timeline(s.drop_last()), s.last())
    }
}

/// Whether the step from `a` to `b` has both readings, rising.
pub open spec fn step_counts(a: FuelEntry, b: FuelEntry) -> bool {
    a.odometer_reading is Some && b.odometer_reading is Some
        && b.odometer_reading->0 > a.odometer_reading->0
}

/// Distance of the step from `a` to `b`, 0 unless it counts.
pub open spec fn step_distance(a: FuelEntry, b: FuelEntry) -> int {
    if step_counts(a, b) { b.odometer_reading->0 - a.odometer_reading->0 } else { 0 }
}

/// Distance over consecutive entries of `t`.
pub open spec fn travel(t: Seq<FuelEntry>) -> int
    decreases t.len(),
{
    if t.len() < 2 {
        0
    } else {
        travel(t.drop_last()) + step_distance(t[t.len() - 2], t[t.len() - 1])
    }
}

/// Number of consecutive pairs of `t` whose step counts.
pub open spec fn counted_steps(t: Seq<FuelEntry>) -> int
    decreases t.len(),
{
    if t.len() < 2 {
        0
    } else {
        counted_steps(t.drop_last()) + if step_counts(t[t.len() - 2], t[t.len() - 1]) { 1int } else { 0int }
    }
}

proof fn lemma_insert_len(t: Seq<FuelEntry>, x: FuelEntry)
    ensures
        insert_by_time(t, x).len() == t.len() + 1,
    decreases t.len(),
{
    if t.len() > 0 {
        lemma_insert_len(t.drop_last(), x);
    }
}

proof fn lemma_timeline_len(s: Seq<FuelEntry>)
    ensures
        timeline(s).len() == s.len(),
    decreases s.len(),
{
    if s.len() > 0 {
        lemma_timeline_len(s.drop_last());
        lemma_insert_len(timeline(s.drop_last()), s.last());
    }
}

proof fn lemma_insert_at(t: Seq<FuelEntry>, x: FuelEntry, j: int)
    requires
        0 <= j <= t.len(),
        forall|q: int| j <= q < t.len() ==> (#[trigger] t[q]).date_time.secs > x.date_time.secs,
        j > 0 ==> t[j - 1].date_time.secs <= x.date_time.secs,
    ensures
        insert_by_time(t, x) == t.insert(j, x),
    decreases t.len(),
{
    if t.len() == j {
        assert(t.insert(j, x) =~= t.push(x));
    } else {
        let t2 = t.drop_last();
        assert forall|q: int| j <= q < t2.len() implies (#[trigger] t2[q]).date_time.secs > x.date_time.secs by {
            assert(t2[q] == t[q]);
        }
        lemma_insert_at(t2, x, j);
        assert(t.insert(j, x) =~= t2.insert(j, x).push(t.last()));
    }
}

proof fn lemma_travel_bounded(t: Seq<FuelEntry>)
    ensures
        0 <= travel(t) <= t.len() * field_max(),
        0 <= counted_steps(t) <= t.len(),
    decreases t.len(),
{
    if t.len() >= 2 {
        lemma_travel_bounded(t.drop_last());
    }
}

/// The entries of one user, from the earliest on.
pub fn user_timeline(entries: &Vec<FuelEntry>, uid: &String) -> (r: Vec<FuelEntry>)
    ensures
        r@ == timeline(entries_of(entries@, uid@)),
{
    let mut r: Vec<FuelEntry> = Vec::new();
    let mut i: usize = 0;
    while i < entries.len()
        invariant
            i <= entries.len(),
            r@ == timeline(entries_of(entries@.take(i as int), uid@)),
        decreases entries.len() - i,
    {
        proof {
            assert(entries@.take(i + 1).drop_last() =~= entries@.take(i as int));
        }
        let e = &entries[i];
        if e.user_id == *uid {
            let ghost before = r@;
            proof {
                let x = entries_of(entries@.take(i as int), uid@);
                assert(x.push(entries@[i as int]).drop_last() =~= x);
            }
            let mut j: usize = r.len();
            loop
                invariant
                    j <= r.len(),
                    forall|q: int| j <= q < r.len() ==> (#[trigger] r@[q]).date_time.secs > e.date_time.secs,
                ensures
                    j <= r.len(),
                    forall|q: int| j <= q < r.len() ==> (#[trigger] r@[q]).date_time.secs > e.date_time.secs,
                    j > 0 ==> r@[j - 1].date_time.secs <= e.date_time.secs,
                decreases j,
            {
                if j == 0 {
                    break;
                }
                if r[j - 1].date_time.secs <= e.date_time.secs {
                    break;
                }
                j = j - 1;
            }
            proof {
                lemma_insert_at(r@, *e, j as int);
            }
            r.insert(j, e.duplicate());
        }
        i = i + 1;
    }
    proof {
        assert(entries@.take(entries.len() as int) =~= entries@);
    }
    r
}

/// Distance over consecutive entries of `t` and the number of steps that
/// count: both readings present and rising.
pub fn travel_of(t: &Vec<FuelEntry>) -> (r: (u64, u64))
    requires
        t.len() <= MAX_RECORDS,
    ensures
        r.0 == travel(t@),
        r.1 == counted_steps(t@),
{
    let mut distance: u64 = 0;
    let mut steps: u64 = 0;
    if t.len() < 2 {
        return (0, 0);
    }
    let mut i: usize = 1;
    while i < t.len()
        invariant
            1 <= i <= t.len(),
            t.len() <= MAX_RECORDS,
            distance == travel(t@.take(i as int)),
            steps == counted_steps(t@.take(i as int)),
        decreases t.len() - i,
    {
        proof {
            let s = t@.take(i + 1);
            assert(s.drop_last() =~= t@.take(i as int));
            assert(s[s.len() - 2] == t@[i - 1]);
            assert(s[s.len() - 1] == t@[i as int]);
            lemma_travel_bounded(t@.take(i as int));
        }
        match (t[i - 1].odometer_reading, t[i].odometer_reading) {
            (Some(a), Some(b)) => {
                if b > a {
                    distance = distance + (b - a) as u64;
                    steps = steps + 1;
                }
            },
            _ => {},
        }
        i = i + 1;
    }
    proof {
        assert(t@.take(t.len() as int) =~= t@);
    }
    (distance, steps)
}

/// Most rows in each efficiency ranking.
pub const EFFICIENCY_ROWS: usize = 5;

/// Fill-up size and efficiency score of one user.
#[derive(Clone, Debug)]
pub struct UserEfficiency {
    pub user_id: String,
    pub email: String,
    pub average_liters_per_entry: Ratio,
    pub total_entries: u32,
    pub fuel_efficiency_score: Ratio,
}

/// Efficiency of one month; no rows are derived yet.
#[derive(Clone, Debug)]
pub struct EfficiencyTrend {
    pub month: String,
    pub year: i32,
    pub average_efficiency: Ratio,
    pub total_distance: Option<Ratio>,
    pub fuel_consumption_rate: Ratio,
}

/// Distances from odometer readings. `total_distance_tracked` is in
/// thousandths; the ratios are in units.
#[derive(Clone, Debug)]
pub struct OdometerAnalytics {
    pub users_with_odometer: u32,
    pub users_without_odometer: u32,
    pub average_distance_per_entry: Option<Ratio>,
    pub total_distance_tracked: Option<u128>,
    pub fuel_per_km: Option<Ratio>,
}

#[derive(Clone, Debug)]
pub struct FuelEfficiencyStats {
    pub average_fuel_per_entry: Ratio,
    pub most_efficient_users: Vec<UserEfficiency>,
    pub least_efficient_users: Vec<UserEfficiency>,
    pub efficiency_trends: Vec<EfficiencyTrend>,
    pub odometer_analytics: OdometerAnalytics,
}

/// Average litres per entry, in units; 0 without entries.
pub open spec fn liters_per_entry(liters: int, count: int) -> Ratio {
    if count > 0 {
        Ratio { num: liters as u128, den: (1000 * count) as u128 }
    } else {
        Ratio { num: 0, den: 1 }
    }
}

/// 100 over the average litres per entry; 0 when that average is 0.
pub open spec fn efficiency_score(liters: int, count: int) -> Ratio {
    if liters > 0 {
        Ratio { num: (100_000 * count) as u128, den: liters as u128 }
    } else {
        Ratio { num: 0, den: 1 }
    }
}

pub open spec fn user_score(u: User, s: Seq<FuelEntry>) -> Ratio {
    efficiency_score(sum_liters(entries_of(s, u.id@)), entries_of(s, u.id@).len() as int)
}

pub open spec fn efficiency_row(u: User, s: Seq<FuelEntry>) -> UserEfficiency {
    UserEfficiency {
        user_id: u.id,
        email: u.email,
        average_liters_per_entry: liters_per_entry(
            sum_liters(entries_of(s, u.id@)),
            entries_of(s, u.id@).len() as int,
        ),
        total_entries: entries_of(s, u.id@).len() as u32,
        fuel_efficiency_score: user_score(u, s),
    }
}

/// The users of `users` that own at least one entry, in order.
pub open spec fn active_users(users: Seq<User>, s: Seq<FuelEntry>) -> Seq<User>
    decreases users.len(),
{
    if users.len() == 0 {
        users
    } else if entries_of(s, users.last().id@).len() > 0 {
        active_users(users.drop_last(), s).push(users.last())
    } else {
        active_users(users.drop_last(), s)
    }
}

pub open spec fn score_keys(users: Seq<User>, s: Seq<FuelEntry>) -> Seq<Ratio> {
    users.map_values(|u: User| user_score(u, s))
}

/// The user's entries, in time order, have at least one counted step.
pub open spec fn tracks(u: User, s: Seq<FuelEntry>) -> bool {
    counted_steps(timeline(entries_of(s, u.id@))) > 0
}

/// Number of users that track distance.
pub open spec fn tracked_users(users: Seq<User>, s: Seq<FuelEntry>) -> int
    decreases users.len(),
{
    if users.len() == 0 {
        0
    } else {
        tracked_users(users.drop_last(), s) + if tracks(users.last(), s) { 1int } else { 0int }
    }
}

/// Distance covered by the users that track distance.
pub open spec fn tracked_distance(users: Seq<User>, s: Seq<FuelEntry>) -> int
    decreases users.len(),
{
    if users.len() == 0 {
        0
    } else {
        tracked_distance(users.drop_last(), s) + if tracks(users.last(), s) {
            travel(timeline(entries_of(s, users.last().id@)))
        } else {
            0int
        }
    }
}

/// Number of entries of the users that track distance.
pub open spec fn tracked_entries(users: Seq<User>, s: Seq<FuelEntry>) -> int
    decreases users.len(),
{
    if users.len() == 0 {
        0
    } else {
        tracked_entries(users.drop_last(), s) + if tracks(users.last(), s) {
            entries_of(s, users.last().id@).len() as int
        } else {
            0int
        }
    }
}

/// `r` holds the last `k` rows of `rows` in the order `p`, from the end.
pub open spec fn picks_from_end(rows: Seq<UserEfficiency>, p: Seq<usize>, k: int, r: Seq<UserEfficiency>) -> bool {
    &&& r.len() == min_of(k, p.len() as int)
    &&& forall|i: int| 0 <= i < r.len() ==> r[i] == rows[#[trigger] p[p.len() - 1 - i] as int]
}

/// `r` holds the first `k` rows of `rows` in the order `p`.
pub open spec fn picks_from_start(rows: Seq<UserEfficiency>, p: Seq<usize>, k: int, r: Seq<UserEfficiency>) -> bool {
    &&& r.len() == min_of(k, p.len() as int)
    &&& forall|i: int| 0 <= i < r.len() ==> r[i] == rows[#[trigger] p[i] as int]
}

/// Efficiency rows of the users that own entries.
pub open spec fn efficiency_rows(users: Seq<User>, s: Seq<FuelEntry>) -> Seq<UserEfficiency> {
    active_users(users, s).map_values(|u: User| efficiency_row(u, s))
}

pub proof fn lemma_tracked_bounds(users: Seq<User>, s: Seq<FuelEntry>)
    ensures
        0 <= tracked_users(users, s) <= active_users(users, s).len() <= users.len(),
        0 <= tracked_distance(users, s) <= users.len() * (s.len() * field_max()),
        0 <= tracked_entries(users, s) <= users.len() * s.len(),
    decreases users.len(),
{
    if users.len() > 0 {
        let u = users.last();
        let e = entries_of(s, u.id@);
        lemma_tracked_bounds(users.drop_last(), s);
        lemma_entries_of_len(s, u.id@);
        lemma_timeline_len(e);
        lemma_travel_bounded(timeline(e));
        if tracks(u, s) {
            assert(e.len() > 0);
        }
        assert(s.len() * field_max() >= e.len() * field_max()) by (nonlinear_arith)
            requires s.len() >= e.len();
        assert((users.len() - 1) * (s.len() * field_max()) + s.len() * field_max()
            == users.len() * (s.len() * field_max())) by (nonlinear_arith);
        assert((users.len() - 1) * s.len() + s.len() == users.len() * s.len()) by (nonlinear_arith);
    }
}

/// `r` is the efficiency statistics of `users` and `entries`.
pub open spec fn efficiency_fits(users: Seq<User>, entries: Seq<FuelEntry>, r: FuelEfficiencyStats) -> bool {
    &&& (r.average_fuel_per_entry == liters_per_entry(sum_liters(entries), entries.len() as int))
    &&& (exists|p: Seq<usize>| #[trigger] is_rank_order(score_keys(active_users(users, entries), entries), p)
            && picks_from_start(efficiency_rows(users, entries), p, 5, r.most_efficient_users@)
            && picks_from_end(efficiency_rows(users, entries), p, 5, r.least_efficient_users@))
    &&& (r.efficiency_trends.len() == 0)
    &&& (r.odometer_analytics.users_with_odometer == tracked_users(users, entries))
    &&& (r.odometer_analytics.users_without_odometer == active_users(users, entries).len() - tracked_users(
            users,
            entries))
    &&& (tracked_entries(users, entries) > 0 ==> r.odometer_analytics.average_distance_per_entry == Some(
            Ratio {
                num: tracked_distance(users, entries) as u128,
                den: (1000 * tracked_entries(users, entries)) as u128,
            }))
    &&& (tracked_entries(users, entries) == 0 ==> r.odometer_analytics.average_distance_per_entry is None)
    &&& (tracked_distance(users, entries) > 0 ==> r.odometer_analytics.total_distance_tracked == Some(
            tracked_distance(users, entries) as u128))
    &&& (tracked_distance(users, entries) == 0 ==> r.odometer_analytics.total_distance_tracked is None)
    &&& (tracked_distance(users, entries) > 0 && sum_liters(entries) > 0 ==> r.odometer_analytics.fuel_per_km
            == Some(
            Ratio {
                num: (sum_liters(entries) * tracked_entries(users, entries)) as u128,
                den: (entries.len() * tracked_distance(users, entries)) as u128,
            }))
    &&& (!(tracked_distance(users, entries) > 0 && sum_liters(entries) > 0) ==> r.odometer_analytics.fuel_per_km is None)
}

/// Efficiency statistics. Each user with entries gets a score of 100 over
/// their average litres per entry (0 when that average is 0); the five best
/// and the five worst are listed (the two lists overlap when fewer than ten
/// users have entries). Distances come from consecutive readings of each
/// user's entries in time order; `fuel_per_km` divides the average litres
/// per entry over all entries by the average distance per entry of the users
/// that track distance.
pub fn get_fuel_efficiency_stats(users: &Vec<User>, entries: &Vec<FuelEntry>) -> (r: FuelEfficiencyStats)
    requires
        entries.len() <= MAX_RECORDS,
        users.len() <= MAX_RECORDS,
    ensures
        efficiency_fits(users@, entries@, r),
{
    let ghost s = entries@;
    let mut rows: Vec<UserEfficiency> = Vec::new();
    let mut keys: Vec<Ratio> = Vec::new();
    let mut odo_users: u32 = 0;
    let mut distance: u128 = 0;
    let mut tracked_count: u64 = 0;
    let mut i: usize = 0;
    while i < users.len()
        invariant
            i <= users.len(),
            users.len() <= MAX_RECORDS,
            entries.len() <= MAX_RECORDS,
            s == entries@,
            rows@ =~= efficiency_rows(users@.take(i as int), s),
            keys@ =~= score_keys(active_users(users@.take(i as int), s), s),
            forall|t: int| 0 <= t < keys.len() ==> fits_key(#[trigger] keys@[t]),
            odo_users == tracked_users(users@.take(i as int), s),
            distance == tracked_distance(users@.take(i as int), s),
            tracked_count == tracked_entries(users@.take(i as int), s),
        decreases users.len() - i,
    {
        let u = &users[i];
        let ghost pre = users@.take(i as int);
        proof {
            assert(users@.take(i + 1).drop_last() =~= pre);
            assert(users@.take(i + 1).last() == *u);
            lemma_tracked_bounds(pre, s);
            lemma_tracked_bounds(users@.take(i + 1), s);
            assert(i * (s.len() * field_max()) <= MAX_RECORDS * (MAX_RECORDS * field_max())) by (nonlinear_arith)
                requires i <= MAX_RECORDS, s.len() <= MAX_RECORDS;
            assert(i * s.len() <= MAX_RECORDS * MAX_RECORDS) by (nonlinear_arith)
                requires i <= MAX_RECORDS, s.len() <= MAX_RECORDS;
            assert((i + 1) * (s.len() * field_max()) <= MAX_RECORDS * (MAX_RECORDS * field_max())) by (nonlinear_arith)
                requires i + 1 <= MAX_RECORDS, s.len() <= MAX_RECORDS;
            assert((i + 1) * s.len() <= MAX_RECORDS * MAX_RECORDS) by (nonlinear_arith)
                requires i + 1 <= MAX_RECORDS, s.len() <= MAX_RECORDS;
        }
        let (count, _, liters) = owner_totals(entries, &u.id);
        proof {
            lemma_entries_of_len(s, u.id@);
            lemma_sums_bounded(entries_of(s, u.id@));
        }
        if count > 0 {
            let timeline_entries = user_timeline(entries, &u.id);
            proof {
                lemma_timeline_len(entries_of(s, u.id@));
            }
            let (d, steps) = travel_of(&timeline_entries);
            if steps > 0 {
                odo_users = odo_users + 1;
                distance = distance + d as u128;
                tracked_count = tracked_count + count as u64;
            }
            let score = if liters > 0 { Ratio::of(100_000 * count as u128, liters as u128) } else { Ratio::zero() };
            let average = Ratio::of(liters as u128, 1000 * count as u128);
            rows.push(UserEfficiency {
                user_id: u.id.clone(),
                email: u.email.clone(),
                average_liters_per_entry: average,
                total_entries: count as u32,
                fuel_efficiency_score: score,
            });
            keys.push(score);
            proof {
                assert(active_users(users@.take(i + 1), s) == active_users(pre, s).push(*u));
            }
        } else {
            proof {
                lemma_timeline_len(entries_of(s, u.id@));
                assert(!tracks(*u, s));
            }
        }
        i = i + 1;
    }
    proof {
        assert(users@.take(users.len() as int) =~= users@);
        lemma_tracked_bounds(users@, s);
    }
    let p = rank_order(&keys);
    let k = p.len();
    let m = if EFFICIENCY_ROWS <= k { EFFICIENCY_ROWS } else { k };
    let mut most: Vec<UserEfficiency> = Vec::new();
    let mut least: Vec<UserEfficiency> = Vec::new();
    let mut j: usize = 0;
    while j < m
        invariant
            j <= m,
            m <= k,
            k == p.len(),
            m == min_of(5, k as int),
            is_rank_order(keys@, p@),
            keys.len() == rows.len(),
            most.len() == j,
            least.len() == j,
            forall|t: int| 0 <= t < j ==> most@[t] == rows@[#[trigger] p@[t] as int],
            forall|t: int| 0 <= t < j ==> least@[t] == rows@[#[trigger] p@[k - 1 - t] as int],
        decreases m - j,
    {
        most.push(rows[p[j]].clone_row());
        least.push(rows[p[k - 1 - j]].clone_row());
        j = j + 1;
    }
    let (_, total_liters) = corpus_totals(entries);
    proof {
        lemma_sums_bounded(s);
    }
    let n = entries.len();
    let average_fuel_per_entry = if n > 0 { Ratio::of(total_liters as u128, 1000 * n as u128) } else { Ratio::zero() };
    let average_distance_per_entry = if tracked_count > 0 {
        Some(Ratio::of(distance, 1000 * tracked_count as u128))
    } else {
        None
    };
    let total_distance_tracked = if distance > 0 { Some(distance) } else { None };
    let fuel_per_km = if distance > 0 && total_liters > 0 {
        proof {
            assert(users@.len() * (s.len() * field_max()) <= MAX_RECORDS * (MAX_RECORDS * field_max())) by (nonlinear_arith)
                requires users@.len() <= MAX_RECORDS, s.len() <= MAX_RECORDS;
            assert(users@.len() * s.len() <= MAX_RECORDS * MAX_RECORDS) by (nonlinear_arith)
                requires users@.len() <= MAX_RECORDS, s.len() <= MAX_RECORDS;
            assert(total_liters * tracked_count <= (MAX_RECORDS * field_max()) * (MAX_RECORDS * MAX_RECORDS)) by (nonlinear_arith)
                requires total_liters <= MAX_RECORDS * field_max(), tracked_count <= MAX_RECORDS * MAX_RECORDS;
            assert(n * distance <= MAX_RECORDS * (MAX_RECORDS * (MAX_RECORDS * field_max()))) by (nonlinear_arith)
                requires n <= MAX_RECORDS, distance <= MAX_RECORDS * (MAX_RECORDS * field_max());
            assert(users@.len() * (s.len() * field_max()) <= MAX_RECORDS * (MAX_RECORDS * field_max())) by (nonlinear_arith)
                requires users@.len() <= MAX_RECORDS, s.len() <= MAX_RECORDS;
            assert(users@.len() * s.len() <= MAX_RECORDS * MAX_RECORDS) by (nonlinear_arith)
                requires users@.len() <= MAX_RECORDS, s.len() <= MAX_RECORDS;
        }
        Some(Ratio::of(total_liters as u128 * tracked_count as u128, n as u128 * distance))
    } else {
        None
    };
    proof {
        assert(users@.len() * (s.len() * field_max()) <= MAX_RECORDS * (MAX_RECORDS * field_max())) by (nonlinear_arith)
            requires users@.len() <= MAX_RECORDS, s.len() <= MAX_RECORDS;
    }
    FuelEfficiencyStats {
        average_fuel_per_entry,
        most_efficient_users: most,
        least_efficient_users: least,
        // Not derived from the data yet.
        efficiency_trends: Vec::new(),
        odometer_analytics: OdometerAnalytics {
            users_with_odometer: odo_users,
            users_without_odometer: rows.len() as u32 - odo_users,
            average_distance_per_entry,
            total_distance_tracked,
            fuel_per_km,
        },
    }
}

/// `a` is a smaller fraction than `b`.
pub open spec fn ratio_lt(a: Ratio, b: Ratio) -> bool {
    a.num * b.den < b.num * a.den
}

/// The efficiency score strictly falls as the average litres per entry
/// grows: of two users with litres and entries, the one with the smaller
/// average has the higher score.
pub proof fn lemma_score_decreasing(l1: u64, n1: u32, l2: u64, n2: u32)
    requires
        l1 > 0,
        l2 > 0,
        0 < n1 <= MAX_RECORDS,
        0 < n2 <= MAX_RECORDS,
        ratio_lt(liters_per_entry(l1 as int, n1 as int), liters_per_entry(l2 as int, n2 as int)),
    ensures
        ratio_lt(efficiency_score(l2 as int, n2 as int), efficiency_score(l1 as int, n1 as int)),
{
    let (a, b, c, d) = (l1 as int, n1 as int, l2 as int, n2 as int);
    assert(a * (1000 * d) < c * (1000 * b));
    assert(a * d < c * b) by (nonlinear_arith)
        requires a * (1000 * d) < c * (1000 * b);
    assert((100_000 * d) * a < (100_000 * b) * c) by (nonlinear_arith)
        requires a * d < c * b;
}

impl UserEfficiency {
    /// A copy equal to `self`.
    pub fn clone_row(&self) -> (r: UserEfficiency)
        ensures
            r == *self,
    {
        UserEfficiency {
            user_id: self.user_id.clone(),
            email: self.email.clone(),
            average_liters_per_entry: self.average_liters_per_entry,
            total_entries: self.total_entries,
            fuel_efficiency_score: self.fuel_efficiency_score,
        }
    }
}

} // verus!
