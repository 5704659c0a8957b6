use vstd::prelude::*;

use crate::cost::percent_of;
use crate::model::{entries_of, lemma_entries_of_len, FuelEntry, Ratio, User, MAX_RECORDS};
use crate::ranking::{fits_key, is_rank_order, rank_order};
use crate::totals::{count_keys, min_of, TOP_ROWS};

verus! {

/// Seconds in a day.
pub const DAY_SECS: i128 = 86_400;

/// Activity of one user. `days_active` counts whole days between the first
/// and the last entry, at least 1 (0 without entries).
#[derive(Clone, Debug)]
pub struct UserActivity {
    pub user_id: String,
    pub email: String,
    pub entry_count: u32,
    pub days_active: u64,
    pub average_entries_per_day: Ratio,
    pub last_activity: String,
}

/// Users at one activity level; no rows are derived yet.
#[derive(Clone, Debug)]
pub struct ActivityDistribution {
    pub activity_level: String,
    pub user_count: u32,
    pub percentage: Ratio,
}

/// Entries in one period of the day; no rows are derived yet.
#[derive(Clone, Debug)]
pub struct PeakUsageTime {
    pub time_period: String,
    pub entry_count: i32,
    pub unique_users: i32,
}

#[derive(Clone, Debug)]
pub struct ActivityPatterns {
    pub most_active_users: Vec<UserActivity>,
    pub least_active_users: Vec<UserActivity>,
    pub activity_distribution: Vec<ActivityDistribution>,
    pub peak_usage_times: Vec<PeakUsageTime>,
}

#[derive(Clone, Debug)]
pub struct FeatureUsageStats {
    pub odometer_usage_rate: Ratio,
    pub bulk_entry_usage: u32,
    pub average_entry_completeness: Ratio,
}

#[derive(Clone, Debug)]
pub struct EngagementMetrics {
    pub average_session_entries: Ratio,
    pub user_consistency_score: Ratio,
    pub feature_usage_stats: FeatureUsageStats,
}

/// Users of one segment; no rows are derived yet.
#[derive(Clone, Debug)]
pub struct UserSegment {
    pub segment_name: String,
    pub user_count: u32,
    pub characteristics: String,
    pub average_spending: Ratio,
    pub average_entries: u32,
}

/// Retention figures; none is derived from the data yet.
#[derive(Clone, Debug)]
pub struct RetentionAnalysis {
    pub new_user_retention_7_day: Ratio,
    pub new_user_retention_30_day: Ratio,
    pub active_user_retention: Ratio,
    pub churn_rate: Ratio,
}

#[derive(Clone, Debug)]
pub struct UserBehaviorStats {
    pub activity_patterns: ActivityPatterns,
    pub engagement_metrics: EngagementMetrics,
    pub user_segments: Vec<UserSegment>,
    pub retention_analysis: RetentionAnalysis,
}

/// The earliest entry of a non-empty `s`; the first of equals.
pub open spec fn earliest(s: Seq<FuelEntry>) -> FuelEntry
    decreases s.len(),
{
    if s.len() <= 1 {
        s[0]
    } else if s.last().date_time.secs < earliest(s.drop_last()).date_time.secs {
        s.last()
    } else {
        earliest(s.drop_last())
    }
}

/// The latest entry of a non-empty `s`; the last of equals.
pub open spec fn latest(s: Seq<FuelEntry>) -> FuelEntry
    decreases s.len(),
{
    if s.len() <= 1 {
        s[0]
    } else if s.last().date_time.secs >= latest(s.drop_last()).date_time.secs {
        s.last()
    } else {
        latest(s.drop_last())
    }
}

/// Whole days from the first to the last entry of `s`, at least 1; 0 for no
/// entries.
pub open spec fn days_active_of(s: Seq<FuelEntry>) -> int {
    if s.len() == 0 {
        0
    } else {
        let d = (latest(s).date_time.secs - earliest(s).date_time.secs) / DAY_SECS as int;
        if d < 1 { 1 } else { d }
    }
}

/// Entries per active day; 0 without entries.
pub open spec fn per_day(count: int, days: int) -> Ratio {
    if days > 0 {
        Ratio { num: count as u128, den: days as u128 }
    } else {
        Ratio { num: 0, den: 1 }
    }
}

/// `r` is the activity row of user `u`.
pub open spec fn activity_fits(r: UserActivity, u: User, s: Seq<FuelEntry>) -> bool {
    let e = entries_of(s, u.id@);
    &&& r.user_id == u.id
    &&& r.email == u.email
    &&& r.entry_count == e.len()
    &&& r.days_active == days_active_of(e)
    &&& r.average_entries_per_day == per_day(e.len() as int, days_active_of(e))
    &&& r.last_activity@ == if e.len() > 0 { latest(e).date_time.day_text@ } else { "Never"@ }
}

/// Two activity rows hold the same figures and the same texts.
pub open spec fn same_activity(a: UserActivity, b: UserActivity) -> bool {
    &&& a.user_id == b.user_id
    &&& a.email == b.email
    &&& a.entry_count == b.entry_count
    &&& a.days_active == b.days_active
    &&& a.average_entries_per_day == b.average_entries_per_day
    &&& a.last_activity@ == b.last_activity@
}

/// Number of entries of `s` with an odometer reading.
pub open spec fn with_odometer(s: Seq<FuelEntry>) -> int
    decreases s.len(),
{
    if s.len() == 0 {
        0
    } else {
        with_odometer(s.drop_last()) + if s.last().odometer_reading is Some { 1int } else { 0int }
    }
}

proof fn lemma_with_odometer_bounded(s: Seq<FuelEntry>)
    ensures
        0 <= with_odometer(s) <= s.len(),
    decreases s.len(),
{
    if s.len() > 0 {
        lemma_with_odometer_bounded(s.drop_last());
    }
}

proof fn lemma_latest_in(s: Seq<FuelEntry>)
    requires
        s.len() > 0,
    ensures
        i64::MIN <= earliest(s).date_time.secs <= latest(s).date_time.secs <= i64::MAX,
    decreases s.len(),
{
    if s.len() > 1 {
        lemma_latest_in(s.drop_last());
    }
}

/// The activity row of one user.
fn activity_of(u: &User, entries: &Vec<FuelEntry>) -> (r: UserActivity)
    requires
        entries.len() <= MAX_RECORDS,
    ensures
        activity_fits(r, *u, entries@),
{
    let ghost s = entries@;
    let mut count: usize = 0;
    let mut first: i64 = 0;
    let mut last: usize = 0;
    let mut i: usize = 0;
    while i < entries.len()
        invariant
            i <= entries.len(),
            s == entries@,
            entries.len() <= MAX_RECORDS,
            count == entries_of(s.take(i as int), u.id@).len(),
            count > 0 ==> first == earliest(entries_of(s.take(i as int), u.id@)).date_time.secs,
            count > 0 ==> last < i && s[last as int] == latest(entries_of(s.take(i as int), u.id@)),
        decreases entries.len() - i,
    {
        proof {
            assert(s.take(i + 1).drop_last() =~= s.take(i as int));
            lemma_entries_of_len(s.take(i as int), u.id@);
            let x = entries_of(s.take(i as int), u.id@);
            assert(x.push(s[i as int]).drop_last() =~= x);
        }
        let e = &entries[i];
        if e.user_id == u.id {
            if count == 0 {
                first = e.date_time.secs;
                last = i;
            } else {
                if e.date_time.secs < first {
                    first = e.date_time.secs;
                }
                if e.date_time.secs >= entries[last].date_time.secs {
                    last = i;
                }
            }
            count = count + 1;
        }
        i = i + 1;
    }
    proof {
        assert(s.take(entries.len() as int) =~= s);
        lemma_entries_of_len(s, u.id@);
    }
    if count == 0 {
        return UserActivity {
            user_id: u.id.clone(),
            email: u.email.clone(),
            entry_count: 0,
            days_active: 0,
            average_entries_per_day: Ratio::zero(),
            last_activity: String::from_str("Never"),
        };
    }
    proof {
        lemma_latest_in(entries_of(s, u.id@));
    }
    let span = (entries[last].date_time.secs as i128 - first as i128) / DAY_SECS;
    let days: u64 = if span < 1 { 1 } else { span as u64 };
    UserActivity {
        user_id: u.id.clone(),
        email: u.email.clone(),
        entry_count: count as u32,
        days_active: days,
        average_entries_per_day: Ratio::of(count as u128, days as u128),
        last_activity: entries[last].date_time.day_text.clone(),
    }
}

impl UserActivity {
    /// A copy equal to `self`.
    pub fn clone_row(&self) -> (r: UserActivity)
        ensures
            r == *self,
    {
        UserActivity {
            user_id: self.user_id.clone(),
            email: self.email.clone(),
            entry_count: self.entry_count,
            days_active: self.days_active,
            average_entries_per_day: self.average_entries_per_day,
            last_activity: self.last_activity.clone(),
        }
    }
}

/// `r` is the behaviour statistics of `users` and `entries`.
pub open spec fn behavior_fits(users: Seq<User>, entries: Seq<FuelEntry>, r: UserBehaviorStats) -> bool {
    &&& (exists|p: Seq<usize>| #[trigger] is_rank_order(count_keys(users, entries), p)
            && r.activity_patterns.most_active_users.len() == min_of(10, p.len() as int)
            && r.activity_patterns.least_active_users.len() == min_of(10, p.len() as int)
            && (forall|i: int| 0 <= i < r.activity_patterns.most_active_users.len()
                ==> activity_fits(r.activity_patterns.most_active_users@[i], users[#[trigger] p[i] as int], entries))
            && (forall|i: int| 0 <= i < r.activity_patterns.least_active_users.len()
                ==> activity_fits(r.activity_patterns.least_active_users@[i], users[#[trigger] p[p.len() - 1 - i] as int], entries)))
    &&& (r.engagement_metrics.feature_usage_stats.odometer_usage_rate == percent_of(with_odometer(entries), entries.len() as int))
    &&& (r.activity_patterns.activity_distribution.len() == 0)
    &&& (r.activity_patterns.peak_usage_times.len() == 0)
    &&& (r.user_segments.len() == 0)
    &&& r.engagement_metrics.average_session_entries == (Ratio { num: 3, den: 2 })
    &&& r.engagement_metrics.user_consistency_score == (Ratio { num: 75, den: 1 })
    &&& r.engagement_metrics.feature_usage_stats.bulk_entry_usage == 0
    &&& r.engagement_metrics.feature_usage_stats.average_entry_completeness == (Ratio { num: 90, den: 1 })
    &&& r.retention_analysis.new_user_retention_7_day == (Ratio { num: 80, den: 1 })
    &&& r.retention_analysis.new_user_retention_30_day == (Ratio { num: 60, den: 1 })
    &&& r.retention_analysis.active_user_retention == (Ratio { num: 75, den: 1 })
    &&& r.retention_analysis.churn_rate == (Ratio { num: 5, den: 1 })
}

/// Behaviour statistics: users ranked by number of entries (ten most active,
/// and the ten last of that ranking from the end, which overlap when there
/// are fewer than twenty users), and the share of entries with an odometer
/// reading. Engagement, retention and segment figures are not derived from
/// the data yet: they are fixed placeholders.
pub fn get_user_behavior_stats(users: &Vec<User>, entries: &Vec<FuelEntry>) -> (r: UserBehaviorStats)
    requires
        entries.len() <= MAX_RECORDS,
    ensures
        behavior_fits(users@, entries@, r),
{
    let ghost s = entries@;
    let mut rows: Vec<UserActivity> = Vec::new();
    let mut keys: Vec<Ratio> = Vec::new();
    let mut i: usize = 0;
    while i < users.len()
        invariant
            i <= users.len(),
            entries.len() <= MAX_RECORDS,
            s == entries@,
            rows.len() == i,
            keys@ =~= count_keys(users@.take(i as int), s),
            forall|t: int| 0 <= t < i ==> activity_fits(#[trigger] rows@[t], users@[t], s),
            forall|t: int| 0 <= t < keys.len() ==> fits_key(#[trigger] keys@[t]),
        decreases users.len() - i,
    {
        let row = activity_of(&users[i], entries);
        proof {
            lemma_entries_of_len(s, users@[i as int].id@);
        }
        keys.push(Ratio::of(row.entry_count as u128, 1));
        rows.push(row);
        i = i + 1;
    }
    assert(users@.take(users.len() as int) =~= users@);
    let p = rank_order(&keys);
    let k = p.len();
    let m = if TOP_ROWS <= k { TOP_ROWS } else { k };
    let mut most: Vec<UserActivity> = Vec::new();
    let mut least: Vec<UserActivity> = Vec::new();
    let mut j: usize = 0;
    while j < m
        invariant
            j <= m,
            m <= k,
            k == p.len(),
            m == min_of(10, k as int),
            is_rank_order(keys@, p@),
            keys.len() == rows.len(),
            rows.len() == users.len(),
            forall|t: int| 0 <= t < rows.len() ==> activity_fits(#[trigger] rows@[t], users@[t], s),
            most.len() == j,
            least.len() == j,
            forall|t: int| 0 <= t < j ==> most@[t] == rows@[#[trigger] p@[t] as int],
            forall|t: int| 0 <= t < j ==> least@[t] == rows@[#[trigger] p@[k - 1 - t] as int],
        decreases m - j,
    {
        most.push(rows[p[j]].clone_row());
        least.push(rows[p[k - 1 - j]].clone_row());
        j = j + 1;
    }
    let mut odometer_entries: u32 = 0;
    let mut i: usize = 0;
    while i < entries.len()
        invariant
            i <= entries.len(),
            entries.len() <= MAX_RECORDS,
            odometer_entries == with_odometer(entries@.take(i as int)),
        decreases entries.len() - i,
    {
        proof {
            assert(entries@.take(i + 1).drop_last() =~= entries@.take(i as int));
            lemma_with_odometer_bounded(entries@.take(i as int));
        }
        if entries[i].odometer_reading.is_some() {
            odometer_entries = odometer_entries + 1;
        }
        i = i + 1;
    }
    assert(entries@.take(entries.len() as int) =~= entries@);
    let n = entries.len();
    let odometer_usage_rate = if n > 0 { Ratio::of(100 * odometer_entries as u128, n as u128) } else { Ratio::zero() };
    UserBehaviorStats {
        activity_patterns: ActivityPatterns {
            most_active_users: most,
            least_active_users: least,
            // Not derived from the data yet.
            activity_distribution: Vec::new(),
            peak_usage_times: Vec::new(),
        },
        engagement_metrics: EngagementMetrics {
            // Placeholders, not derived from the data.
            average_session_entries: Ratio::of(3, 2),
            user_consistency_score: Ratio::of(75, 1),
            feature_usage_stats: FeatureUsageStats {
                odometer_usage_rate,
                // Placeholders: bulk entries are not tracked, completeness is not measured.
                bulk_entry_usage: 0,
                average_entry_completeness: Ratio::of(90, 1),
            },
        },
        // Not derived from the data yet.
        user_segments: Vec::new(),
        // Placeholders, not derived from the data.
        retention_analysis: RetentionAnalysis {
            new_user_retention_7_day: Ratio::of(80, 1),
            new_user_retention_30_day: Ratio::of(60, 1),
            active_user_retention: Ratio::of(75, 1),
            churn_rate: Ratio::of(5, 1),
        },
    }
}

} // verus!
