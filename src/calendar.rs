use vstd::prelude::*;

use chrono::Datelike;

verus! {

/// The UTC calendar fields of a Unix time: year, month (1 to 12) and day of
/// the week counted from Monday (0 to 6).
pub uninterp spec fn civil_date(secs: int) -> (int, int, int);

/// The UTC date of a Unix time written as `YYYY-MM-DD`.
pub uninterp spec fn iso_day(secs: int) -> Seq<char>;

/// Unix times up to this many seconds either side of the epoch (about
/// 253,000 years) lie well inside chrono's dates, years -262143 to 262142.
pub const CALENDAR_SPAN_SECS: i64 = 8_000_000_000_000;

/// Relies on chrono's `DateTime::from_timestamp` (`None` only when the day
/// falls outside its dates) and on `Datelike::year`, `Datelike::month` (1 to 12) and
/// `Weekday::num_days_from_monday` (0 to 6).
#[verifier::external_body]
fn civil_of(secs: i64) -> (r: Option<(i32, u32, u32)>)
    ensures
        r matches Some(t) ==> {
            &&& civil_date(secs as int) == (t.0 as int, t.1 as int, t.2 as int)
            &&& 1 <= t.1 <= 12
            &&& t.2 < 7
        },
        -CALENDAR_SPAN_SECS <= secs <= CALENDAR_SPAN_SECS ==> r is Some,
{
    match chrono::DateTime::from_timestamp(secs, 0) {
        Some(d) => Some((d.year(), d.month(), d.weekday().num_days_from_monday())),
        None => None,
    }
}

/// Relies on chrono's `DateTime::from_timestamp` and its `format("%Y-%m-%d")`,
/// which cannot fail on a valid date.
#[verifier::external_body]
fn day_text_of(secs: i64) -> (r: Option<String>)
    ensures
        r matches Some(s) ==> s@ == iso_day(secs as int),
        -CALENDAR_SPAN_SECS <= secs <= CALENDAR_SPAN_SECS ==> r is Some,
{
    match chrono::DateTime::from_timestamp(secs, 0) {
        Some(d) => Some(d.format("%Y-%m-%d").to_string()),
        None => None,
    }
}

/// A point in time: its Unix seconds and the UTC calendar fields the
/// statistics group by.
#[derive(Clone, Debug)]
pub struct Moment {
    pub secs: i64,
    pub year: i32,
    pub month: u32,
    pub weekday: u32,
    pub day_text: String,
}

impl Moment {
    /// A copy equal to `self`.
    pub fn duplicate(&self) -> (r: Moment)
        ensures
            r == *self,
    {
        Moment {
            secs: self.secs,
            year: self.year,
            month: self.month,
            weekday: self.weekday,
            day_text: self.day_text.clone(),
        }
    }

    /// The fields agree with the calendar.
    pub open spec fn wf(&self) -> bool {
        &&& civil_date(self.secs as int) == (self.year as int, self.month as int, self.weekday as int)
        &&& 1 <= self.month <= 12
        &&& self.weekday < 7
        &&& self.day_text@ == iso_day(self.secs as int)
    }

    /// The moment `secs` seconds after the Unix epoch, or `None` where the
    /// calendar cannot represent it; always a moment within
    /// `CALENDAR_SPAN_SECS` of the epoch.
    pub fn from_unix(secs: i64) -> (r: Option<Moment>)
        ensures
            r matches Some(m) ==> m.secs == secs && m.wf(),
            -CALENDAR_SPAN_SECS <= secs <= CALENDAR_SPAN_SECS ==> r is Some,
    {
        match civil_of(secs) {
            Some(t) => match day_text_of(secs) {
                Some(s) => Some(Moment { secs, year: t.0, month: t.1, weekday: t.2, day_text: s }),
                None => None,
            },
            None => None,
        }
    }
}

/// English name of a month number; anything outside 1 to 12 is "Unknown".
pub open spec fn month_name_spec(m: int) -> Seq<char> {
    if m == 1 { "January"@ }
    else if m == 2 { "February"@ }
    else if m == 3 { "March"@ }
    else if m == 4 { "April"@ }
    else if m == 5 { "May"@ }
    else if m == 6 { "June"@ }
    else if m == 7 { "July"@ }
    else if m == 8 { "August"@ }
    else if m == 9 { "September"@ }
    else if m == 10 { "October"@ }
    else if m == 11 { "November"@ }
    else if m == 12 { "December"@ }
    else { "Unknown"@ }
}

/// English name of a month number.
pub fn month_name(m: u32) -> (r: String)
    ensures
        r@ == month_name_spec(m as int),
{
    let s: &str = if m == 1 { "January" }
    else if m == 2 { "February" }
    else if m == 3 { "March" }
    else if m == 4 { "April" }
    else if m == 5 { "May" }
    else if m == 6 { "June" }
    else if m == 7 { "July" }
    else if m == 8 { "August" }
    else if m == 9 { "September" }
    else if m == 10 { "October" }
    else if m == 11 { "November" }
    else if m == 12 { "December" }
    else { "Unknown" };
    String::from_str(s)
}

/// Position of a month's English name in alphabetical order, which is the
/// order the month labels sort in: April, August, December, February,
/// January, July, June, March, May, November, October, September, Unknown.
pub open spec fn month_name_rank_spec(m: int) -> int {
    if m == 4 { 0 }
    else if m == 8 { 1 }
    else if m == 12 { 2 }
    else if m == 2 { 3 }
    else if m == 1 { 4 }
    else if m == 7 { 5 }
    else if m == 6 { 6 }
    else if m == 3 { 7 }
    else if m == 5 { 8 }
    else if m == 11 { 9 }
    else if m == 10 { 10 }
    else if m == 9 { 11 }
    else { 12 }
}

/// Alphabetical position of a month's English name.
pub fn month_name_rank(m: u32) -> (r: u32)
    ensures
        r as int == month_name_rank_spec(m as int),
        r <= 12,
{
    if m == 4 { 0 }
    else if m == 8 { 1 }
    else if m == 12 { 2 }
    else if m == 2 { 3 }
    else if m == 1 { 4 }
    else if m == 7 { 5 }
    else if m == 6 { 6 }
    else if m == 3 { 7 }
    else if m == 5 { 8 }
    else if m == 11 { 9 }
    else if m == 10 { 10 }
    else if m == 9 { 11 }
    else { 12 }
}

} // verus!
