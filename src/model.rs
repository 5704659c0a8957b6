use vstd::prelude::*;

use crate::calendar::Moment;

verus! {

/// Largest number of entries (or users) a report covers: counts are reported
/// as `i32`.
pub const MAX_RECORDS: usize = 0x7fff_ffff;

/// An exact non-negative fraction `num / den`.
#[derive(Clone, Copy, Debug, PartialEq, Eq, Structural)]
pub struct Ratio {
    pub num: u128,
    pub den: u128,
}

impl Ratio {
    /// The fraction `0 / 1`.
    pub fn zero() -> (r: Ratio)
        ensures
            r.num == 0,
            r.den == 1,
    {
        Ratio { num: 0, den: 1 }
    }

    /// The fraction `num / den`.
    pub fn of(num: u128, den: u128) -> (r: Ratio)
        ensures
            r.num == num,
            r.den == den,
    {
        Ratio { num, den }
    }
}

/// A registered account.
#[derive(Clone, Debug)]
pub struct User {
    pub id: String,
    pub email: String,
    pub password_hash: String,
    pub created_at: Moment,
}

/// One fill-up. `liters`, `price_per_liter`, `total_cost` and
/// `odometer_reading` are in thousandths. `total_cost` is taken as stored: it
/// is never recomputed from litres and price.
#[derive(Clone, Debug)]
pub struct FuelEntry {
    pub id: String,
    pub user_id: String,
    pub liters: u32,
    pub price_per_liter: u32,
    pub total_cost: u32,
    pub date_time: Moment,
    pub odometer_reading: Option<u32>,
}

impl User {
    /// A copy equal to `self`.
    pub fn duplicate(&self) -> (r: User)
        ensures
            r == *self,
    {
        User {
            id: self.id.clone(),
            email: self.email.clone(),
            password_hash: self.password_hash.clone(),
            created_at: self.created_at.duplicate(),
        }
    }
}

impl FuelEntry {
    /// A copy equal to `self`.
    pub fn duplicate(&self) -> (r: FuelEntry)
        ensures
            r == *self,
    {
        FuelEntry {
            id: self.id.clone(),
            user_id: self.user_id.clone(),
            liters: self.liters,
            price_per_liter: self.price_per_liter,
            total_cost: self.total_cost,
            date_time: self.date_time.duplicate(),
            odometer_reading: self.odometer_reading,
        }
    }
}

/// Sum of `total_cost` over `s`.
pub open spec fn sum_cost(s: Seq<FuelEntry>) -> int
    decreases s.len(),
{
    if s.len() == 0 {
        0
    } else {
        sum_cost(s.drop_last()) + s.last().total_cost
    }
}

/// Sum of `liters` over `s`.
pub open spec fn sum_liters(s: Seq<FuelEntry>) -> int
    decreases s.len(),
{
    if s.len() == 0 {
        0
    } else {
        sum_liters(s.drop_last()) + s.last().liters
    }
}

/// The entries of `s` owned by the user with id `uid`, in order.
pub open spec fn entries_of(s: Seq<FuelEntry>, uid: Seq<char>) -> Seq<FuelEntry>
    decreases s.len(),
{
    if s.len() == 0 {
        s
    } else if s.last().user_id@ == uid {
        entries_of(s.drop_last(), uid).push(s.last())
    } else {
        entries_of(s.drop_last(), uid)
    }
}

/// Largest value of a `u32` field.
pub open spec fn field_max() -> int {
    0xffff_ffff
}

pub proof fn lemma_sums_bounded(s: Seq<FuelEntry>)
    ensures
        0 <= sum_cost(s) <= s.len() * field_max(),
        0 <= sum_liters(s) <= s.len() * field_max(),
    decreases s.len(),
{
    if s.len() > 0 {
        lemma_sums_bounded(s.drop_last());
    }
}

pub proof fn lemma_entries_of_len(s: Seq<FuelEntry>, uid: Seq<char>)
    ensures
        entries_of(s, uid).len() <= s.len(),
    decreases s.len(),
{
    if s.len() > 0 {
        lemma_entries_of_len(s.drop_last(), uid);
    }
}

/// Number, cost and litres of the entries of one user.
pub fn owner_totals(entries: &Vec<FuelEntry>, uid: &String) -> (r: (usize, u64, u64))
    requires
        entries.len() <= MAX_RECORDS,
    ensures
        r.0 == entries_of(entries@, uid@).len(),
        r.1 == sum_cost(entries_of(entries@, uid@)),
        r.2 == sum_liters(entries_of(entries@, uid@)),
{
    let mut count: usize = 0;
    let mut cost: u64 = 0;
    let mut liters: u64 = 0;
    let mut i: usize = 0;
    while i < entries.len()
        invariant
            i <= entries.len(),
            entries.len() <= MAX_RECORDS,
            count == entries_of(entries@.take(i as int), uid@).len(),
            cost == sum_cost(entries_of(entries@.take(i as int), uid@)),
            liters == sum_liters(entries_of(entries@.take(i as int), uid@)),
        decreases entries.len() - i,
    {
        proof {
            assert(entries@.take(i + 1).drop_last() =~= entries@.take(i as int));
            lemma_entries_of_len(entries@.take(i as int), uid@);
            lemma_sums_bounded(entries_of(entries@.take(i as int), uid@));
            let x = entries_of(entries@.take(i as int), uid@);
            assert(x.push(entries@[i as int]).drop_last() =~= x);
        }
        let e = &entries[i];
        if e.user_id == *uid {
            count = count + 1;
            cost = cost + e.total_cost as u64;
            liters = liters + e.liters as u64;
        }
        i = i + 1;
    }
    proof {
        assert(entries@.take(entries.len() as int) =~= entries@);
    }
    (count, cost, liters)
}

} // verus!
