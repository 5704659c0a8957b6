use vstd::prelude::*;
use vstd::string::StrSliceExecFns;

use crate::calendar::Moment;
use crate::model::{FuelEntry, Ratio};
use crate::ranking::{is_rank_order, lemma_ranks_ge_whole, rank_order, ranks_ge};
use crate::totals::time_keys;

verus! {

/// A stored entry row: its id, its owner and the serialized entry.
#[derive(Clone, Debug)]
pub struct FuelEntryDB {
    pub id: String,
    pub user_id: String,
    pub data: String,
}

#[derive(Clone, Debug)]
pub struct SignupRequest {
    pub email: String,
    pub password: String,
}

#[derive(Clone, Debug)]
pub struct SigninRequest {
    pub email: String,
    pub password: String,
}

#[derive(Clone, Debug)]
pub struct AuthResponse {
    pub user_id: String,
    pub email: String,
}

/// A new entry for a given user; amounts in thousandths.
#[derive(Clone, Debug)]
pub struct CreateFuelEntryRequest {
    pub user_id: String,
    pub liters: u32,
    pub price_per_liter: u32,
    pub total_cost: u32,
    pub date_time: Moment,
    pub odometer_reading: Option<u32>,
}

/// One entry of a batch; amounts in thousandths.
#[derive(Clone, Debug)]
pub struct FuelEntryData {
    pub liters: u32,
    pub price_per_liter: u32,
    pub total_cost: u32,
    pub date_time: Moment,
    pub odometer_reading: Option<u32>,
}

#[derive(Clone, Debug)]
pub struct CreateFuelEntriesRequest {
    pub user_id: String,
    pub entries: Vec<FuelEntryData>,
}

/// A partial update: fields left `None` keep their value. The odometer
/// reading can be set but not cleared.
#[derive(Clone, Debug)]
pub struct UpdateFuelEntryRequest {
    pub liters: Option<u32>,
    pub price_per_liter: Option<u32>,
    pub total_cost: Option<u32>,
    pub date_time: Option<Moment>,
    pub odometer_reading: Option<u32>,
}

#[derive(Clone, Debug)]
pub struct DeleteFuelEntriesRequest {
    pub user_id: String,
    pub entry_ids: Vec<String>,
}

#[derive(Clone, Debug)]
pub struct AdminActionRequest {
    pub action: String,
    pub user_id: Option<String>,
    pub entry_id: Option<String>,
}

#[derive(Clone, Debug)]
pub struct ServiceToggleRequest {
    pub service: String,
    pub enabled: bool,
}

/// Whether each switchable service is on.
#[derive(Clone, Copy, Debug, PartialEq, Eq, Structural)]
pub struct ServiceStatus {
    pub signin: bool,
    pub fuel_entry: bool,
}

/// What an admin action request asks for.
#[derive(Clone, Debug)]
pub enum AdminAction {
    DeleteUser { user_id: String },
    DeleteEntry { user_id: String, entry_id: String },
    /// `delete_user` without a user id.
    MissingUserId,
    /// `delete_entry` without both ids.
    MissingParameters,
    UnknownAction,
}

/// `entry` after the update `req`.
pub open spec fn updated(entry: FuelEntry, req: UpdateFuelEntryRequest) -> FuelEntry {
    FuelEntry {
        id: entry.id,
        user_id: entry.user_id,
        liters: if req.liters is Some { req.liters->0 } else { entry.liters },
        price_per_liter: if req.price_per_liter is Some { req.price_per_liter->0 } else { entry.price_per_liter },
        total_cost: if req.total_cost is Some { req.total_cost->0 } else { entry.total_cost },
        date_time: if req.date_time is Some { req.date_time->0 } else { entry.date_time },
        odometer_reading: if req.odometer_reading is Some { req.odometer_reading } else { entry.odometer_reading },
    }
}

/// Applies a partial update: each field given replaces the stored one; id
/// and owner never change.
pub fn apply_update(entry: &FuelEntry, req: &UpdateFuelEntryRequest) -> (r: FuelEntry)
    ensures
        r == updated(*entry, *req),
{
    FuelEntry {
        id: entry.id.clone(),
        user_id: entry.user_id.clone(),
        liters: match req.liters {
            Some(v) => v,
            None => entry.liters,
        },
        price_per_liter: match req.price_per_liter {
            Some(v) => v,
            None => entry.price_per_liter,
        },
        total_cost: match req.total_cost {
            Some(v) => v,
            None => entry.total_cost,
        },
        date_time: match &req.date_time {
            Some(m) => m.duplicate(),
            None => entry.date_time.duplicate(),
        },
        odometer_reading: match req.odometer_reading {
            Some(v) => Some(v),
            None => entry.odometer_reading,
        },
    }
}

/// The stored entry holds the same data as the batch entry (ids aside).
pub open spec fn same_data(e: FuelEntry, d: FuelEntryData) -> bool {
    &&& e.liters == d.liters
    &&& e.price_per_liter == d.price_per_liter
    &&& e.total_cost == d.total_cost
    &&& e.date_time.secs == d.date_time.secs
    &&& e.odometer_reading == d.odometer_reading
}

/// Some stored entry holds the data of `d`.
pub open spec fn already_stored(existing: Seq<FuelEntry>, d: FuelEntryData) -> bool {
    exists|i: int| 0 <= i < existing.len() && same_data(existing[i], d)
}

/// Whether a stored entry holds the data of a batch entry.
pub fn is_duplicate(e: &FuelEntry, d: &FuelEntryData) -> (r: bool)
    ensures
        r == same_data(*e, *d),
{
    e.liters == d.liters && e.price_per_liter == d.price_per_liter && e.total_cost == d.total_cost
        && e.date_time.secs == d.date_time.secs && e.odometer_reading == d.odometer_reading
}

/// Positions of the batch entries that duplicate no stored entry, in order.
/// Batch entries are not compared with each other.
pub fn fresh_entries(existing: &Vec<FuelEntry>, batch: &Vec<FuelEntryData>) -> (r: Vec<usize>)
    ensures
        forall|i: int, j: int| 0 <= i < j < r.len() ==> r@[i] < r@[j],
        forall|i: int| 0 <= i < r.len() ==> #[trigger] r@[i] < batch.len(),
        forall|k: int| 0 <= k < batch.len() ==> (r@.contains(k as usize) <==> !already_stored(existing@, #[trigger] batch@[k])),
{
    let mut r: Vec<usize> = Vec::new();
    let mut k: usize = 0;
    while k < batch.len()
        invariant
            k <= batch.len(),
            forall|i: int, j: int| 0 <= i < j < r.len() ==> r@[i] < r@[j],
            forall|i: int| 0 <= i < r.len() ==> #[trigger] r@[i] < k,
            forall|q: int| 0 <= q < k ==> (r@.contains(q as usize) <==> !already_stored(existing@, #[trigger] batch@[q])),
        decreases batch.len() - k,
    {
        let d = &batch[k];
        let mut found = false;
        let mut i: usize = 0;
        while i < existing.len()
            invariant
                i <= existing.len(),
                found <==> exists|t: int| 0 <= t < i && same_data(existing@[t], *d),
            decreases existing.len() - i,
        {
            if is_duplicate(&existing[i], d) {
                found = true;
            }
            i = i + 1;
        }
        let ghost before = r@;
        if !found {
            r.push(k);
        }
        proof {
            assert forall|q: int| 0 <= q < k + 1 implies (r@.contains(q as usize) <==> !already_stored(
                existing@,
                #[trigger] batch@[q],
            )) by {
                if q < k {
                    if before.contains(q as usize) {
                        let w = choose|w: int| 0 <= w < before.len() && before[w] == q as usize;
                        assert(r@[w] == q as usize);
                    }
                    if r@.contains(q as usize) {
                        let w = choose|w: int| 0 <= w < r@.len() && r@[w] == q as usize;
                        if w < before.len() {
                            assert(before[w] == q as usize);
                        }
                    }
                } else {
                    if !found {
                        assert(r@[r@.len() - 1] == k);
                    } else {
                        if r@.contains(q as usize) {
                            let w = choose|w: int| 0 <= w < r@.len() && r@[w] == q as usize;
                            assert(before[w] < k);
                        }
                    }
                }
            }
        }
        k = k + 1;
    }
    r
}

/// `r` is `entries` from the latest on; entries at the same time keep
/// their order.
pub open spec fn newest_first_fit(entries: Seq<FuelEntry>, r: Seq<FuelEntry>) -> bool {
    &&& r.len() == entries.len()
    &&& exists|p: Seq<usize>| #[trigger] is_rank_order(time_keys(entries), p)
        && forall|i: int| 0 <= i < r.len() ==> r[i] == entries[#[trigger] p[i] as int]
    &&& forall|i: int, j: int| 0 <= i < j < r.len() ==> r[i].date_time.secs >= r[j].date_time.secs
}

/// A user's entries as listed: latest first.
pub fn newest_first(entries: &Vec<FuelEntry>) -> (r: Vec<FuelEntry>)
    ensures
        newest_first_fit(entries@, r@),
{
    let mut keys: Vec<Ratio> = Vec::new();
    let mut i: usize = 0;
    while i < entries.len()
        invariant
            i <= entries.len(),
            keys@ =~= time_keys(entries@.take(i as int)),
        decreases entries.len() - i,
    {
        let shifted = (entries[i].date_time.secs as i128 + 0x8000_0000_0000_0000i128) as u128;
        keys.push(Ratio::of(shifted, 1));
        i = i + 1;
    }
    assert(entries@.take(entries.len() as int) =~= entries@);
    let p = rank_order(&keys);
    let mut r: Vec<FuelEntry> = Vec::new();
    let mut i: usize = 0;
    while i < p.len()
        invariant
            i <= p.len(),
            is_rank_order(keys@, p@),
            keys.len() == entries.len(),
            r.len() == i,
            forall|t: int| 0 <= t < i ==> r@[t] == entries@[#[trigger] p@[t] as int],
        decreases p.len() - i,
    {
        r.push(entries[p[i]].duplicate());
        i = i + 1;
    }
    assert forall|i: int, j: int| 0 <= i < j < r.len() implies r@[i].date_time.secs >= r@[j].date_time.secs by {
        let (a, b) = (p@[i] as int, p@[j] as int);
        assert(ranks_ge(keys@[a], keys@[b]));
        lemma_ranks_ge_whole(keys@[a], keys@[b]);
        assert(keys@[a].num == entries@[a].date_time.secs + 0x8000_0000_0000_0000);
        assert(keys@[b].num == entries@[b].date_time.secs + 0x8000_0000_0000_0000);
    }
    r
}

/// Whether `s` begins with `prefix`.
pub fn has_prefix(s: &str, prefix: &str) -> (r: bool)
    ensures
        r == prefix@.is_prefix_of(s@),
{
    let n = prefix.unicode_len();
    let m = s.unicode_len();
    if n > m {
        return false;
    }
    let mut i: usize = 0;
    while i < n
        invariant
            i <= n,
            n == prefix@.len(),
            n <= m,
            m == s@.len(),
            forall|t: int| 0 <= t < i ==> prefix@[t] == s@[t],
        decreases n - i,
    {
        if prefix.get_char(i) != s.get_char(i) {
            return false;
        }
        i = i + 1;
    }
    proof {
        assert(prefix@ =~= s@.subrange(0, n as int));
    }
    true
}

/// Whether two strings hold the same characters.
pub fn same_text(a: &str, b: &str) -> (r: bool)
    ensures
        r == (a@ == b@),
{
    let same_start = has_prefix(a, b);
    let r = same_start && a.unicode_len() == b.unicode_len();
    proof {
        if r {
            assert(a@ =~= b@);
        }
    }
    r
}

/// The prefix of an admin token in an `authorization` header.
pub open spec fn admin_token_prefix() -> Seq<char> {
    "Bearer admin_token_"@
}

/// Whether an `authorization` header value carries an admin token.
pub fn is_admin_token(auth: &str) -> (r: bool)
    ensures
        r == admin_token_prefix().is_prefix_of(auth@),
{
    has_prefix(auth, "Bearer admin_token_")
}

/// Whether `name` is a service that can be switched on and off.
pub fn is_known_service(name: &str) -> (r: bool)
    ensures
        r == (name@ == "signin"@ || name@ == "fuel_entry"@),
{
    same_text(name, "signin") || same_text(name, "fuel_entry")
}

/// Whether the given credentials are the configured admin's.
pub fn admin_credentials_match(email: &str, password: &str, admin_email: &str, admin_password: &str) -> (r: bool)
    ensures
        r == (email@ == admin_email@ && password@ == admin_password@),
{
    same_text(email, admin_email) && same_text(password, admin_password)
}

/// What an admin action request asks for: `delete_user` needs a user id,
/// `delete_entry` needs a user id and an entry id; any other action is
/// unknown.
pub fn plan_admin_action(req: &AdminActionRequest) -> (r: AdminAction)
    ensures
        req.action@ == "delete_user"@ ==> match req.user_id {
            Some(u) => r == (AdminAction::DeleteUser { user_id: u }),
            None => r is MissingUserId,
        },
        req.action@ == "delete_entry"@ ==> match (req.user_id, req.entry_id) {
            (Some(u), Some(e)) => r == (AdminAction::DeleteEntry { user_id: u, entry_id: e }),
            _ => r is MissingParameters,
        },
        req.action@ != "delete_user"@ && req.action@ != "delete_entry"@ ==> r is UnknownAction,
{
    proof {
        reveal_strlit("delete_user");
        reveal_strlit("delete_entry");
        assert("delete_user"@[7] != "delete_entry"@[7]);
    }
    if same_text(req.action.as_str(), "delete_user") {
        match &req.user_id {
            Some(u) => AdminAction::DeleteUser { user_id: u.clone() },
            None => AdminAction::MissingUserId,
        }
    } else if same_text(req.action.as_str(), "delete_entry") {
        match (&req.user_id, &req.entry_id) {
            (Some(u), Some(e)) => AdminAction::DeleteEntry { user_id: u.clone(), entry_id: e.clone() },
            _ => AdminAction::MissingParameters,
        }
    } else {
        AdminAction::UnknownAction
    }
}

} // verus!
