//! The campaign scheduler: the periodic sweep that claims the campaigns
//! about to expire, once each.
//!
//! A sweep asks the store for the records that are active and end before the
//! horizon, schedules one completion task for each, and deactivates exactly
//! those records in one update. The update is the claim: the next sweep does
//! not see a claimed record again.

use crate::models::Campaign;
use crate::periodic::SYNC_PERIOD_SECONDS;
use crate::trusted::clock_millis;
use vstd::prelude::*;

verus! {

/// How far ahead of the clock a sweep looks, in milliseconds. A campaign
/// that ends before the next sweep must fall within it.
pub const LOOKAHEAD_MILLIS: i64 = 60_000;

/// The latest deadline that a sweep at `now_millis` claims.
pub open spec fn horizon(now_millis: int) -> int {
    if now_millis + LOOKAHEAD_MILLIS > i64::MAX {
        i64::MAX as int
    } else {
        now_millis + LOOKAHEAD_MILLIS
    }
}

/// A record is due when it is active and ends at or before the horizon.
pub open spec fn is_due<C: Campaign>(record: C, horizon: int) -> bool {
    record.spec_active() && record.spec_end() <= horizon
}

/// The due records of a store, in store order.
pub open spec fn due<C: Campaign>(records: Seq<C>, horizon: int) -> Seq<C>
    decreases records.len(),
{
    if records.len() == 0 {
        Seq::empty()
    } else {
        let earlier = due(records.drop_last(), horizon);
        if is_due(records.last(), horizon) {
            earlier.push(records.last())
        } else {
            earlier
        }
    }
}

/// The identifiers of `records`, in order.
pub open spec fn ids_of<C: Campaign>(records: Seq<C>) -> Seq<Seq<char>> {
    Seq::new(records.len(), |i: int| records[i].spec_id())
}

/// The store after one bulk update that deactivates every record whose
/// identifier is among `ids`, and touches no other.
pub open spec fn claimed<C: Campaign>(records: Seq<C>, ids: Seq<Seq<char>>) -> Seq<C> {
    Seq::new(
        records.len(),
        |i: int|
            if ids.contains(records[i].spec_id()) {
                records[i].spec_deactivated()
            } else {
                records[i]
            },
    )
}

/// The store after a whole sweep at `now_millis`.
pub open spec fn swept<C: Campaign>(records: Seq<C>, now_millis: int) -> Seq<C> {
    claimed(records, ids_of(due(records, horizon(now_millis))))
}

/// The due records are exactly the records of the store that are due.
pub proof fn lemma_due_members<C: Campaign>(records: Seq<C>, horizon: int)
    ensures
        due(records, horizon).len() <= records.len(),
        forall|k: int|
            0 <= k < due(records, horizon).len() ==> is_due(
                #[trigger] due(records, horizon)[k],
                horizon,
            ) && records.contains(due(records, horizon)[k]),
        forall|i: int|
            0 <= i < records.len() && is_due(#[trigger] records[i], horizon) ==> due(
                records,
                horizon,
            ).contains(records[i]),
    decreases records.len(),
{
    let found = due(records, horizon);
    if records.len() > 0 {
        let earlier_records = records.drop_last();
        let earlier = due(earlier_records, horizon);
        lemma_due_members(earlier_records, horizon);
        assert forall|k: int| 0 <= k < found.len() implies is_due(#[trigger] found[k], horizon)
            && records.contains(found[k]) by {
            if k < earlier.len() {
                let i = choose|i: int|
                    0 <= i < earlier_records.len() && earlier_records[i] == earlier[k];
                assert(records[i] == found[k]);
            } else {
                assert(records[records.len() - 1] == found[k]);
            }
        }
        assert forall|i: int|
            0 <= i < records.len() && is_due(#[trigger] records[i], horizon) implies found.contains(
            records[i],
        ) by {
            if i < earlier_records.len() {
                assert(earlier_records[i] == records[i]);
                let k = choose|k: int| 0 <= k < earlier.len() && earlier[k] == records[i];
                assert(found[k] == records[i]);
            } else {
                assert(found[found.len() - 1] == records[i]);
            }
        }
    }
}

/// A sweep only ever deactivates: the store keeps its length, every record
/// keeps its identifier and its deadline, no record becomes active, every
/// due record is inactive afterwards, and a record whose identifier no due
/// record shares is left as it was.
pub proof fn lemma_sweep_only_deactivates<C: Campaign>(records: Seq<C>, now_millis: int)
    ensures
        swept(records, now_millis).len() == records.len(),
        forall|i: int|
            0 <= i < records.len() ==> {
                let before = records[i];
                let after = #[trigger] swept(records, now_millis)[i];
                &&& after.spec_id() == before.spec_id()
                &&& after.spec_end() == before.spec_end()
                &&& after.spec_active() ==> before.spec_active()
                &&& is_due(before, horizon(now_millis)) ==> !after.spec_active()
                &&& !ids_of(due(records, horizon(now_millis))).contains(before.spec_id())
                    ==> after == before
            },
{
    let h = horizon(now_millis);
    let found = due(records, h);
    let ids = ids_of(found);
    lemma_due_members(records, h);
    assert forall|i: int| 0 <= i < records.len() implies {
        let before = records[i];
        let after = #[trigger] swept(records, now_millis)[i];
        &&& after.spec_id() == before.spec_id()
        &&& after.spec_end() == before.spec_end()
        &&& after.spec_active() ==> before.spec_active()
        &&& is_due(before, h) ==> !after.spec_active()
        &&& !ids.contains(before.spec_id()) ==> after == before
    } by {
        let before = records[i];
        before.lemma_deactivated();
        if is_due(before, h) {
            let k = choose|k: int| 0 <= k < found.len() && found[k] == before;
            assert(ids[k] == before.spec_id());
        }
    }
}

/// No double claim: whatever the clock shows at either sweep, no identifier
/// is claimed by two consecutive sweeps.
pub proof fn lemma_no_double_claim<C: Campaign>(records: Seq<C>, first_now: int, second_now: int)
    ensures
        forall|id: Seq<char>|
            !(#[trigger] ids_of(due(records, horizon(first_now))).contains(id) && ids_of(
                due(swept(records, first_now), horizon(second_now)),
            ).contains(id)),
{
    let first = ids_of(due(records, horizon(first_now)));
    let between = swept(records, first_now);
    let second_found = due(between, horizon(second_now));
    let second = ids_of(second_found);
    lemma_due_members(between, horizon(second_now));
    assert forall|id: Seq<char>| !(#[trigger] first.contains(id) && second.contains(id)) by {
        if first.contains(id) && second.contains(id) {
            let k = choose|k: int| 0 <= k < second.len() && second[k] == id;
            let record = second_found[k];
            assert(is_due(record, horizon(second_now)));
            let i = choose|i: int| 0 <= i < between.len() && between[i] == record;
            records[i].lemma_deactivated();
            assert(between[i] == records[i].spec_deactivated());
        }
    }
}

/// A sweep that finds nothing due changes nothing and schedules nothing.
pub proof fn lemma_idle_sweep<C: Campaign>(records: Seq<C>, now_millis: int)
    requires
        forall|i: int|
            0 <= i < records.len() ==> !is_due(#[trigger] records[i], horizon(now_millis)),
    ensures
        due(records, horizon(now_millis)).len() == 0,
        swept(records, now_millis) == records,
{
    let found = due(records, horizon(now_millis));
    lemma_due_members(records, horizon(now_millis));
    if found.len() > 0 {
        let i = choose|i: int| 0 <= i < records.len() && records[i] == found[0];
        assert(is_due(records[i], horizon(now_millis)));
    }
    assert(ids_of(found) =~= Seq::empty());
    assert(swept(records, now_millis) =~= records);
}

/// Running the sweep again at once finds nothing: after a sweep no record
/// is due for the same clock, so a second sweep is idle.
pub proof fn lemma_sweep_settles<C: Campaign>(records: Seq<C>, now_millis: int)
    ensures
        due(swept(records, now_millis), horizon(now_millis)).len() == 0,
        swept(swept(records, now_millis), now_millis) == swept(records, now_millis),
{
    let once = swept(records, now_millis);
    lemma_sweep_only_deactivates(records, now_millis);
    assert forall|i: int| 0 <= i < once.len() implies !is_due(
        #[trigger] once[i],
        horizon(now_millis),
    ) by {
        if is_due(once[i], horizon(now_millis)) {
            assert(is_due(records[i], horizon(now_millis)));
        }
    }
    lemma_idle_sweep(once, now_millis);
}

/// The lookahead covers the period of the driver, so that a campaign is
/// claimed before its deadline has passed: an active record that ends by
/// the time of the next sweep is due at this one, as long as the next sweep
/// comes no later than the lookahead allows. The period of the periodic
/// driver is such a time.
pub proof fn lemma_due_before_the_next_sweep<C: Campaign>(record: C, now_millis: int, next_millis: int)
    requires
        record.spec_active(),
        i64::MIN <= now_millis <= next_millis <= now_millis + LOOKAHEAD_MILLIS,
        record.spec_end() <= next_millis,
    ensures
        is_due(record, horizon(now_millis)),
        SYNC_PERIOD_SECONDS * 1000 <= LOOKAHEAD_MILLIS,
{
}

/// What one sweep schedules.
#[derive(Debug, PartialEq, Eq)]
pub struct Sweep<C> {
    /// The claimed records, one completion task each.
    pub tasks: Vec<C>,
    /// The identifiers to deactivate in one bulk update. Where there is
    /// none, no update is issued.
    pub claim: Vec<String>,
}

/// The horizon of a sweep at `now_millis`.
pub fn horizon_at(now_millis: i64) -> (latest: i64)
    ensures
        latest == horizon(now_millis as int),
{
    if now_millis > i64::MAX - LOOKAHEAD_MILLIS {
        i64::MAX
    } else {
        now_millis + LOOKAHEAD_MILLIS
    }
}

/// The horizon of a sweep that starts now, by the system clock: what
/// [`horizon_at`] gives for the millisecond at which the clock is read.
pub fn horizon_now() -> (latest: i64)
    ensures
        exists|now: i64| latest == #[trigger] horizon(now as int),
{
    let now = clock_millis();
    let latest = horizon_at(now);
    assert(latest == horizon(now as int));
    latest
}

/// Whether `record` is due at `horizon`.
pub fn check_due<C: Campaign>(record: &C, horizon: i64) -> (answer: bool)
    ensures
        answer == is_due(*record, horizon as int),
{
    record.is_active() && record.end_millis() <= horizon
}

/// Plans the sweep from the records that the store found due: each gets a
/// completion task, and all of them are claimed together.
pub fn plan_sweep<C: Campaign>(found: Vec<C>) -> (sweep: Sweep<C>)
    ensures
        sweep.tasks@ == found@,
        sweep.claim.deep_view() == ids_of(found@),
{
    let mut claim: Vec<String> = Vec::new();
    let mut i: usize = 0;
    while i < found.len()
        invariant
            i <= found@.len(),
            claim@.len() == i,
            forall|k: int| 0 <= k < i ==> (#[trigger] claim@[k])@ == found@[k].spec_id(),
        decreases found@.len() - i,
    {
        claim.push(found[i].id().clone());
        i += 1;
    }
    assert(claim.deep_view() =~= ids_of(found@));
    Sweep { tasks: found, claim }
}

/// A store of campaign records held in memory: the reference for what the
/// persistent store does on a query for due records and on a bulk claim.
pub struct MemoryStore<C: Campaign> {
    pub records: Vec<C>,
}

impl<C: Campaign> MemoryStore<C> {
    /// A store that holds `records`.
    pub fn new(records: Vec<C>) -> (store: Self)
        ensures
            store.records@ == records@,
    {
        MemoryStore { records }
    }

    /// The records that are active and end at or before `horizon`.
    pub fn find_due(&self, horizon: i64) -> (found: Vec<C>)
        ensures
            found@ == due(self.records@, horizon as int),
    {
        let mut found: Vec<C> = Vec::new();
        let mut i: usize = 0;
        assert(self.records@.take(0) =~= Seq::empty());
        while i < self.records.len()
            invariant
                i <= self.records@.len(),
                found@ == due(self.records@.take(i as int), horizon as int),
            decreases self.records@.len() - i,
        {
            assert(self.records@.take(i as int + 1).drop_last() =~= self.records@.take(i as int));
            if check_due(&self.records[i], horizon) {
                found.push(self.records[i].duplicate());
            }
            i += 1;
        }
        assert(self.records@.take(i as int) =~= self.records@);
        found
    }

    /// Deactivates every record whose identifier is among `ids`, in one
    /// step, and leaves the others alone.
    pub fn deactivate(&mut self, ids: &Vec<String>)
        ensures
            final(self).records@ == claimed(old(self).records@, ids.deep_view()),
    {
        let ghost before = self.records@;
        let ghost wanted = ids.deep_view();
        let n = self.records.len();
        let mut updated: Vec<C> = Vec::new();
        let mut i: usize = 0;
        while i < n
            invariant
                n == before.len(),
                self.records@ == before,
                wanted == ids.deep_view(),
                i <= n,
                updated@.len() == i,
                forall|k: int| 0 <= k < i ==> #[trigger] updated@[k] == claimed(before, wanted)[k],
            decreases n - i,
        {
            let mut record = self.records[i].duplicate();
            if holds(ids, record.id()) {
                record.deactivate();
            }
            updated.push(record);
            i += 1;
        }
        assert(updated@ =~= claimed(before, wanted));
        self.records = updated;
    }

    /// Runs one whole sweep against the store at `now_millis`: finds the due
    /// records, plans their completion, and claims them.
    pub fn tick(&mut self, now_millis: i64) -> (sweep: Sweep<C>)
        ensures
            sweep.tasks@ == due(old(self).records@, horizon(now_millis as int)),
            sweep.claim.deep_view() == ids_of(sweep.tasks@),
            final(self).records@ == swept(old(self).records@, now_millis as int),
    {
        let found = self.find_due(horizon_at(now_millis));
        let sweep = plan_sweep(found);
        if sweep.claim.len() > 0 {
            self.deactivate(&sweep.claim);
        } else {
            assert(claimed(self.records@, sweep.claim.deep_view()) =~= self.records@);
        }
        sweep
    }
}

/// Whether `id` is among `ids`.
pub fn holds(ids: &Vec<String>, id: &String) -> (found: bool)
    ensures
        found == ids.deep_view().contains(id@),
{
    let mut i: usize = 0;
    while i < ids.len()
        invariant
            i <= ids@.len(),
            forall|k: int| 0 <= k < i ==> ids.deep_view()[k] != id@,
        decreases ids@.len() - i,
    {
        if ids[i] == *id {
            assert(ids.deep_view()[i as int] == id@);
            return true;
        }
        i += 1;
    }
    false
}

} // verus!
