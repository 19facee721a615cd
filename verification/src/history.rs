//! The append-only audit ledger of lifecycle events.
//!
//! A [`TradeHistory`] is an ordered sequence of [`HistoricalRecord`] entries,
//! indexed from 0. Entries are immutable once appended and their indices never
//! change. Callers hold a ledger handle and pass it to each transition, which
//! appends exactly one entry on success and none on failure.

use vstd::prelude::*;

use crate::clock::now_millis;
use crate::state::{TradeAction, TradeState};
use crate::trade::{opt_diff_matches, MutTradeDetails, TradeDetails, TradeDetailsDiff};

verus! {

/// One audit entry: when, what action, who acted, the state names before and
/// after, and the field-level diff if the transition changed anything.
#[derive(Debug)]
pub struct HistoricalRecord {
    /// When the entry was created, in milliseconds since the Unix epoch.
    pub timestamp: i64,
    /// The action the transition performed.
    pub action: TradeAction,
    /// Identifier of the acting identity.
    pub user_id: String,
    /// Display name of the lifecycle state before the transition.
    pub state_before: &'static str,
    /// Display name of the lifecycle state after the transition.
    pub state_after: &'static str,
    /// The field-level delta, absent when the transition changed no field and
    /// set no strike.
    pub difference: Option<TradeDetailsDiff>,
}

impl HistoricalRecord {
    /// Equality of two entries, strings compared by their contents.
    pub open spec fn spec_eq(self, other: Self) -> bool {
        &&& self.timestamp == other.timestamp
        &&& self.action == other.action
        &&& self.user_id@ == other.user_id@
        &&& self.state_before@ == other.state_before@
        &&& self.state_after@ == other.state_after@
        &&& match (self.difference, other.difference) {
            (None, None) => true,
            (Some(a), Some(b)) => a.spec_eq(b),
            _ => false,
        }
    }

    /// Creates an entry for a transition of `from` into `to`, stamped with
    /// the current wall-clock time and carrying the computed field diff.
    pub fn new<Before: TradeState, After: TradeState>(
        action: TradeAction,
        id: String,
        from: &TradeDetails<Before>,
        to: &TradeDetails<After>,
    ) -> (r: Self)
        ensures
            r.action == action,
            r.user_id@ == id@,
            r.state_before@ == Before::state_name(),
            r.state_after@ == After::state_name(),
            opt_diff_matches(r.difference, from.spec_details(), to.spec_details(), to.spec_strike()),
    {
        HistoricalRecord {
            timestamp: now_millis(),
            action,
            user_id: id,
            state_before: Before::name(),
            state_after: After::name(),
            difference: TradeDetailsDiff::new(from, to),
        }
    }

    /// When the entry was created.
    pub fn timestamp(&self) -> (r: i64)
        ensures
            r == self.timestamp,
    {
        self.timestamp
    }

    /// The action the transition performed.
    pub fn action(&self) -> (r: &TradeAction)
        ensures
            *r == self.action,
    {
        &self.action
    }

    /// Identifier of the acting identity.
    pub fn user_id(&self) -> (r: &str)
        ensures
            r@ == self.user_id@,
    {
        self.user_id.as_str()
    }

    /// Display name of the lifecycle state before the transition.
    pub fn state_before(&self) -> (r: &'static str)
        ensures
            r@ == self.state_before@,
    {
        self.state_before
    }

    /// Display name of the lifecycle state after the transition.
    pub fn state_after(&self) -> (r: &'static str)
        ensures
            r@ == self.state_after@,
    {
        self.state_after
    }

    /// The field-level delta, if the transition changed anything.
    pub fn changes(&self) -> (r: Option<&TradeDetailsDiff>)
        ensures
            r matches Some(d) ==> (self.difference matches Some(e) && *d == e),
            r is None ==> self.difference is None,
    {
        self.difference.as_ref()
    }
}

impl Clone for HistoricalRecord {
    fn clone(&self) -> (r: Self)
        ensures
            r.spec_eq(*self),
    {
        HistoricalRecord {
            timestamp: self.timestamp,
            action: self.action,
            user_id: self.user_id.clone(),
            state_before: self.state_before,
            state_after: self.state_after,
            difference: match &self.difference {
                Some(d) => Some(d.clone()),
                None => None,
            },
        }
    }
}

/// What one appended audit entry must say about the transition that produced
/// it: the action, the acting identity, the state names on both sides, and a
/// diff that is correct for the before and after snapshots per
/// [`opt_diff_matches`]. The timestamp comes from the clock and is not
/// constrained.
pub open spec fn event_matches(
    rec: HistoricalRecord,
    action: TradeAction,
    actor: Seq<char>,
    state_before: Seq<char>,
    state_after: Seq<char>,
    before: MutTradeDetails,
    after: MutTradeDetails,
    strike: Option<u64>,
) -> bool {
    &&& rec.action == action
    &&& rec.user_id@ == actor
    &&& rec.state_before@ == state_before
    &&& rec.state_after@ == state_after
    &&& opt_diff_matches(rec.difference, before, after, strike)
}

/// How a successful transition changes the ledger: exactly one entry is
/// appended, every earlier entry keeps its index and value, and the new last
/// entry describes the transition per [`event_matches`].
pub open spec fn appended_event(
    pre: Seq<HistoricalRecord>,
    post: Seq<HistoricalRecord>,
    action: TradeAction,
    actor: Seq<char>,
    state_before: Seq<char>,
    state_after: Seq<char>,
    before: MutTradeDetails,
    after: MutTradeDetails,
    strike: Option<u64>,
) -> bool {
    &&& post.len() == pre.len() + 1
    &&& post.drop_last() == pre
    &&& event_matches(post.last(), action, actor, state_before, state_after, before, after, strike)
}

/// Law: appending one audit entry gives the ledger exactly one more entry, at
/// the next index, and leaves every existing entry at its index unchanged —
/// indices, once assigned, are stable.
pub proof fn lemma_history_indices_stable(
    pre: Seq<HistoricalRecord>,
    post: Seq<HistoricalRecord>,
    rec: HistoricalRecord,
)
    requires
        post == pre.push(rec),
    ensures
        post.len() == pre.len() + 1,
        forall|i: int| 0 <= i < pre.len() ==> post[i] == pre[i],
        post[pre.len() as int] == rec,
{
}

/// The append-only, ordered log of lifecycle events.
#[derive(Debug)]
pub struct TradeHistory {
    records: Vec<HistoricalRecord>,
}

impl TradeHistory {
    /// The entries in append order.
    pub closed spec fn spec_records(&self) -> Seq<HistoricalRecord> {
        self.records@
    }

    /// Creates an empty ledger.
    pub fn new() -> (r: Self)
        ensures
            r.spec_records().len() == 0,
    {
        TradeHistory { records: Vec::new() }
    }

    /// Appends one entry; call order is ledger order, and no earlier entry
    /// moves.
    pub fn add_record(&mut self, record: HistoricalRecord)
        ensures
            final(self).spec_records() == old(self).spec_records().push(record),
    {
        self.records.push(record);
    }

    /// Empties the ledger. Intended for test isolation, not production use.
    pub fn clear(&mut self)
        ensures
            final(self).spec_records().len() == 0,
    {
        self.records.clear();
    }

    /// Total entries appended since creation or the last clear.
    pub fn total_record_count(&self) -> (n: usize)
        ensures
            n == self.spec_records().len(),
    {
        self.records.len()
    }

    /// The entry at `step`: present exactly for indices below the count, and
    /// stable across later appends.
    pub fn get_record(&self, step: usize) -> (r: Option<HistoricalRecord>)
        ensures
            step < self.spec_records().len() ==> (r matches Some(rec) && rec.spec_eq(
                self.spec_records()[step as int],
            )),
            step >= self.spec_records().len() ==> r is None,
    {
        if step >= self.records.len() {
            return None;
        }
        Some(self.records[step].clone())
    }
}

/// The entry at `step` of `history`; absent exactly when `step` is at or
/// beyond the count.
pub fn get_historical_record(history: &TradeHistory, step: usize) -> (r: Option<HistoricalRecord>)
    ensures
        step < history.spec_records().len() ==> (r matches Some(rec) && rec.spec_eq(
            history.spec_records()[step as int],
        )),
        step >= history.spec_records().len() ==> r is None,
{
    history.get_record(step)
}

/// Total entries `history` holds.
pub fn total_historical_record_count(history: &TradeHistory) -> (n: usize)
    ensures
        n == history.spec_records().len(),
{
    history.total_record_count()
}

} // verus!
