//! The rules-engine state that the reconciliation ledgers read and write:
//! per basket the rearm counters and the source identity of its entry, and
//! per engine the rearm batches and the pending-source memory.
use vstd::prelude::*;
use crate::broker::SourceKey;
use crate::rearm_reconcile::RearmReconcile;
use crate::pending_validity::PendingSourceRecord;

verus! {

/// Source-edit state of a basket's entry, as far as source withdrawal needs it.
#[derive(Debug, Clone, Copy, PartialEq, Eq, Structural)]
pub struct EntryEditState {
    pub schema_version: u32,
    pub revision: u64,
    pub applied_ts: i64,
    pub cancelled_by_source_ts: Option<i64>,
}

/// A basket as the ledgers see it.
#[derive(Debug)]
pub struct Basket {
    pub id: u32,
    /// how many times the grid was rearmed
    pub rearms: u32,
    /// submission time of the last counted rearm
    pub last_rearm_ts: i64,
    pub source: SourceKey,
    pub msg_id: i64,
    pub msg_aliases: Vec<i64>,
    pub is_limit: bool,
    pub is_stop: bool,
    pub entry_edit_state: Option<EntryEditState>,
}

/// One message of a source mapped to the basket it opened.
#[derive(Debug, Clone, Copy, PartialEq, Eq, Structural)]
pub struct MsgBasket {
    pub source: SourceKey,
    pub msg_id: i64,
    pub basket_id: u32,
}

/// The ledger part of an engine.
#[derive(Debug)]
pub struct Engine {
    pub baskets: Vec<Basket>,
    pub rearm_reconcile: RearmReconcile,
    /// another slot of the account holds an unconfirmed rearm
    pub obce_rearm_entry_hold: bool,
    /// keep pending entries until the source cancels them
    pub explicit_pending_until_cancel: bool,
    /// pending-source records, ordered by basket number, one per basket
    pub pending_sources: Vec<PendingSourceRecord>,
    pub msg_to_basket: Vec<MsgBasket>,
    pub next_basket_id: u32,
    pub pending_source_revision: u64,
}

} // verus!
