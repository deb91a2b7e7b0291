//! Identity and order-kind types shared by the broker-facing modules.
use vstd::prelude::*;

verus! {

/// Opaque account-state scope of the execution adapter and its generation.
#[derive(Debug, Clone, PartialEq, Eq)]
pub struct ExecutionSession {
    pub scope: String,
    pub generation: u64,
}

impl ExecutionSession {
    /// Field-wise equality of two sessions (scope compared by its characters).
    pub open spec fn same(self, other: ExecutionSession) -> bool {
        self.scope@ == other.scope@ && self.generation == other.generation
    }

    pub fn rowna(&self, other: &ExecutionSession) -> (r: bool)
        ensures
            r == self.same(*other),
    {
        self.generation == other.generation && self.scope == other.scope
    }
}

/// Direction of a position or order.
#[derive(Debug, Clone, Copy, PartialEq, Eq, Structural)]
pub enum Side {
    Buy,
    Sell,
}

/// Kind of a pending order at the broker.
#[derive(Debug, Clone, Copy, PartialEq, Eq, Structural)]
pub enum PendingKind {
    BuyLimit,
    SellLimit,
    BuyStop,
    SellStop,
}

impl PendingKind {
    /// Direction of the position the order opens when it fills.
    pub fn side(self) -> (s: Side)
        ensures
            s == (match self {
                PendingKind::BuyLimit | PendingKind::BuyStop => Side::Buy,
                _ => Side::Sell,
            }),
    {
        match self {
            PendingKind::BuyLimit | PendingKind::BuyStop => Side::Buy,
            _ => Side::Sell,
        }
    }
}

/// Where a message came from: a chat and, in a forum, its topic.
#[derive(Debug, Clone, Copy, PartialEq, Eq, Hash, Structural)]
pub struct SourceKey {
    pub chat_id: i64,
    pub topic_id: Option<i64>,
}

impl SourceKey {
    pub fn new(chat_id: i64, topic_id: Option<i64>) -> (r: SourceKey)
        ensures
            r.chat_id == chat_id,
            r.topic_id == topic_id,
    {
        SourceKey { chat_id, topic_id }
    }
}

} // verus!
