//! Vocabulary of the opt-in daily profit reserve for new exposure.
use vstd::prelude::*;

verus! {

/// Exact private snapshot of the day anchor: the day and the bit patterns of
/// the day's start and peak equity, so that no decimal round trip can move a
/// boundary-sized order after a restart.
#[derive(Clone, Copy, Debug, PartialEq, Eq, Structural)]
pub struct BudgetAnchorBits {
    pub day: i64,
    pub start: u64,
    pub peak: u64,
}

/// Why no budget can be given.
#[derive(Clone, Copy, Debug, PartialEq, Eq, Structural)]
pub enum BudgetError {
    InvalidSettings,
    UnknownDayAnchor,
    InvalidAccount,
    InvalidQuote,
    InvalidExposure,
    MissingStop,
    InvalidNewStop,
    InvalidVolume,
    Exhausted,
}

} // verus!
