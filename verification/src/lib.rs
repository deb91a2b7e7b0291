//! Verified decision core of the CONDUIT trading bridge: evidence reducers,
//! reconciliation state machines, routing rules and configuration enums.
pub mod broker;
pub mod tekst;
pub mod pending_cancel_proof;
pub mod recorded_broker;
pub mod settings;
pub mod obserwacje;
pub mod routing;
pub mod engine;
pub mod rearm_reconcile;
pub mod pending_validity;
pub mod parser;
pub mod rf_protection;
pub mod sr_warmup;
pub mod profit_budget;
