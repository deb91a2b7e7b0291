use conduit_core::broker::{ExecutionSession, Side, SourceKey};
use conduit_core::engine::{Basket, Engine};
use conduit_core::rearm_reconcile::{
    RearmEvidence, RearmPosition, RearmReconcileState, RearmReview, UnconfirmedOpen,
};

fn basket(id: u32) -> Basket {
    Basket {
        id,
        rearms: 0,
        last_rearm_ts: 0,
        source: SourceKey::new(-100, None),
        msg_id: 1,
        msg_aliases: Vec::new(),
        is_limit: true,
        is_stop: false,
        entry_edit_state: None,
    }
}

fn intent(basket: u32, comment: &str) -> UnconfirmedOpen {
    UnconfirmedOpen {
        session: ExecutionSession { scope: "synthetic-account".into(), generation: 1 },
        side: Side::Buy,
        requested_units: 1,
        basket: Some(basket),
        level: 0,
        is_toucher: false,
        submitted_quote_ts: 1_700_000_060_000,
        machine_comment: comment.into(),
    }
}

fn engine_with_pending_rearm() -> Engine {
    let mut e = Engine::new(false);
    e.baskets.push(basket(7));
    e.begin_rearm_batch(7, 1_700_000_060_000);
    e.remember_rearm_unconfirmed(Some(intent(7, "synthetic-ordinal-1")), 7);
    e.finish_rearm_batch(0);
    e
}

fn evidence(confirmed: bool, position: bool, receipt_clear: bool) -> RearmEvidence {
    RearmEvidence {
        confirmed: if confirmed { vec![(intent(7, "synthetic-ordinal-1"), 501)] } else { Vec::new() },
        positions: if position {
            vec![RearmPosition { ticket: 501, basket: Some(7), side: Side::Buy, level: 0, is_toucher: false }]
        } else {
            Vec::new()
        },
        receipt_clear,
    }
}

#[test]
fn definite_refusal_never_counts_and_creates_no_state() {
    let mut e = Engine::new(false);
    e.baskets.push(basket(7));
    e.begin_rearm_batch(7, 5);
    e.remember_rearm_unconfirmed(None, 7);
    e.finish_rearm_batch(0);
    assert!(!e.rearm_confirmation_pending());
    assert_eq!(e.rearm_entry_hold_reason(), None);
    assert_eq!(e.rearm_reconcile_revision(), 0);
}

#[test]
fn unconfirmed_rearm_holds_until_confirmed_then_counts_once() {
    let mut e = engine_with_pending_rearm();
    assert!(e.rearm_confirmation_pending());
    assert!(e.rearm_entry_hold_reason().unwrap().starts_with("REARM HOLD"));
    let r0 = e.rearm_reconcile_revision();
    // transport not clear, no proof yet: nothing moves
    e.reconcile_rearm_batches(&evidence(false, false, false));
    assert_eq!(e.baskets[0].rearms, 0);
    assert_eq!(e.rearm_reconcile_revision(), r0);
    // a confirmed ticket without its position is not proof
    e.reconcile_rearm_batches(&evidence(true, false, false));
    assert_eq!(e.baskets[0].rearms, 0);
    e.reconcile_rearm_batches(&evidence(true, true, true));
    assert_eq!(e.baskets[0].rearms, 1);
    assert_eq!(e.baskets[0].last_rearm_ts, 1_700_000_060_000);
    assert!(!e.rearm_confirmation_pending());
    e.reconcile_rearm_batches(&evidence(true, true, true));
    assert_eq!(e.baskets[0].rearms, 1, "idempotent repeated snapshot");
}

#[test]
fn clear_receipts_without_position_proof_require_review() {
    let mut e = engine_with_pending_rearm();
    e.reconcile_rearm_batches(&evidence(false, false, true));
    assert!(e.rearm_entry_hold_reason().unwrap().starts_with("REARM REVIEW"));
    let state = e.rearm_reconcile_state();
    assert_eq!(state.batches[0].review, Some(RearmReview::MissingPositionProof));
    assert_eq!(e.baskets[0].rearms, 0);
}

#[test]
fn persisted_batch_recognizes_exact_before_after_counters_without_double_count() {
    let mut e = engine_with_pending_rearm();
    let saved = e.rearm_reconcile_state();
    e.reconcile_rearm_batches(&evidence(true, true, true));
    assert_eq!(e.baskets[0].rearms, 1);
    e.restore_rearm_reconcile_state(saved);
    e.reconcile_rearm_batches(&evidence(true, true, true));
    assert_eq!(e.baskets[0].rearms, 1, "older pending memory plus newer basket never counts twice");
    let saved = engine_with_pending_rearm().rearm_reconcile_state();
    e.restore_rearm_reconcile_state(saved);
    e.baskets[0].rearms = 7;
    e.reconcile_rearm_batches(&evidence(true, true, true));
    assert!(e.rearm_confirmation_pending(), "unexplained counter divergence requires review");
    assert_eq!(e.baskets[0].rearms, 7);
    assert_eq!(
        e.rearm_reconcile_state().batches[0].review,
        Some(RearmReview::CounterStateMismatch)
    );
}

#[test]
fn missing_basket_memory_is_review() {
    let mut e = engine_with_pending_rearm();
    e.baskets.clear();
    e.reconcile_rearm_batches(&evidence(true, true, true));
    assert_eq!(
        e.rearm_reconcile_state().batches[0].review,
        Some(RearmReview::MissingBasketMemory)
    );
}

#[test]
fn restore_replaces_state_and_advances_revision() {
    let mut e = engine_with_pending_rearm();
    let r = e.rearm_reconcile_revision();
    e.restore_rearm_reconcile_state(RearmReconcileState { batches: Vec::new() });
    assert_eq!(e.rearm_reconcile_revision(), r + 1);
    assert!(!e.rearm_confirmation_pending());
    e.obce_rearm_entry_hold = true;
    assert!(e.rearm_confirmation_pending());
    assert_eq!(e.rearm_entry_hold_reason(), None, "foreign state cannot feed routing back");
}

#[test]
fn incomplete_identity_is_not_remembered() {
    let mut e = Engine::new(false);
    e.baskets.push(basket(7));
    e.begin_rearm_batch(7, 5);
    let mut bad = intent(7, "");
    e.remember_rearm_unconfirmed(Some(bad.clone()), 7);
    bad.machine_comment = "c".into();
    bad.basket = Some(8);
    e.remember_rearm_unconfirmed(Some(bad), 7);
    e.finish_rearm_batch(1);
    assert!(!e.rearm_confirmation_pending());
}
