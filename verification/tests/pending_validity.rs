use conduit_core::broker::SourceKey;
use conduit_core::engine::{Basket, Engine, EntryEditState};
use conduit_core::pending_validity::PendingSourceRecord;

fn record(basket_id: u32, msg_id: i64, aliases: Vec<i64>, cancelled_ts: Option<i64>) -> PendingSourceRecord {
    PendingSourceRecord { source: SourceKey::new(-100, Some(3)), msg_id, basket_id, aliases, cancelled_ts }
}

fn basket(id: u32) -> Basket {
    Basket {
        id,
        rearms: 0,
        last_rearm_ts: 0,
        source: SourceKey::new(-100, Some(3)),
        msg_id: 11,
        msg_aliases: vec![12],
        is_limit: true,
        is_stop: false,
        entry_edit_state: None,
    }
}

#[test]
fn restore_merges_orders_and_advances_revision_once() {
    let mut e = Engine::new(false);
    let mut next = 10u64;
    e.restore_pending_source_memory(&[record(5, 50, vec![], None), record(2, 20, vec![21], None)], || {
        next += 1;
        next
    });
    assert_eq!(e.pending_source_memory_revision(), 11);
    let out = e.export_pending_source_memory();
    assert_eq!(out.iter().map(|r| r.basket_id).collect::<Vec<_>>(), vec![2, 5]);
    assert_eq!(e.next_basket_id, 6);
    // the same memory again changes nothing and keeps the revision
    let again = e.export_pending_source_memory();
    e.restore_pending_source_memory(&again, || 99);
    assert_eq!(e.pending_source_memory_revision(), 11);
    assert_eq!(e.export_pending_source_memory(), out);
}

#[test]
fn withdrawal_is_kept_and_carried_to_the_basket() {
    let mut e = Engine::new(false);
    e.baskets.push(basket(4));
    e.restore_pending_source_memory(&[record(4, 11, vec![], None)], || 1);
    assert!(e.keep_explicit_pending(4));
    e.restore_pending_source_memory(&[record(4, 11, vec![13], Some(777))], || 2);
    assert_eq!(e.pending_source_memory_revision(), 2);
    assert!(e.pending_source_cancelled(4));
    assert!(!e.keep_explicit_pending(4));
    assert_eq!(
        e.baskets[0].entry_edit_state,
        Some(EntryEditState { schema_version: 1, revision: 0, applied_ts: 777, cancelled_by_source_ts: Some(777) })
    );
    // a later withdrawal time never replaces the first one
    e.restore_pending_source_memory(&[record(4, 11, vec![], Some(999))], || 3);
    assert_eq!(e.export_pending_source_memory()[0].cancelled_ts, Some(777));
    assert_eq!(e.export_pending_source_memory()[0].aliases, vec![13]);
}

#[test]
fn record_from_another_message_does_not_overwrite() {
    let mut e = Engine::new(false);
    e.restore_pending_source_memory(&[record(4, 11, vec![], None)], || 1);
    e.restore_pending_source_memory(&[record(4, 99, vec![5], Some(1))], || 2);
    let out = e.export_pending_source_memory();
    assert_eq!(out[0].msg_id, 11);
    assert_eq!(out[0].cancelled_ts, None);
    assert_eq!(e.pending_source_memory_revision(), 1);
}

#[test]
fn aliases_are_remembered_once_and_explicit_config_keeps_limits() {
    let mut e = Engine::new(true);
    e.baskets.push(basket(4));
    assert!(e.explicit_pending_source(4));
    assert!(!e.pending_source_cancelled(4));
    let bk = basket(4);
    e.remember_pending_source(&bk, || 5);
    assert_eq!(e.export_pending_source_memory()[0].aliases, vec![12]);
    e.remember_pending_source_alias(4, 12, || 6);
    e.remember_pending_source_alias(4, 11, || 7);
    assert_eq!(e.pending_source_memory_revision(), 5);
    e.remember_pending_source_alias(4, 14, || 8);
    assert_eq!(e.pending_source_memory_revision(), 8);
    assert_eq!(e.export_pending_source_memory()[0].aliases, vec![12, 14]);
}

#[test]
fn plain_basket_without_source_reason_is_not_remembered() {
    let mut e = Engine::new(false);
    let mut bk = basket(9);
    bk.is_limit = false;
    e.remember_pending_source(&bk, || 1);
    assert!(e.export_pending_source_memory().is_empty());
    assert_eq!(e.pending_source_memory_revision(), 0);
}

#[test]
fn withdrawn_source_is_never_kept() {
    let mut e = Engine::new(true);
    e.baskets.push(basket(4));
    assert!(e.keep_explicit_pending(4));
    e.withdraw_pending_source(4, 555, || 40);
    assert!(!e.keep_explicit_pending(4));
    assert!(e.pending_source_cancelled(4));
    let out = e.export_pending_source_memory();
    assert_eq!(out.len(), 1);
    assert_eq!(out[0].cancelled_ts, Some(555));
    assert_eq!(e.baskets[0].entry_edit_state.unwrap().cancelled_by_source_ts, Some(555));
    // a second withdrawal keeps the first time
    e.withdraw_pending_source(4, 999, || 41);
    assert_eq!(e.export_pending_source_memory()[0].cancelled_ts, Some(555));
}

#[test]
fn restoring_the_same_records_twice_keeps_the_message_map_and_tombstones() {
    let mut e = Engine::new(false);
    e.baskets.push(basket(4));
    let records = [record(4, 11, vec![12, 13], Some(500)), record(6, 30, vec![], None)];
    e.restore_pending_source_memory(&records, || 1);
    let map = e.msg_to_basket.clone();
    let tomb = e.baskets[0].entry_edit_state;
    let next = e.next_basket_id;
    e.restore_pending_source_memory(&records, || 2);
    assert_eq!(e.msg_to_basket, map);
    assert_eq!(e.baskets[0].entry_edit_state, tomb);
    assert_eq!(e.next_basket_id, next);
    assert_eq!(e.pending_source_memory_revision(), 1);
    assert_eq!(map.len(), 4);
}

#[test]
fn withdrawn_sources_are_cancelled_again_once_per_basket() {
    let mut e = Engine::new(false);
    // no memory: nothing to retry
    assert!(e.retry_source_cancellations(&[Some(4), Some(6)]).is_empty());
    e.restore_pending_source_memory(
        &[record(6, 60, vec![], Some(700)), record(4, 40, vec![], Some(500)), record(5, 50, vec![], None)],
        || 1,
    );
    assert_eq!(
        e.retry_source_cancellations(&[Some(6), None, Some(5), Some(4), Some(6), Some(9)]),
        vec![4, 6]
    );
    assert!(e.retry_source_cancellations(&[Some(5), None]).is_empty());
}
