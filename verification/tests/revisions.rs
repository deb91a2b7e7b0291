use conduit_core::recorded_broker::revisions::{token, Scope, TokenTape};

#[test]
fn allocator_output_not_normalized_and_replay_never_calls_live() {
    let mut tape = TokenTape::new();
    let s = Scope::record(&mut tape);
    assert_eq!(token(&mut tape, || 37), 37);
    assert_eq!(token(&mut tape, || 103), 103);
    let saved = s.finish(&mut tape).unwrap();
    let s = Scope::replay(&mut tape, saved);
    assert_eq!(token(&mut tape, || panic!("offline allocator must not run")), 37);
    assert_eq!(token(&mut tape, || panic!("offline allocator must not run")), 103);
    assert!(s.finish(&mut tape).is_ok());
}

#[test]
fn missing_and_extra_tokens_are_errors() {
    let mut tape = TokenTape::new();
    let s = Scope::replay(&mut tape, vec![]);
    token(&mut tape, || 99);
    assert!(s.finish(&mut tape).is_err());
    let s = Scope::replay(&mut tape, vec![1]);
    assert!(s.finish(&mut tape).is_err());
}

#[test]
fn without_scope_the_live_allocator_answers() {
    let mut tape = TokenTape::new();
    assert_eq!(token(&mut tape, || 5), 5);
    assert_eq!(token(&mut tape, || 6), 6);
}

#[test]
fn nested_scope_fails_and_keeps_the_outer_one() {
    let mut tape = TokenTape::new();
    let outer = Scope::record(&mut tape);
    let inner = Scope::replay(&mut tape, vec![1, 2]);
    assert_eq!(token(&mut tape, || 11), 11);
    assert_eq!(
        inner.finish(&mut tape).unwrap_err(),
        "nested source token scope"
    );
    assert_eq!(token(&mut tape, || 12), 12);
    assert_eq!(outer.finish(&mut tape).unwrap(), vec![11, 12]);
}

#[test]
fn mismatch_error_names_the_transcript() {
    let mut tape = TokenTape::new();
    let s = Scope::replay(&mut tape, vec![4]);
    assert_eq!(
        s.finish(&mut tape).unwrap_err(),
        "source revision token transcript mismatch"
    );
}

#[test]
fn abandoned_scope_empties_the_tape() {
    let mut tape = TokenTape::new();
    let s = Scope::replay(&mut tape, vec![8]);
    s.abandon(&mut tape);
    assert_eq!(token(&mut tape, || 9), 9);
}
