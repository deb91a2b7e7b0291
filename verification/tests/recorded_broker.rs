use conduit_core::recorded_broker::exact::{Error, Exact};
use conduit_core::recorded_broker::{Recorder, ReplayBroker, Trace, MAX_CALLS};

fn s(t: &str) -> Exact {
    Exact::Str(t.to_string())
}

#[test]
fn recorder_stores_each_distinct_value_once() {
    let mut r = Recorder::new();
    r.push("quote", Ok(Exact::Unit), Ok(Exact::U(4000)));
    r.push("quote", Ok(Exact::Unit), Ok(Exact::U(4000)));
    r.push("account", Ok(Exact::Unit), Ok(s("acc")));
    let t = r.finish();
    assert_eq!(t.schema, 2);
    assert!(!t.incomplete);
    assert_eq!(t.calls.len(), 3);
    assert_eq!(t.values.len(), 3);
    assert_eq!(t.calls[0].args, 0);
    assert_eq!(t.calls[0].result, 1);
    assert_eq!(t.calls[1].result, 1);
    assert_eq!(t.calls[2].result, 2);
    assert_eq!(t.calls[2].method, "account");
    // the recorder starts a fresh tape
    assert_eq!(r.finish().calls.len(), 0);
}

#[test]
fn unencodable_value_marks_tape_incomplete_and_replay_refuses_it() {
    let mut r = Recorder::new();
    r.push("positions", Ok(Exact::Unit), Err(Error("nan key".into())));
    r.push("quote", Ok(Exact::Unit), Ok(Exact::U(1)));
    let t = r.finish();
    assert!(t.incomplete);
    assert!(t.calls.is_empty());
    assert_eq!(
        ReplayBroker::new(t).err().unwrap(),
        "broker transcript incomplete or unsupported"
    );
}

#[test]
fn replay_answers_in_order_and_reports_the_first_disagreement() {
    let mut r = Recorder::new();
    r.push("position_identifier", Ok(Exact::U(5)), Ok(Exact::Present(Box::new(Exact::U(77)))));
    r.push("quote", Ok(Exact::Unit), Ok(Exact::F64(4000f64.to_bits())));
    let t = r.finish();
    let mut b = ReplayBroker::new(t).unwrap();
    let i = b.consume("position_identifier", Ok(Exact::U(5))).unwrap();
    assert_eq!(i, 0);
    assert!(b.result_of(i).rowne(&Exact::Present(Box::new(Exact::U(77)))));
    assert_eq!(b.finish().unwrap_err(), "1 unconsumed broker calls");
    let m = b.consume("account", Ok(Exact::Unit)).unwrap_err();
    assert_eq!((m.index, m.expected.as_str(), m.actual.as_str()), (1, "quote", "account"));
    let m = b.consume("quote", Ok(Exact::U(1))).unwrap_err();
    assert_eq!(m.expected, "recorded arguments");
    b.consume("quote", Ok(Exact::Unit)).unwrap();
    assert!(b.finish().is_ok());
    let m = b.consume("quote", Ok(Exact::Unit)).unwrap_err();
    assert_eq!((m.index, m.expected.as_str()), (2, "end of transcript"));
}

#[test]
fn dangling_references_and_wrong_schema_are_refused() {
    let mut r = Recorder::new();
    r.push("quote", Ok(Exact::Unit), Ok(Exact::U(1)));
    let mut t = r.finish();
    t.calls[0].result = 9;
    assert_eq!(ReplayBroker::new(t).err().unwrap(), "broker result reference missing");
    let mut t = Trace::default();
    t.schema = 1;
    assert!(ReplayBroker::new(t).is_err());
}

#[test]
fn full_tape_becomes_incomplete() {
    let mut r = Recorder::new();
    for _ in 0..MAX_CALLS {
        r.push("quote", Ok(Exact::Unit), Ok(Exact::Unit));
    }
    assert!(!r.finish().incomplete);
    let mut r = Recorder::new();
    for _ in 0..=MAX_CALLS {
        r.push("quote", Ok(Exact::Unit), Ok(Exact::Unit));
    }
    let t = r.finish();
    assert!(t.incomplete);
    assert_eq!(t.calls.len(), MAX_CALLS);
}

#[test]
fn estimated_bytes_counts_nodes_texts_and_children() {
    let node = std::mem::size_of::<Exact>();
    assert_eq!(Exact::Unit.estimated_bytes(), node);
    assert_eq!(s("żółw").estimated_bytes(), node + "żółw".len());
    let tree = Exact::Sequence(vec![Exact::Bytes(vec![1, 2, 3]), Exact::Enum("Ok".into(), Box::new(s("ab")))]);
    assert_eq!(tree.estimated_bytes(), node + (node + 3) + (node + 2 + node + 2));
    let m = Exact::Mapping(vec![(Exact::I(-1), Exact::Absent)]);
    assert_eq!(m.estimated_bytes(), 3 * node);
}

#[test]
fn equality_is_structural_and_keeps_float_bits() {
    let a = Exact::Mapping(vec![(Exact::I(7), Exact::Sequence(vec![Exact::F64((-0.0f64).to_bits())]))]);
    let b = Exact::Mapping(vec![(Exact::I(7), Exact::Sequence(vec![Exact::F64((-0.0f64).to_bits())]))]);
    let c = Exact::Mapping(vec![(Exact::I(7), Exact::Sequence(vec![Exact::F64(0.0f64.to_bits())]))]);
    assert!(a.rowne(&b));
    assert!(!a.rowne(&c));
    assert!(!Exact::Present(Box::new(Exact::Absent)).rowne(&Exact::Absent));
}

fn recorded_calls() -> Vec<(&'static str, Exact, Exact)> {
    vec![
        ("quote", Exact::Unit, Exact::U(4000)),
        ("position_identifier", Exact::U(5), Exact::Present(Box::new(Exact::U(77)))),
        ("quote", Exact::Unit, Exact::U(4000)),
        ("account", Exact::Str("a".to_string()), Exact::Absent),
    ]
}

#[test]
fn replay_gives_back_every_recorded_result() {
    let mut r = Recorder::new();
    for (m, a, w) in recorded_calls() {
        r.push(m, Ok(a), Ok(w));
    }
    let mut b = ReplayBroker::new(r.finish()).unwrap();
    for (k, (m, a, w)) in recorded_calls().into_iter().enumerate() {
        let i = b.consume(m, Ok(a)).unwrap();
        assert_eq!(i, k);
        assert!(b.result_of(i).rowne(&w));
    }
    assert!(b.finish().is_ok());
}
