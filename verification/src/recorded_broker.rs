//! Offline broker interaction tape. Recording never retries or substitutes an outcome.
//!
//! The recorder keeps every broker call with its encoded arguments and result,
//! storing each distinct value once; the replay answers from the tape in
//! order and reports the first disagreement. Encoding values is done by the
//! caller; the tape logic is here.
pub mod exact;
pub mod revisions;

use vstd::prelude::*;
use crate::recorded_broker::exact::{Exact, Error, bajty, zgodne, zgodne_zwrotne, zgodne_symetryczne, drzewo, zgodne_to_ta_sama_wartosc, ta_sama_wartosc_to_zgodne};
use crate::tekst::{liczba_tekstem, decimal_text, rowne_teksty};

verus! {

/// One broker call: its method and the tape indices of its arguments and result.
#[derive(Clone, Debug)]
pub struct Call {
    pub method: String,
    pub args: usize,
    pub result: usize,
}

/// The recorded tape.
#[derive(Debug)]
pub struct Trace {
    pub schema: u32,
    pub calls: Vec<Call>,
    pub values: Vec<Exact>,
    pub incomplete: bool,
    /// estimated bytes of the stored values (not part of the wire format)
    pub estimated_bytes: usize,
}

/// Most calls a tape holds.
pub const MAX_CALLS: usize = 10_000;

/// Most estimated bytes of the distinct values on a tape.
pub const MAX_BYTES: usize = 16_777_216;

/// Index of the first stored value that is the same tree as `v`.
pub open spec fn pierwszy_zgodny(s: Seq<Exact>, v: Exact) -> Option<int>
    decreases s.len(),
{
    if s.len() == 0 {
        None
    } else {
        match pierwszy_zgodny(s.drop_last(), v) {
            Some(i) => Some(i),
            None => if zgodne(s.last(), v) { Some(s.len() - 1) } else { None },
        }
    }
}

/// No two stored values are the same tree.
pub open spec fn wartosci_rozne(s: Seq<Exact>) -> bool {
    forall|a: int, b: int| 0 <= a < b < s.len() ==> !zgodne(#[trigger] s[a], #[trigger] s[b])
}

proof fn lemma_brak_zgodnego(s: Seq<Exact>, v: Exact)
    requires
        pierwszy_zgodny(s, v) is None,
    ensures
        forall|k: int| 0 <= k < s.len() ==> !zgodne(#[trigger] s[k], v),
    decreases s.len(),
{
    if s.len() > 0 {
        lemma_brak_zgodnego(s.drop_last(), v);
        assert forall|k: int| 0 <= k < s.len() implies !zgodne(#[trigger] s[k], v) by {
            if k < s.len() - 1 {
                assert(s.drop_last()[k] == s[k]);
            }
        }
    }
}

impl Default for Trace {
    fn default() -> (r: Trace)
        ensures
            r.schema == 2,
            r.calls@.len() == 0,
            r.values@.len() == 0,
            !r.incomplete,
            r.oszacowanie() == 0,
    {
        Trace { schema: 2, calls: Vec::new(), values: Vec::new(), incomplete: false, estimated_bytes: 0 }
    }
}

impl Trace {
    /// Estimated bytes of the values stored so far.
    pub closed spec fn oszacowanie(self) -> usize {
        self.estimated_bytes
    }

    /// Stores a value once. A value already on the tape gives its index; a
    /// new one is appended unless the byte budget is exhausted, which marks
    /// the tape incomplete and gives 0.
    fn intern(&mut self, value: Exact) -> (r: usize)
        requires
            bajty(value) <= usize::MAX,
        ensures
            final(self).schema == old(self).schema,
            final(self).calls@ == old(self).calls@,
            wartosci_rozne(old(self).values@) ==> wartosci_rozne(final(self).values@),
            !final(self).incomplete ==> r < final(self).values@.len()
                && zgodne(final(self).values@[r as int], value)
                && final(self).values@.take(old(self).values@.len() as int) == old(self).values@,
            match pierwszy_zgodny(old(self).values@, value) {
                Some(i) => r == i && final(self).values@ == old(self).values@
                    && final(self).incomplete == old(self).incomplete
                    && final(self).oszacowanie() == old(self).oszacowanie(),
                None => {
                    let est = if old(self).oszacowanie() + bajty(value) > usize::MAX {
                        usize::MAX as int
                    } else {
                        old(self).oszacowanie() + bajty(value)
                    };
                    &&& final(self).oszacowanie() == est
                    &&& est > MAX_BYTES ==> r == 0 && final(self).incomplete
                        && final(self).values@ == old(self).values@
                    &&& est <= MAX_BYTES ==> r == old(self).values@.len()
                        && final(self).values@ == old(self).values@.push(value)
                        && final(self).incomplete == old(self).incomplete
                },
            },
    {
        let mut k: usize = 0;
        while k < self.values.len()
            invariant
                k <= self.values@.len(),
                *self == *old(self),
                pierwszy_zgodny(self.values@.take(k as int), value) is None,
            decreases self.values@.len() - k,
        {
            proof {
                assert(self.values@.take(k + 1).drop_last() =~= self.values@.take(k as int));
            }
            if self.values[k].rowne(&value) {
                proof {
                    lemma_pierwszy_przedluzony(self.values@, value, k + 1);
                    assert(self.values@.take(self.values@.len() as int) =~= self.values@);
                }
                return k;
            }
            k = k + 1;
        }
        assert(self.values@.take(k as int) =~= self.values@);
        self.estimated_bytes = self.estimated_bytes.saturating_add(value.estimated_bytes());
        if self.estimated_bytes > MAX_BYTES {
            self.incomplete = true;
            return 0;
        }
        let n = self.values.len();
        proof {
            lemma_brak_zgodnego(self.values@, value);
        }
        self.values.push(value);
        proof {
            zgodne_zwrotne(self.values@[n as int]);
            assert(self.values@.take(n as int) =~= old(self).values@);
        }
        n
    }
}

proof fn lemma_pierwszy_przedluzony(s: Seq<Exact>, v: Exact, n: int)
    requires
        0 < n <= s.len(),
        pierwszy_zgodny(s.take(n), v) is Some,
    ensures
        pierwszy_zgodny(s, v) == pierwszy_zgodny(s.take(n), v),
    decreases s.len() - n,
{
    if n < s.len() {
        assert(s.take(n + 1).drop_last() =~= s.take(n));
        lemma_pierwszy_przedluzony(s, v, n + 1);
    } else {
        assert(s.take(n) =~= s);
    }
}

/// Records broker calls onto a tape.
pub struct Recorder {
    trace: Trace,
    nagrane: Ghost<Seq<(Seq<char>, Exact, Exact)>>,
}

/// The tape holds, call by call, the recorded method with its arguments and
/// result stored as values the same as the recorded ones.
pub open spec fn nagranie_zgodne(t: Trace, log: Seq<(Seq<char>, Exact, Exact)>) -> bool {
    &&& t.calls@.len() == log.len()
    &&& forall|i: int| #![trigger t.calls@[i]] 0 <= i < log.len() ==> {
        &&& t.calls@[i].method@ == log[i].0
        &&& t.calls@[i].args < t.values@.len()
        &&& t.calls@[i].result < t.values@.len()
        &&& zgodne(t.values@[t.calls@[i].args as int], log[i].1)
        &&& zgodne(t.values@[t.calls@[i].result as int], log[i].2)
    }
}

impl Recorder {
    pub closed spec fn tasma(self) -> Trace {
        self.trace
    }

    /// The calls pushed since the tape was started: method, arguments, result.
    pub closed spec fn nagranie(self) -> Seq<(Seq<char>, Exact, Exact)> {
        self.nagrane@
    }

    pub closed spec fn wf(self) -> bool {
        &&& self.trace.schema == 2
        &&& self.trace.calls@.len() <= MAX_CALLS
        &&& wartosci_rozne(self.trace.values@)
        &&& !self.trace.incomplete ==> nagranie_zgodne(self.trace, self.nagrane@)
    }

    pub fn new() -> (r: Recorder)
        ensures
            r.wf(),
            r.tasma().schema == 2,
            r.tasma().calls@.len() == 0,
            r.tasma().values@.len() == 0,
            !r.tasma().incomplete,
            r.nagranie().len() == 0,
    {
        Recorder { trace: Trace::default(), nagrane: Ghost(Seq::empty()) }
    }

    /// Records one call with its encoded arguments and result. A full or
    /// already incomplete tape, or a value that could not be encoded, marks
    /// the tape incomplete and records nothing more.
    pub fn push(&mut self, method: &str, args: Result<Exact, Error>, result: Result<Exact, Error>)
        requires
            old(self).wf(),
            args matches Ok(a) ==> bajty(a) <= usize::MAX,
            result matches Ok(w) ==> bajty(w) <= usize::MAX,
        ensures
            wartosci_rozne(final(self).tasma().values@),
            final(self).tasma().calls@.len() <= MAX_CALLS,
            final(self).wf(),
            final(self).tasma().schema == old(self).tasma().schema,
            old(self).tasma().incomplete ==> final(self).tasma().incomplete
                && final(self).tasma().calls@ == old(self).tasma().calls@,
            !old(self).tasma().incomplete && old(self).tasma().calls@.len() >= MAX_CALLS
                ==> final(self).tasma().incomplete && final(self).tasma().calls@ == old(self).tasma().calls@,
            !old(self).tasma().incomplete && (args is Err || result is Err)
                ==> final(self).tasma().incomplete && final(self).tasma().calls@ == old(self).tasma().calls@,
            !old(self).tasma().incomplete && old(self).tasma().calls@.len() < MAX_CALLS && args is Ok && result is Ok
                ==> final(self).tasma().calls@.len() == old(self).tasma().calls@.len() + 1
                && final(self).tasma().calls@.last().method@ == method@
                && final(self).tasma().calls@.drop_last() == old(self).tasma().calls@,
            !final(self).tasma().incomplete ==> (args matches Ok(a) && result matches Ok(w)
                && final(self).nagranie() == old(self).nagranie().push((method@, a, w))),
    {
        if self.trace.incomplete || self.trace.calls.len() >= MAX_CALLS {
            self.trace.incomplete = true;
            return;
        }
        match (args, result) {
            (Ok(a), Ok(w)) => {
                let ghost przed = self.trace;
                let ai = self.trace.intern(a);
                let ghost srodek = self.trace;
                let wi = self.trace.intern(w);
                self.trace.calls.push(Call { method: String::from_str(method), args: ai, result: wi });
                proof {
                    self.nagrane@ = self.nagrane@.push((method@, a, w));
                    assert(self.trace.calls@.drop_last() =~= old(self).trace.calls@);
                    if !self.trace.incomplete {
                        let n = przed.values@.len() as int;
                        let m = srodek.values@.len() as int;
                        assert forall|i: int| #![trigger self.trace.calls@[i]] 0 <= i < old(self).trace.calls@.len()
                            implies self.trace.values@[self.trace.calls@[i].args as int] == przed.values@[
                                przed.calls@[i].args as int]
                            && self.trace.values@[self.trace.calls@[i].result as int] == przed.values@[
                                przed.calls@[i].result as int] by {
                            assert(self.trace.calls@[i] == przed.calls@[i]);
                            assert(self.trace.values@.take(m)[przed.calls@[i].args as int]
                                == self.trace.values@[przed.calls@[i].args as int]);
                            assert(srodek.values@.take(n)[przed.calls@[i].args as int]
                                == srodek.values@[przed.calls@[i].args as int]);
                            assert(self.trace.values@.take(m)[przed.calls@[i].result as int]
                                == self.trace.values@[przed.calls@[i].result as int]);
                            assert(srodek.values@.take(n)[przed.calls@[i].result as int]
                                == srodek.values@[przed.calls@[i].result as int]);
                        }
                        assert(self.trace.values@.take(m)[ai as int] == self.trace.values@[ai as int]);
                    }
                }
            },
            _ => {
                self.trace.incomplete = true;
            },
        }
    }

    /// Hands over the tape and starts a fresh one.
    pub fn finish(&mut self) -> (r: Trace)
        requires
            old(self).wf(),
        ensures
            final(self).wf(),
            r == old(self).tasma(),
            r.schema == 2,
            r.calls@.len() <= MAX_CALLS,
            wartosci_rozne(r.values@),
            final(self).tasma().schema == 2,
            final(self).tasma().calls@.len() == 0,
            final(self).tasma().values@.len() == 0,
            !final(self).tasma().incomplete,
            final(self).nagranie().len() == 0,
    {
        let mut t = Trace::default();
        std::mem::swap(&mut t, &mut self.trace);
        proof {
            self.nagrane@ = Seq::empty();
        }
        t
    }
}

/// A complete tape answers what was recorded: it is of the replayed schema,
/// within the call limit, every call refers to stored values, and call by
/// call it holds the recorded method, arguments the same as the recorded
/// ones and a result the same as the recorded one.
pub proof fn tasma_odtwarza_nagranie(r: Recorder)
    requires
        r.wf(),
        !r.tasma().incomplete,
    ensures
        r.tasma().schema == 2,
        r.tasma().calls@.len() <= MAX_CALLS,
        odwolania_poprawne(r.tasma().calls@, r.tasma().values@.len()),
        r.tasma().calls@.len() == r.nagranie().len(),
        forall|i: int| #![trigger r.nagranie()[i]] 0 <= i < r.nagranie().len() ==> {
            &&& r.tasma().calls@[i].method@ == r.nagranie()[i].0
            &&& zgodne(r.nagranie()[i].1, r.tasma().values@[r.tasma().calls@[i].args as int])
            &&& zgodne(r.tasma().values@[r.tasma().calls@[i].result as int], r.nagranie()[i].2)
        },
{
    let t = r.tasma();
    let log = r.nagranie();
    assert forall|k: int| 0 <= k < t.calls@.len() implies (#[trigger] t.calls@[k]).args < t.values@.len()
        && t.calls@[k].result < t.values@.len() by {}
    assert forall|i: int| #![trigger log[i]] 0 <= i < log.len() implies zgodne(
        log[i].1,
        t.values@[t.calls@[i].args as int],
    ) by {
        assert(t.calls@[i].args < t.values@.len());
        zgodne_symetryczne(t.values@[t.calls@[i].args as int], log[i].1);
    }
}

/// The replay accepts a question at position `k` of the tape: the tape
/// has a call there, of the asked method, with arguments the same as the
/// asked ones.
pub open spec fn przyjmuje(calls: Seq<Call>, values: Seq<Exact>, k: int, method: Seq<char>, args: Result<Exact, Error>) -> bool {
    &&& 0 <= k < calls.len()
    &&& calls[k].method@ == method
    &&& args matches Ok(a) && zgodne(a, values[calls[k].args as int])
}

/// The replay accepts a call at position `k` exactly when the method is the
/// recorded one and the arguments hold the same value tree as the recorded
/// arguments: a call whose arguments differ anywhere (an enum variant's name
/// among them) is refused.
pub proof fn odtworzenie_tylko_tych_samych_argumentow(calls: Seq<Call>, values: Seq<Exact>, k: int, method: Seq<char>, args: Result<Exact, Error>)
    requires
        0 <= k < calls.len(),
        0 <= calls[k].args < values.len(),
    ensures
        przyjmuje(calls, values, k, method, args) <==> (calls[k].method@ == method && (args matches Ok(a) && drzewo(a)
            == drzewo(values[calls[k].args as int]))),
{
    if let Ok(a) = args {
        if zgodne(a, values[calls[k].args as int]) {
            zgodne_to_ta_sama_wartosc(a, values[calls[k].args as int]);
        }
        if drzewo(a) == drzewo(values[calls[k].args as int]) {
            ta_sama_wartosc_to_zgodne(a, values[calls[k].args as int]);
        }
    }
}

/// A complete recorded tape replays the recorded run: the replay of it
/// starts (the tape is of the replayed schema, within the call limit, with
/// every reference stored), at every position it accepts the question that
/// was recorded there and answers a result the same as the recorded one, so
/// a rerun that asks the recorded questions in order consumes the whole tape
/// and finishes.
pub proof fn powtorka_odtwarza_nagranie(r: Recorder)
    requires
        r.wf(),
        !r.tasma().incomplete,
    ensures
        r.tasma().schema == 2,
        r.tasma().calls@.len() <= MAX_CALLS,
        odwolania_poprawne(r.tasma().calls@, r.tasma().values@.len()),
        r.tasma().calls@.len() == r.nagranie().len(),
        forall|k: int| #![trigger r.nagranie()[k]] 0 <= k < r.nagranie().len() ==> {
            &&& przyjmuje(r.tasma().calls@, r.tasma().values@, k, r.nagranie()[k].0, Ok(r.nagranie()[k].1))
            &&& zgodne(r.tasma().values@[r.tasma().calls@[k].result as int], r.nagranie()[k].2)
        },
{
    tasma_odtwarza_nagranie(r);
}

/// A disagreement between the replayed code and the tape.
#[derive(Clone, Debug)]
pub struct Mismatch {
    pub index: usize,
    pub expected: String,
    pub actual: String,
}

/// Answers broker calls from a tape, in order.
pub struct ReplayBroker {
    values: Vec<Exact>,
    calls: Vec<Call>,
    cursor: usize,
}

/// Every call of the tape refers to stored values.
pub open spec fn odwolania_poprawne(calls: Seq<Call>, n: nat) -> bool {
    forall|k: int| 0 <= k < calls.len() ==> (#[trigger] calls[k]).args < n && calls[k].result < n
}

impl ReplayBroker {
    pub closed spec fn wywolania(self) -> Seq<Call> {
        self.calls@
    }

    pub closed spec fn wartosci(self) -> Seq<Exact> {
        self.values@
    }

    pub closed spec fn kursor(self) -> nat {
        self.cursor as nat
    }

    pub closed spec fn wf(self) -> bool {
        &&& odwolania_poprawne(self.calls@, self.values@.len())
        &&& self.cursor <= self.calls@.len()
    }

    /// A replay of a complete tape of the supported schema whose calls all
    /// refer to stored values.
    pub fn new(trace: Trace) -> (r: Result<ReplayBroker, String>)
        ensures
            (trace.incomplete || trace.schema != 2 || trace.calls@.len() > MAX_CALLS)
                ==> (r matches Err(e) && e@ == "broker transcript incomplete or unsupported"@),
            !(trace.incomplete || trace.schema != 2 || trace.calls@.len() > MAX_CALLS)
                && odwolania_poprawne(trace.calls@, trace.values@.len()) ==> (r matches Ok(b) && b.wf()
                && b.wywolania() == trace.calls@ && b.wartosci() == trace.values@ && b.kursor() == 0),
            !(trace.incomplete || trace.schema != 2 || trace.calls@.len() > MAX_CALLS)
                && !odwolania_poprawne(trace.calls@, trace.values@.len()) ==> (r matches Err(e)
                && (e@ == "broker arguments reference missing"@ || e@ == "broker result reference missing"@)),
    {
        if trace.incomplete || trace.schema != 2 || trace.calls.len() > MAX_CALLS {
            proof {
                reveal_strlit("broker transcript incomplete or unsupported");
            }
            return Err(String::from_str("broker transcript incomplete or unsupported"));
        }
        let mut k: usize = 0;
        while k < trace.calls.len()
            invariant
                k <= trace.calls@.len(),
                !(trace.incomplete || trace.schema != 2 || trace.calls@.len() > MAX_CALLS),
                forall|j: int| 0 <= j < k ==> (#[trigger] trace.calls@[j]).args < trace.values@.len()
                    && trace.calls@[j].result < trace.values@.len(),
            decreases trace.calls@.len() - k,
        {
            if trace.calls[k].args >= trace.values.len() {
                return Err(String::from_str("broker arguments reference missing"));
            }
            if trace.calls[k].result >= trace.values.len() {
                return Err(String::from_str("broker result reference missing"));
            }
            k = k + 1;
        }
        Ok(ReplayBroker { values: trace.values, calls: trace.calls, cursor: 0 })
    }

    /// Consumes the next call of the tape. The replayed code must ask the
    /// recorded method with the recorded arguments; the first disagreement is
    /// reported with its position and the tape does not move.
    pub fn consume(&mut self, method: &str, args: Result<Exact, Error>) -> (r: Result<usize, Mismatch>)
        requires
            old(self).wf(),
        ensures
            final(self).wf(),
            final(self).wywolania() == old(self).wywolania(),
            final(self).wartosci() == old(self).wartosci(),
            r is Ok <==> przyjmuje(old(self).wywolania(), old(self).wartosci(), old(self).kursor() as int, method@, args),
            match r {
                Ok(i) => i == old(self).kursor() && i < old(self).wywolania().len()
                    && old(self).wywolania()[i as int].method@ == method@
                    && (args matches Ok(a) && zgodne(a, old(self).wartosci()[old(self).wywolania()[i as int].args as int]))
                    && final(self).kursor() == i + 1,
                Err(m) => m.index == old(self).kursor() && m.actual@ == method@ && final(self).kursor() == old(self).kursor()
                    && if old(self).kursor() >= old(self).wywolania().len() {
                        m.expected@ == "end of transcript"@
                    } else if old(self).wywolania()[old(self).kursor() as int].method@ != method@ {
                        m.expected@ == old(self).wywolania()[old(self).kursor() as int].method@
                    } else {
                        m.expected@ == "recorded arguments"@ && !(args matches Ok(a) && zgodne(
                            a,
                            old(self).wartosci()[old(self).wywolania()[old(self).kursor() as int].args as int],
                        ))
                    },
            },
    {
        let index = self.cursor;
        if index >= self.calls.len() {
            proof {
                reveal_strlit("end of transcript");
            }
            return Err(Mismatch {
                index,
                expected: String::from_str("end of transcript"),
                actual: String::from_str(method),
            });
        }
        if !rowne_teksty(self.calls[index].method.as_str(), method) {
            return Err(Mismatch { index, expected: self.calls[index].method.clone(), actual: String::from_str(method) });
        }
        let zgodny = match &args {
            Ok(a) => a.rowne(&self.values[self.calls[index].args]),
            Err(_) => false,
        };
        if !zgodny {
            proof {
                reveal_strlit("recorded arguments");
            }
            return Err(Mismatch {
                index,
                expected: String::from_str("recorded arguments"),
                actual: String::from_str(method),
            });
        }
        self.cursor = index + 1;
        Ok(index)
    }

    /// The recorded result of a consumed call, for decoding.
    pub fn result_of(&self, i: usize) -> (r: &Exact)
        requires
            self.wf(),
            i < self.wywolania().len(),
        ensures
            *r == self.wartosci()[self.wywolania()[i as int].result as int],
    {
        &self.values[self.calls[i].result]
    }

    /// The replay is complete when every recorded call was consumed.
    pub fn finish(&self) -> (r: Result<(), String>)
        requires
            self.wf(),
        ensures
            self.kursor() == self.wywolania().len() ==> r is Ok,
            self.kursor() != self.wywolania().len() ==> (r matches Err(e)
                && e@ == decimal_text(self.wywolania().len() - self.kursor()) + " unconsumed broker calls"@),
    {
        if self.cursor != self.calls.len() {
            let n = liczba_tekstem((self.calls.len() - self.cursor) as u64);
            let mut e = n;
            e.append(" unconsumed broker calls");
            proof {
                reveal_strlit(" unconsumed broker calls");
            }
            return Err(e);
        }
        Ok(())
    }
}

} // verus!
