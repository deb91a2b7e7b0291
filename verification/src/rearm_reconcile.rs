//! A rearm batch is counted once, including when its OPEN is adopted later.
//! Definite refusals create no state. Unconfirmed exposure is never guessed.
use vstd::prelude::*;
use crate::broker::{ExecutionSession, Side};
use crate::engine::{Basket, Engine};

verus! {

/// A market order the broker took without a complete acknowledgement, as the
/// adapter reports it. The requested volume is in integer units of the
/// broker's volume step.
#[derive(Debug, Clone)]
pub struct UnconfirmedOpen {
    pub session: ExecutionSession,
    pub side: Side,
    pub requested_units: u64,
    pub basket: Option<u32>,
    pub level: i32,
    pub is_toucher: bool,
    pub submitted_quote_ts: i64,
    pub machine_comment: String,
}

impl UnconfirmedOpen {
    pub open spec fn same(self, o: UnconfirmedOpen) -> bool {
        &&& self.session.same(o.session)
        &&& self.side == o.side
        &&& self.requested_units == o.requested_units
        &&& self.basket == o.basket
        &&& self.level == o.level
        &&& self.is_toucher == o.is_toucher
        &&& self.submitted_quote_ts == o.submitted_quote_ts
        &&& self.machine_comment@ == o.machine_comment@
    }

    pub fn rowny(&self, o: &UnconfirmedOpen) -> (r: bool)
        ensures
            r == self.same(*o),
    {
        self.side == o.side && self.requested_units == o.requested_units && self.basket == o.basket
            && self.level == o.level && self.is_toucher == o.is_toucher
            && self.submitted_quote_ts == o.submitted_quote_ts && self.session.rowna(&o.session)
            && self.machine_comment == o.machine_comment
    }

    fn klon(&self) -> (r: UnconfirmedOpen)
        ensures
            r.same(*self),
    {
        UnconfirmedOpen {
            session: ExecutionSession { scope: self.session.scope.clone(), generation: self.session.generation },
            side: self.side,
            requested_units: self.requested_units,
            basket: self.basket,
            level: self.level,
            is_toucher: self.is_toucher,
            submitted_quote_ts: self.submitted_quote_ts,
            machine_comment: self.machine_comment.clone(),
        }
    }
}

/// Why a batch needs a human.
#[derive(Debug, Clone, Copy, PartialEq, Eq, Structural)]
pub enum RearmReview {
    MissingBasketMemory,
    CounterStateMismatch,
    MissingPositionProof,
}

/// One rearm submission awaiting confirmation.
#[derive(Debug)]
pub struct RearmBatch {
    pub basket: u32,
    pub submitted_ts: i64,
    pub count_before: u32,
    pub last_before: i64,
    pub counted: bool,
    pub review: Option<RearmReview>,
    pub intents: Vec<UnconfirmedOpen>,
}

/// Mathematical view of a batch.
pub ghost struct RearmBatchView {
    pub basket: u32,
    pub submitted_ts: i64,
    pub count_before: u32,
    pub last_before: i64,
    pub counted: bool,
    pub review: Option<RearmReview>,
    pub intents: Seq<UnconfirmedOpen>,
}

impl RearmBatch {
    pub open spec fn view(self) -> RearmBatchView {
        RearmBatchView {
            basket: self.basket,
            submitted_ts: self.submitted_ts,
            count_before: self.count_before,
            last_before: self.last_before,
            counted: self.counted,
            review: self.review,
            intents: self.intents@,
        }
    }
}

/// The persisted part of the rearm ledger.
#[derive(Debug)]
pub struct RearmReconcileState {
    pub batches: Vec<RearmBatch>,
}

pub open spec fn batches_view(b: Seq<RearmBatch>) -> Seq<RearmBatchView> {
    b.map_values(|x: RearmBatch| x@)
}

/// The rearm ledger of an engine: persisted batches, the batch being built
/// during a submission, and a change revision.
#[derive(Debug)]
pub struct RearmReconcile {
    pub state: RearmReconcileState,
    pub building: Option<RearmBatch>,
    pub revision: u64,
}

/// A position the broker shows, with the identity a confirmation must match.
#[derive(Debug, Clone, Copy, PartialEq, Eq, Structural)]
pub struct RearmPosition {
    pub ticket: u64,
    pub basket: Option<u32>,
    pub side: Side,
    pub level: i32,
    pub is_toucher: bool,
}

/// What the adapter answered when asked to reconcile: the tickets it confirms
/// for earlier intents, the positions it shows, and whether close receipts
/// are clear.
#[derive(Debug)]
pub struct RearmEvidence {
    pub confirmed: Vec<(UnconfirmedOpen, u64)>,
    pub positions: Vec<RearmPosition>,
    pub receipt_clear: bool,
}

/// The ticket the adapter confirms for an intent: the first matching answer.
pub open spec fn bilet(c: Seq<(UnconfirmedOpen, u64)>, intent: UnconfirmedOpen) -> Option<u64>
    decreases c.len(),
{
    if c.len() == 0 {
        None
    } else if c[0].0.same(intent) {
        Some(c[0].1)
    } else {
        bilet(c.drop_first(), intent)
    }
}

/// An intent is confirmed when the adapter names a ticket for it AND shows a
/// position of that ticket with the full identity of the sent order.
pub open spec fn potwierdzony(e: RearmEvidence, basket: u32, intent: UnconfirmedOpen) -> bool {
    bilet(e.confirmed@, intent) matches Some(t) && exists|k: int| 0 <= k < e.positions@.len()
        && (#[trigger] e.positions@[k]).ticket == t && e.positions@[k].basket == Some(basket)
        && e.positions@[k].side == intent.side && e.positions@[k].level == intent.level
        && e.positions@[k].is_toucher == intent.is_toucher
}

/// The intents of a batch that the evidence does not confirm.
pub open spec fn niepotwierdzone(e: RearmEvidence, basket: u32, s: Seq<UnconfirmedOpen>) -> Seq<UnconfirmedOpen> {
    s.filter(|i: UnconfirmedOpen| !potwierdzony(e, basket, i))
}

/// Index of the first basket with this number.
pub open spec fn basket_index(b: Seq<Basket>, id: u32) -> Option<int>
    decreases b.len(),
{
    if b.len() == 0 {
        None
    } else {
        match basket_index(b.drop_last(), id) {
            Some(i) => Some(i),
            None => if b.last().id == id { Some(b.len() - 1) } else { None },
        }
    }
}

/// Rearm counters of the baskets: number, count and last rearm time.
pub open spec fn liczniki(b: Seq<Basket>) -> Seq<(u32, u32, i64)> {
    b.map_values(|x: Basket| (x.id, x.rearms, x.last_rearm_ts))
}

/// One batch reconciled against the evidence: the counters after it, the
/// batch if it stays, and whether anything changed.
pub open spec fn krok(c: Seq<(u32, u32, i64)>, b: RearmBatchView, e: RearmEvidence)
    -> (Seq<(u32, u32, i64)>, Option<RearmBatchView>, bool)
{
    match index_licznika(c, b.basket) {
        None => if b.review is None {
            (c, Some(RearmBatchView { review: Some(RearmReview::MissingBasketMemory), ..b }), true)
        } else {
            (c, Some(b), false)
        },
        Some(slot) => {
            let expected = if b.count_before == u32::MAX { u32::MAX } else { (b.count_before + 1) as u32 };
            let at_before = c[slot].1 == b.count_before && c[slot].2 == b.last_before;
            let at_after = c[slot].1 == expected && c[slot].2 == b.submitted_ts;
            if !at_before && !at_after {
                if b.review != Some(RearmReview::CounterStateMismatch) {
                    (c, Some(RearmBatchView { review: Some(RearmReview::CounterStateMismatch), ..b }), true)
                } else {
                    (c, Some(b), false)
                }
            } else {
                let reszta = niepotwierdzone(e, b.basket, b.intents);
                let any = reszta.len() < b.intents.len();
                let c2 = if any && at_before { c.update(slot, (c[slot].0, expected, b.submitted_ts)) } else { c };
                let b2 = RearmBatchView { intents: reszta, counted: if any { true } else { b.counted }, ..b };
                if reszta.len() > 0 {
                    if e.receipt_clear && b.review is None {
                        (c2, Some(RearmBatchView { review: Some(RearmReview::MissingPositionProof), ..b2 }), true)
                    } else {
                        (c2, Some(b2), any)
                    }
                } else {
                    (c2, None, any)
                }
            }
        },
    }
}

/// Index of the first counter entry of this basket number.
pub open spec fn index_licznika(c: Seq<(u32, u32, i64)>, id: u32) -> Option<int>
    decreases c.len(),
{
    if c.len() == 0 {
        None
    } else {
        match index_licznika(c.drop_last(), id) {
            Some(i) => Some(i),
            None => if c.last().0 == id { Some(c.len() - 1) } else { None },
        }
    }
}

/// All batches reconciled in order.
pub open spec fn przebieg(c: Seq<(u32, u32, i64)>, bs: Seq<RearmBatchView>, e: RearmEvidence)
    -> (Seq<(u32, u32, i64)>, Seq<RearmBatchView>, bool)
    decreases bs.len(),
{
    if bs.len() == 0 {
        (c, Seq::empty(), false)
    } else {
        let p = przebieg(c, bs.drop_last(), e);
        let k = krok(p.0, bs.last(), e);
        (k.0, match k.1 {
            Some(b) => p.1.push(b),
            None => p.1,
        }, p.2 || k.2)
    }
}

/// Everything of a basket but its rearm counters.
pub open spec fn reszta_koszyka_bez_zmian(a: Basket, b: Basket) -> bool {
    &&& a.id == b.id
    &&& a.source == b.source
    &&& a.msg_id == b.msg_id
    &&& a.msg_aliases@ == b.msg_aliases@
    &&& a.is_limit == b.is_limit
    &&& a.is_stop == b.is_stop
    &&& a.entry_edit_state == b.entry_edit_state
}

/// Text of the rearm hold shown for manual new exposure.
pub open spec fn tekst_blokady(bs: Seq<RearmBatchView>) -> Seq<char> {
    if exists|k: int| 0 <= k < bs.len() && (#[trigger] bs[k]).review is Some {
        "REARM REVIEW: brak pełnego dowodu wysłanej intencji; wymagane uzgodnienie historii brokera i pamięci koszyka"@
    } else {
        "REARM HOLD: oczekiwanie na potwierdzenie wysłanego zlecenia; licznik nie jest zgadywany"@
    }
}

fn klon_intencji(v: &Vec<UnconfirmedOpen>) -> (r: Vec<UnconfirmedOpen>)
    ensures
        r@.len() == v@.len(),
        forall|k: int| 0 <= k < v@.len() ==> (#[trigger] r@[k]).same(v@[k]),
{
    let mut r: Vec<UnconfirmedOpen> = Vec::new();
    let mut k: usize = 0;
    while k < v.len()
        invariant
            k <= v@.len(),
            r@.len() == k,
            forall|j: int| 0 <= j < k ==> (#[trigger] r@[j]).same(v@[j]),
        decreases v@.len() - k,
    {
        r.push(v[k].klon());
        k = k + 1;
    }
    r
}

impl Engine {
    /// The persisted rearm ledger (a copy).
    pub fn rearm_reconcile_state(&self) -> (r: RearmReconcileState)
        ensures
            r.batches@.len() == self.rearm_reconcile.state.batches@.len(),
            forall|k: int| 0 <= k < r.batches@.len() ==> {
                let a = (#[trigger] r.batches@[k])@;
                let b = self.rearm_reconcile.state.batches@[k]@;
                &&& a.basket == b.basket && a.submitted_ts == b.submitted_ts
                &&& a.count_before == b.count_before && a.last_before == b.last_before
                &&& a.counted == b.counted && a.review == b.review
                &&& a.intents.len() == b.intents.len()
                &&& forall|j: int| 0 <= j < a.intents.len() ==> (#[trigger] a.intents[j]).same(b.intents[j])
            },
    {
        let src = &self.rearm_reconcile.state.batches;
        let mut out: Vec<RearmBatch> = Vec::new();
        let mut k: usize = 0;
        while k < src.len()
            invariant
                k <= src@.len(),
                out@.len() == k,
                forall|q: int| 0 <= q < k ==> {
                    let a = (#[trigger] out@[q])@;
                    let b = src@[q]@;
                    &&& a.basket == b.basket && a.submitted_ts == b.submitted_ts
                    &&& a.count_before == b.count_before && a.last_before == b.last_before
                    &&& a.counted == b.counted && a.review == b.review
                    &&& a.intents.len() == b.intents.len()
                    &&& forall|j: int| 0 <= j < a.intents.len() ==> (#[trigger] a.intents[j]).same(b.intents[j])
                },
            decreases src@.len() - k,
        {
            let b = &src[k];
            out.push(RearmBatch {
                basket: b.basket,
                submitted_ts: b.submitted_ts,
                count_before: b.count_before,
                last_before: b.last_before,
                counted: b.counted,
                review: b.review,
                intents: klon_intencji(&b.intents),
            });
            k = k + 1;
        }
        RearmReconcileState { batches: out }
    }

    /// Replaces the persisted rearm ledger, drops any half-built batch and
    /// advances the change revision.
    pub fn restore_rearm_reconcile_state(&mut self, state: RearmReconcileState)
        ensures
            final(self).rearm_reconcile.state.batches@ == state.batches@,
            final(self).rearm_reconcile.building is None,
            final(self).rearm_reconcile.revision == old(self).rearm_reconcile.revision.wrapping_add(1),
            final(self).baskets@ == old(self).baskets@,
            final(self).obce_rearm_entry_hold == old(self).obce_rearm_entry_hold,
    {
        self.rearm_reconcile.state = state;
        self.rearm_reconcile.building = None;
        self.rearm_reconcile.revision = self.rearm_reconcile.revision.wrapping_add(1);
    }

    pub fn rearm_reconcile_revision(&self) -> (r: u64)
        ensures
            r == self.rearm_reconcile.revision,
    {
        self.rearm_reconcile.revision
    }

    /// Read-only guard for manual new exposure: this engine's own unconfirmed
    /// batches only (the holds of other slots are never fed back).
    pub fn rearm_entry_hold_reason(&self) -> (r: Option<&'static str>)
        ensures
            self.rearm_reconcile.state.batches@.len() == 0 ==> r is None,
            self.rearm_reconcile.state.batches@.len() > 0
                ==> (r matches Some(t) && t@ == tekst_blokady(batches_view(self.rearm_reconcile.state.batches@))),
    {
        if self.rearm_reconcile.state.batches.len() == 0 {
            None
        } else {
            Some(self.rearm_hold_reason())
        }
    }

    /// Whether a rearm confirmation is still owed, here or in another slot.
    pub fn rearm_confirmation_pending(&self) -> (r: bool)
        ensures
            r == (self.rearm_reconcile.state.batches@.len() > 0 || self.obce_rearm_entry_hold),
    {
        self.rearm_reconcile.state.batches.len() > 0 || self.obce_rearm_entry_hold
    }

    pub fn rearm_hold_reason(&self) -> (r: &'static str)
        ensures
            r@ == tekst_blokady(batches_view(self.rearm_reconcile.state.batches@)),
    {
        let b = &self.rearm_reconcile.state.batches;
        let mut k: usize = 0;
        while k < b.len()
            invariant
                k <= b@.len(),
                b@ == self.rearm_reconcile.state.batches@,
                forall|j: int| 0 <= j < k ==> (#[trigger] b@[j]).review is None,
            decreases b@.len() - k,
        {
            if b[k].review.is_some() {
                proof {
                    let bv = batches_view(b@);
                    assert(0 <= k < bv.len());
                    assert(bv[k as int].review is Some);
                    assert(exists|j: int| 0 <= j < bv.len() && (#[trigger] bv[j]).review is Some);
                }
                return "REARM REVIEW: brak pełnego dowodu wysłanej intencji; wymagane uzgodnienie historii brokera i pamięci koszyka";
            }
            k = k + 1;
        }
        proof {
            assert forall|j: int| 0 <= j < batches_view(b@).len() implies (#[trigger] batches_view(b@)[j]).review is None by {
                assert(b@[j].review is None);
            }
        }
        "REARM HOLD: oczekiwanie na potwierdzenie wysłanego zlecenia; licznik nie jest zgadywany"
    }

    /// Starts the batch of one rearm submission from the basket's current
    /// counters; a basket that does not exist starts nothing.
    pub fn begin_rearm_batch(&mut self, basket: u32, submitted_ts: i64)
        requires
            old(self).rearm_reconcile.building is None,
        ensures
            final(self).baskets@ == old(self).baskets@,
            final(self).rearm_reconcile.state.batches@ == old(self).rearm_reconcile.state.batches@,
            final(self).rearm_reconcile.revision == old(self).rearm_reconcile.revision,
            final(self).obce_rearm_entry_hold == old(self).obce_rearm_entry_hold,
            match basket_index(old(self).baskets@, basket) {
                None => final(self).rearm_reconcile.building is None,
                Some(i) => (final(self).rearm_reconcile.building matches Some(b) && b@ == (RearmBatchView {
                    basket,
                    submitted_ts,
                    count_before: old(self).baskets@[i].rearms,
                    last_before: old(self).baskets@[i].last_rearm_ts,
                    counted: false,
                    review: None,
                    intents: Seq::empty(),
                })),
            },
    {
        match self.basket_nr(basket) {
            None => {},
            Some(i) => {
                let count_before = self.baskets[i].rearms;
                let last_before = self.baskets[i].last_rearm_ts;
                self.rearm_reconcile.building = Some(RearmBatch {
                    basket,
                    submitted_ts,
                    count_before,
                    last_before,
                    counted: false,
                    review: None,
                    intents: Vec::new(),
                });
                assert(self.rearm_reconcile.building.unwrap()@.intents =~= Seq::<UnconfirmedOpen>::empty());
            },
        }
    }

    /// Index of the first basket with this number.
    pub fn basket_nr(&self, id: u32) -> (r: Option<usize>)
        ensures
            match r {
                Some(i) => basket_index(self.baskets@, id) == Some(i as int) && i < self.baskets@.len(),
                None => basket_index(self.baskets@, id) is None,
            },
    {
        let mut k: usize = 0;
        while k < self.baskets.len()
            invariant
                k <= self.baskets@.len(),
                basket_index(self.baskets@.take(k as int), id) is None,
            decreases self.baskets@.len() - k,
        {
            proof {
                assert(self.baskets@.take(k + 1).drop_last() =~= self.baskets@.take(k as int));
            }
            if self.baskets[k].id == id {
                proof {
                    lemma_basket_index_prefix(self.baskets@, id, k as int + 1);
                }
                return Some(k);
            }
            k = k + 1;
        }
        assert(self.baskets@.take(self.baskets@.len() as int) =~= self.baskets@);
        None
    }

    /// Remembers the order the adapter reports as sent but unconfirmed, for
    /// the batch being built for this basket; an incomplete identity is not
    /// remembered, and the same intent only once.
    pub fn remember_rearm_unconfirmed(&mut self, unconfirmed: Option<UnconfirmedOpen>, basket: u32)
        ensures
            final(self).baskets@ == old(self).baskets@,
            final(self).rearm_reconcile.state.batches@ == old(self).rearm_reconcile.state.batches@,
            final(self).rearm_reconcile.revision == old(self).rearm_reconcile.revision,
            final(self).obce_rearm_entry_hold == old(self).obce_rearm_entry_hold,
            match old(self).rearm_reconcile.building {
                Some(b) if b.basket == basket => match unconfirmed {
                    Some(i) if i.basket == Some(basket) && i.session.scope@.len() > 0
                        && i.machine_comment@.len() > 0 && i.requested_units > 0 => (
                        final(self).rearm_reconcile.building matches Some(nb) && nb@ == (RearmBatchView {
                            intents: if exists|k: int| 0 <= k < b.intents@.len() && (#[trigger] b.intents@[k]).same(i) {
                                b.intents@
                            } else {
                                b.intents@.push(i)
                            },
                            ..b@
                        })),
                    _ => final(self).rearm_reconcile.building == old(self).rearm_reconcile.building,
                },
                _ => final(self).rearm_reconcile.building == old(self).rearm_reconcile.building,
            },
    {
        let i = match unconfirmed {
            Some(i) => i,
            None => {
                return;
            },
        };
        let pasuje = match &self.rearm_reconcile.building {
            Some(b) => b.basket == basket,
            None => false,
        };
        if !pasuje {
            return;
        }
        if i.basket != Some(basket) || i.session.scope.unicode_len() == 0 || i.machine_comment.unicode_len() == 0
            || i.requested_units == 0 {
            return;
        }
        let mut b = self.rearm_reconcile.building.take().unwrap();
        let ghost stare = b@;
        let mut jest = false;
        let mut k: usize = 0;
        while k < b.intents.len()
            invariant
                k <= b.intents@.len(),
                !jest ==> forall|j: int| 0 <= j < k ==> !(#[trigger] b.intents@[j]).same(i),
                jest ==> exists|j: int| 0 <= j < b.intents@.len() && (#[trigger] b.intents@[j]).same(i),
            decreases b.intents@.len() - k,
        {
            if b.intents[k].rowny(&i) {
                jest = true;
            }
            k = k + 1;
        }
        if !jest {
            b.intents.push(i);
        }
        self.rearm_reconcile.building = Some(b);
    }

    /// Closes the batch of a submission. A batch without any unconfirmed
    /// intent creates no state (a definite refusal never counts); otherwise it
    /// is kept, counted when an order was placed, and the revision advances.
    pub fn finish_rearm_batch(&mut self, placed: usize)
        ensures
            final(self).baskets@ == old(self).baskets@,
            final(self).rearm_reconcile.building is None,
            final(self).obce_rearm_entry_hold == old(self).obce_rearm_entry_hold,
            match old(self).rearm_reconcile.building {
                Some(b) if b.intents@.len() > 0 => {
                    &&& final(self).rearm_reconcile.state.batches@.len() == old(self).rearm_reconcile.state.batches@.len() + 1
                    &&& final(self).rearm_reconcile.state.batches@.drop_last() == old(self).rearm_reconcile.state.batches@
                    &&& final(self).rearm_reconcile.state.batches@.last()@ == (RearmBatchView { counted: placed > 0, ..b@ })
                    &&& final(self).rearm_reconcile.revision == old(self).rearm_reconcile.revision.wrapping_add(1)
                },
                _ => final(self).rearm_reconcile.state.batches@ == old(self).rearm_reconcile.state.batches@
                    && final(self).rearm_reconcile.revision == old(self).rearm_reconcile.revision,
            },
    {
        let mut b = match self.rearm_reconcile.building.take() {
            Some(b) => b,
            None => {
                return;
            },
        };
        if b.intents.len() == 0 {
            return;
        }
        b.counted = placed > 0;
        self.rearm_reconcile.state.batches.push(b);
        self.rearm_reconcile.revision = self.rearm_reconcile.revision.wrapping_add(1);
        assert(self.rearm_reconcile.state.batches@.drop_last() =~= old(self).rearm_reconcile.state.batches@);
    }
}

proof fn lemma_basket_index_prefix(b: Seq<Basket>, id: u32, n: int)
    requires
        0 < n <= b.len(),
        b[n - 1].id == id,
        basket_index(b.take(n - 1), id) is None,
    ensures
        basket_index(b, id) == Some(n - 1),
    decreases b.len() - n,
{
    assert(b.take(n).drop_last() =~= b.take(n - 1));
    lemma_index_extends(b, id, n);
}

proof fn lemma_index_extends(b: Seq<Basket>, id: u32, n: int)
    requires
        0 <= n <= b.len(),
        basket_index(b.take(n), id) is Some,
    ensures
        basket_index(b, id) == basket_index(b.take(n), id),
    decreases b.len() - n,
{
    if n < b.len() {
        assert(b.take(n + 1).drop_last() =~= b.take(n));
        lemma_index_extends(b, id, n + 1);
    } else {
        assert(b.take(n) =~= b);
    }
}

proof fn lemma_index_licznika(b: Seq<Basket>, id: u32)
    ensures
        index_licznika(liczniki(b), id) == basket_index(b, id),
    decreases b.len(),
{
    if b.len() > 0 {
        assert(liczniki(b).drop_last() =~= liczniki(b.drop_last()));
        lemma_index_licznika(b.drop_last(), id);
    }
}

pub open spec fn opcja_widoku(o: Option<RearmBatch>) -> Option<RearmBatchView> {
    match o {
        Some(b) => Some(b@),
        None => None,
    }
}

fn bilet_exec(c: &Vec<(UnconfirmedOpen, u64)>, intent: &UnconfirmedOpen) -> (r: Option<u64>)
    ensures
        r == bilet(c@, *intent),
{
    let mut k: usize = 0;
    assert(c@.skip(0) =~= c@);
    while k < c.len()
        invariant
            k <= c@.len(),
            bilet(c@, *intent) == bilet(c@.skip(k as int), *intent),
        decreases c@.len() - k,
    {
        proof {
            assert(c@.skip(k as int).drop_first() =~= c@.skip(k + 1));
            assert(c@.skip(k as int)[0] == c@[k as int]);
        }
        if c[k].0.rowny(intent) {
            return Some(c[k].1);
        }
        k = k + 1;
    }
    assert(c@.skip(k as int) =~= Seq::<(UnconfirmedOpen, u64)>::empty());
    None
}

fn potwierdzony_exec(e: &RearmEvidence, basket: u32, intent: &UnconfirmedOpen) -> (r: bool)
    ensures
        r == potwierdzony(*e, basket, *intent),
{
    let t = match bilet_exec(&e.confirmed, intent) {
        Some(t) => t,
        None => {
            return false;
        },
    };
    let mut k: usize = 0;
    while k < e.positions.len()
        invariant
            k <= e.positions@.len(),
            bilet(e.confirmed@, *intent) == Some(t),
            forall|j: int| 0 <= j < k ==> !((#[trigger] e.positions@[j]).ticket == t && e.positions@[j].basket == Some(basket)
                && e.positions@[j].side == intent.side && e.positions@[j].level == intent.level
                && e.positions@[j].is_toucher == intent.is_toucher),
        decreases e.positions@.len() - k,
    {
        let p = e.positions[k];
        if p.ticket == t && p.basket == Some(basket) && p.side == intent.side && p.level == intent.level
            && p.is_toucher == intent.is_toucher {
            return true;
        }
        k = k + 1;
    }
    false
}

impl Engine {
    /// Reconciles one batch against the evidence (see `krok`).
    fn uzgodnij_partie(&mut self, batch: RearmBatch, e: &RearmEvidence) -> (r: (Option<RearmBatch>, bool))
        ensures
            final(self).baskets@.len() == old(self).baskets@.len(),
            forall|i: int| 0 <= i < old(self).baskets@.len()
                ==> reszta_koszyka_bez_zmian(#[trigger] final(self).baskets@[i], old(self).baskets@[i]),
            (liczniki(final(self).baskets@), opcja_widoku(r.0), r.1) == krok(liczniki(old(self).baskets@), batch@, *e),
            final(self).rearm_reconcile == old(self).rearm_reconcile,
            final(self).obce_rearm_entry_hold == old(self).obce_rearm_entry_hold,
            final(self).explicit_pending_until_cancel == old(self).explicit_pending_until_cancel,
            final(self).pending_sources@ == old(self).pending_sources@,
            final(self).msg_to_basket@ == old(self).msg_to_basket@,
            final(self).next_basket_id == old(self).next_basket_id,
            final(self).pending_source_revision == old(self).pending_source_revision,
    {
        let mut batch = batch;
        let ghost b0 = batch@;
        let ghost c0 = liczniki(self.baskets@);
        proof {
            lemma_index_licznika(self.baskets@, batch.basket);
        }
        let slot = match self.basket_nr(batch.basket) {
            Some(slot) => slot,
            None => {
                if batch.review.is_none() {
                    batch.review = Some(RearmReview::MissingBasketMemory);
                    return (Some(batch), true);
                }
                return (Some(batch), false);
            },
        };
        let expected = batch.count_before.saturating_add(1);
        let rearms = self.baskets[slot].rearms;
        let last = self.baskets[slot].last_rearm_ts;
        proof {
            assert(c0[slot as int] == (self.baskets@[slot as int].id, rearms, last));
        }
        let at_before = rearms == batch.count_before && last == batch.last_before;
        let at_after = rearms == expected && last == batch.submitted_ts;
        if !at_before && !at_after {
            if batch.review != Some(RearmReview::CounterStateMismatch) {
                batch.review = Some(RearmReview::CounterStateMismatch);
                return (Some(batch), true);
            }
            return (Some(batch), false);
        }
        let mut intents: Vec<UnconfirmedOpen> = Vec::new();
        std::mem::swap(&mut intents, &mut batch.intents);
        let ghost all = intents@;
        assert(all.len() == intents.len());
        let mut reszta: Vec<UnconfirmedOpen> = Vec::new();
        let mut any = false;
        let mut k: usize = 0;
        while intents.len() > 0
            invariant
                all == b0.intents,
                batch.basket == b0.basket,
                all.len() <= usize::MAX,
                k <= all.len(),
                intents@ == all.skip(k as int),
                reszta@ == niepotwierdzone(*e, b0.basket, all.take(k as int)),
                any == (reszta@.len() < k),
                reszta@.len() <= k,
            decreases intents@.len(),
        {
            proof {
                assert(all.skip(k as int).len() == all.len() - k);
            }
            let i = intents.remove(0);
            proof {
                assert(all.take(k + 1).drop_last() =~= all.take(k as int));
                assert(all.take(k + 1).last() == i);
                assert(intents@ =~= all.skip(k + 1));
                reveal(Seq::filter);
            }
            if potwierdzony_exec(e, batch.basket, &i) {
                any = true;
            } else {
                reszta.push(i);
            }
            k = k + 1;
        }
        proof {
            assert(all.skip(k as int).len() == 0);
            assert(all.take(k as int) =~= all);
        }
        if any {
            if at_before {
                self.baskets[slot].rearms = expected;
                self.baskets[slot].last_rearm_ts = batch.submitted_ts;
                proof {
                    assert(liczniki(self.baskets@) =~= c0.update(slot as int, (c0[slot as int].0, expected, b0.submitted_ts)));
                }
            }
            batch.counted = true;
        }
        let pozostaja = reszta.len() > 0;
        batch.intents = reszta;
        if pozostaja {
            if e.receipt_clear && batch.review.is_none() {
                batch.review = Some(RearmReview::MissingPositionProof);
                return (Some(batch), true);
            }
            return (Some(batch), any);
        }
        (None, any)
    }

    /// Runs before another entry can use the rearm count or cooldown. The
    /// adapter supplies the confirmation; a similar-looking cached position is
    /// not proof. Recognizes only the exact before and after counter states of
    /// each batch and never guesses a merge.
    pub fn reconcile_rearm_batches(&mut self, e: &RearmEvidence)
        ensures
            final(self).rearm_reconcile.building == old(self).rearm_reconcile.building,
            final(self).obce_rearm_entry_hold == old(self).obce_rearm_entry_hold,
            final(self).baskets@.len() == old(self).baskets@.len(),
            forall|i: int| 0 <= i < old(self).baskets@.len()
                ==> reszta_koszyka_bez_zmian(#[trigger] final(self).baskets@[i], old(self).baskets@[i]),
            !(old(self).rearm_reconcile.state.batches@.len() > 0 || old(self).obce_rearm_entry_hold) ==> {
                &&& final(self).baskets@ == old(self).baskets@
                &&& final(self).rearm_reconcile.state.batches@ == old(self).rearm_reconcile.state.batches@
                &&& final(self).rearm_reconcile.revision == old(self).rearm_reconcile.revision
            },
            (old(self).rearm_reconcile.state.batches@.len() > 0 || old(self).obce_rearm_entry_hold) ==> {
                let p = przebieg(liczniki(old(self).baskets@), batches_view(old(self).rearm_reconcile.state.batches@), *e);
                &&& liczniki(final(self).baskets@) == p.0
                &&& batches_view(final(self).rearm_reconcile.state.batches@) == p.1
                &&& final(self).rearm_reconcile.revision == if p.2 {
                    old(self).rearm_reconcile.revision.wrapping_add(1)
                } else {
                    old(self).rearm_reconcile.revision
                }
            },
    {
        if !self.rearm_confirmation_pending() {
            return;
        }
        let mut batches: Vec<RearmBatch> = Vec::new();
        std::mem::swap(&mut batches, &mut self.rearm_reconcile.state.batches);
        let ghost bs0 = batches_view(batches@);
        let ghost c0 = liczniki(self.baskets@);
        let ghost old_baskets = self.baskets@;
        let mut remaining: Vec<RearmBatch> = Vec::new();
        let mut changed = false;
        let mut n: usize = 0;
        assert(bs0.len() == batches.len());
        assert(bs0.skip(0) =~= bs0);
        while batches.len() > 0
            invariant
                bs0.len() <= usize::MAX,
                n <= bs0.len(),
                batches_view(batches@) == bs0.skip(n as int),
                (liczniki(self.baskets@), batches_view(remaining@), changed) == przebieg(c0, bs0.take(n as int), *e),
                self.baskets@.len() == old_baskets.len(),
                forall|i: int| 0 <= i < old_baskets.len()
                    ==> reszta_koszyka_bez_zmian(#[trigger] self.baskets@[i], old_baskets[i]),
                self.rearm_reconcile.building == old(self).rearm_reconcile.building,
                self.rearm_reconcile.revision == old(self).rearm_reconcile.revision,
                self.obce_rearm_entry_hold == old(self).obce_rearm_entry_hold,
            decreases batches@.len(),
        {
            proof {
                assert(batches_view(batches@).len() == batches@.len());
                assert(bs0.skip(n as int).len() == bs0.len() - n);
            }
            let ghost pre = batches@;
            let b = batches.remove(0);
            proof {
                assert(batches@ =~= pre.subrange(1, pre.len() as int));
                assert(bs0.take(n + 1).drop_last() =~= bs0.take(n as int));
                assert(bs0.take(n + 1).last() == b@) by {
                    assert(bs0.skip(n as int)[0] == b@);
                }
                assert forall|j: int| 0 <= j < batches@.len() implies #[trigger] batches_view(batches@)[j] == bs0.skip(n + 1)[j] by {
                    assert(batches@[j] == pre[j + 1]);
                    assert(batches_view(pre)[j + 1] == bs0.skip(n as int)[j + 1]);
                }
                assert(batches_view(batches@) =~= bs0.skip(n + 1));
            }
            let ghost przed = remaining@;
            let (wynik, zm) = self.uzgodnij_partie(b, e);
            match wynik {
                Some(b) => {
                    remaining.push(b);
                    proof {
                        assert(batches_view(remaining@) =~= batches_view(przed).push(b@));
                    }
                },
                None => {},
            }
            if zm {
                changed = true;
            }
            n = n + 1;
        }
        proof {
            assert(bs0.take(n as int) =~= bs0);
        }
        self.rearm_reconcile.state.batches = remaining;
        if changed {
            self.rearm_reconcile.revision = self.rearm_reconcile.revision.wrapping_add(1);
        }
    }
}

proof fn lemma_nic_nie_potwierdzone(e: RearmEvidence, basket: u32, s: Seq<UnconfirmedOpen>)
    requires
        e.confirmed@.len() == 0,
    ensures
        niepotwierdzone(e, basket, s) == s,
    decreases s.len(),
{
    reveal(Seq::filter);
    if s.len() > 0 {
        lemma_nic_nie_potwierdzone(e, basket, s.drop_last());
        assert(s.drop_last().push(s.last()) =~= s);
    } else {
        assert(s.filter(|i: UnconfirmedOpen| !potwierdzony(e, basket, i)) =~= s);
    }
}

/// Unconfirmed exposure is never guessed: when the adapter confirms no
/// intent, reconciliation moves no rearm counter of any basket.
pub proof fn bez_potwierdzenia_liczniki_stoja(c: Seq<(u32, u32, i64)>, bs: Seq<RearmBatchView>, e: RearmEvidence)
    requires
        e.confirmed@.len() == 0,
    ensures
        przebieg(c, bs, e).0 == c,
    decreases bs.len(),
{
    if bs.len() > 0 {
        bez_potwierdzenia_liczniki_stoja(c, bs.drop_last(), e);
        lemma_nic_nie_potwierdzone(e, bs.last().basket, bs.last().intents);
    }
}

} // verus!
