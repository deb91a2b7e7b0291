//! Publisher validity is independent of broker exposure and strategy risk exits.
//!
//! The engine remembers, per basket, which source message opened a pending
//! entry, its aliases and whether the source withdrew it. Restoring the same
//! memory again changes nothing; every change advances a revision token.
use vstd::prelude::*;
use crate::broker::SourceKey;
use crate::engine::{Basket, Engine, EntryEditState, MsgBasket};

verus! {

/// The source of a pending entry, remembered per basket.
#[derive(Debug, Clone, PartialEq)]
pub struct PendingSourceRecord {
    pub source: SourceKey,
    pub msg_id: i64,
    pub basket_id: u32,
    pub aliases: Vec<i64>,
    pub cancelled_ts: Option<i64>,
}

/// Mathematical view of a source record.
pub ghost struct ZrodloView {
    pub source: SourceKey,
    pub msg_id: i64,
    pub basket_id: u32,
    pub aliases: Seq<i64>,
    pub cancelled_ts: Option<i64>,
}

impl PendingSourceRecord {
    pub open spec fn view(self) -> ZrodloView {
        ZrodloView {
            source: self.source,
            msg_id: self.msg_id,
            basket_id: self.basket_id,
            aliases: self.aliases@,
            cancelled_ts: self.cancelled_ts,
        }
    }

    fn klon(&self) -> (r: PendingSourceRecord)
        ensures
            r@ == self@,
    {
        PendingSourceRecord {
            source: self.source,
            msg_id: self.msg_id,
            basket_id: self.basket_id,
            aliases: self.aliases.clone(),
            cancelled_ts: self.cancelled_ts,
        }
    }

    fn rowny(&self, o: &PendingSourceRecord) -> (r: bool)
        ensures
            r == (self@ == o@),
    {
        if self.source != o.source || self.msg_id != o.msg_id || self.basket_id != o.basket_id
            || self.cancelled_ts != o.cancelled_ts || self.aliases.len() != o.aliases.len() {
            return false;
        }
        let mut k: usize = 0;
        while k < self.aliases.len()
            invariant
                k <= self.aliases@.len(),
                self.aliases@.len() == o.aliases@.len(),
                forall|j: int| 0 <= j < k ==> self.aliases@[j] == o.aliases@[j],
            decreases self.aliases@.len() - k,
        {
            if self.aliases[k] != o.aliases[k] {
                return false;
            }
            k = k + 1;
        }
        assert(self.aliases@ =~= o.aliases@);
        true
    }
}

pub open spec fn zrodla(v: Seq<PendingSourceRecord>) -> Seq<ZrodloView> {
    v.map_values(|r: PendingSourceRecord| r@)
}

/// Records ordered by strictly increasing basket number.
pub open spec fn rosnaco(s: Seq<ZrodloView>) -> bool {
    forall|i: int, j: int| 0 <= i < j < s.len() ==> (#[trigger] s[i]).basket_id < (#[trigger] s[j]).basket_id
}

/// Index of the record of a basket.
pub open spec fn pozycja(s: Seq<ZrodloView>, id: u32) -> Option<int> {
    if exists|i: int| 0 <= i < s.len() && (#[trigger] s[i]).basket_id == id {
        Some(choose|i: int| 0 <= i < s.len() && (#[trigger] s[i]).basket_id == id)
    } else {
        None
    }
}

/// Where a record of a new basket goes in the ordered records.
pub open spec fn miejsce(s: Seq<ZrodloView>, id: u32) -> int
    decreases s.len(),
{
    if s.len() == 0 {
        0
    } else if s[0].basket_id >= id {
        0
    } else {
        1 + miejsce(s.drop_first(), id)
    }
}

/// Aliases `b` appended to `a`, each at most once.
pub open spec fn dopisz(a: Seq<i64>, b: Seq<i64>) -> Seq<i64>
    decreases b.len(),
{
    if b.len() == 0 {
        a
    } else {
        let a2 = dopisz(a, b.drop_last());
        if a2.contains(b.last()) {
            a2
        } else {
            a2.push(b.last())
        }
    }
}

/// One record merged into the memory: a new basket gets the record; a known
/// basket from the same message keeps its first withdrawal time and gains the
/// new aliases; a known basket from another message is left alone.
pub open spec fn scal(s: Seq<ZrodloView>, r: ZrodloView) -> Seq<ZrodloView> {
    match pozycja(s, r.basket_id) {
        Some(i) => if s[i].source == r.source && s[i].msg_id == r.msg_id {
            s.update(i, ZrodloView {
                cancelled_ts: if s[i].cancelled_ts is Some { s[i].cancelled_ts } else { r.cancelled_ts },
                aliases: dopisz(s[i].aliases, r.aliases),
                ..s[i]
            })
        } else {
            s
        },
        None => s.insert(miejsce(s, r.basket_id), r),
    }
}

/// All records merged in order.
pub open spec fn scal_wszystkie(s: Seq<ZrodloView>, rs: Seq<ZrodloView>) -> Seq<ZrodloView>
    decreases rs.len(),
{
    if rs.len() == 0 {
        s
    } else {
        scal(scal_wszystkie(s, rs.drop_last()), rs.last())
    }
}

/// Whether merging the records changed the memory at some step.
pub open spec fn zmiana(s: Seq<ZrodloView>, rs: Seq<ZrodloView>) -> bool
    decreases rs.len(),
{
    if rs.len() == 0 {
        false
    } else {
        zmiana(s, rs.drop_last()) || scal(scal_wszystkie(s, rs.drop_last()), rs.last())
            != scal_wszystkie(s, rs.drop_last())
    }
}

/// Weight of a record in the memory: one, one more once it is withdrawn,
/// and one per alias.
pub open spec fn waga(z: ZrodloView) -> int {
    1 + (if z.cancelled_ts is Some { 1int } else { 0int }) + z.aliases.len()
}

/// Total weight of the records.
pub open spec fn suma_wag(s: Seq<ZrodloView>) -> int
    decreases s.len(),
{
    if s.len() == 0 {
        0
    } else {
        suma_wag(s.drop_last()) + waga(s.last())
    }
}

proof fn lemma_suma_update(s: Seq<ZrodloView>, i: int, x: ZrodloView)
    requires
        0 <= i < s.len(),
    ensures
        suma_wag(s.update(i, x)) == suma_wag(s) - waga(s[i]) + waga(x),
    decreases s.len(),
{
    if i == s.len() - 1 {
        assert(s.update(i, x).drop_last() =~= s.drop_last());
    } else {
        assert(s.update(i, x).drop_last() =~= s.drop_last().update(i, x));
        lemma_suma_update(s.drop_last(), i, x);
    }
}

proof fn lemma_suma_insert(s: Seq<ZrodloView>, j: int, x: ZrodloView)
    requires
        0 <= j <= s.len(),
    ensures
        suma_wag(s.insert(j, x)) == suma_wag(s) + waga(x),
    decreases s.len(),
{
    if j == s.len() {
        assert(s.insert(j, x).drop_last() =~= s);
    } else {
        assert(s.insert(j, x).drop_last() =~= s.drop_last().insert(j, x));
        lemma_suma_insert(s.drop_last(), j, x);
    }
}

proof fn lemma_miejsce_zakres(s: Seq<ZrodloView>, id: u32)
    ensures
        0 <= miejsce(s, id) <= s.len(),
    decreases s.len(),
{
    if s.len() > 0 && s[0].basket_id < id {
        lemma_miejsce_zakres(s.drop_first(), id);
    }
}

proof fn lemma_dopisz_rosnie(a: Seq<i64>, b: Seq<i64>)
    ensures
        dopisz(a, b).len() >= a.len(),
        dopisz(a, b).len() == a.len() ==> dopisz(a, b) == a,
    decreases b.len(),
{
    if b.len() > 0 {
        lemma_dopisz_rosnie(a, b.drop_last());
    }
}

proof fn lemma_scal_rosnie(s: Seq<ZrodloView>, r: ZrodloView)
    ensures
        suma_wag(scal(s, r)) >= suma_wag(s),
        scal(s, r) != s ==> suma_wag(scal(s, r)) > suma_wag(s),
{
    match pozycja(s, r.basket_id) {
        Some(i) => {
            if s[i].source == r.source && s[i].msg_id == r.msg_id {
                let e = ZrodloView {
                    cancelled_ts: if s[i].cancelled_ts is Some { s[i].cancelled_ts } else { r.cancelled_ts },
                    aliases: dopisz(s[i].aliases, r.aliases),
                    ..s[i]
                };
                lemma_suma_update(s, i, e);
                lemma_dopisz_rosnie(s[i].aliases, r.aliases);
                if waga(e) == waga(s[i]) {
                    assert(e == s[i]);
                    assert(s.update(i, e) =~= s);
                }
            }
        },
        None => {
            lemma_miejsce_zakres(s, r.basket_id);
            lemma_suma_insert(s, miejsce(s, r.basket_id), r);
        },
    }
}

proof fn lemma_scal_wszystkie_rosnie(s: Seq<ZrodloView>, rs: Seq<ZrodloView>)
    ensures
        suma_wag(scal_wszystkie(s, rs)) >= suma_wag(s),
        zmiana(s, rs) ==> suma_wag(scal_wszystkie(s, rs)) > suma_wag(s),
    decreases rs.len(),
{
    if rs.len() > 0 {
        lemma_scal_wszystkie_rosnie(s, rs.drop_last());
        lemma_scal_rosnie(scal_wszystkie(s, rs.drop_last()), rs.last());
    }
}

proof fn lemma_miejsce_na_koncu(s: Seq<ZrodloView>, id: u32)
    requires
        forall|k: int| 0 <= k < s.len() ==> (#[trigger] s[k]).basket_id < id,
    ensures
        miejsce(s, id) == s.len(),
    decreases s.len(),
{
    if s.len() > 0 {
        let t = s.drop_first();
        assert forall|k: int| 0 <= k < t.len() implies (#[trigger] t[k]).basket_id < id by {
            assert(t[k] == s[k + 1]);
        }
        lemma_miejsce_na_koncu(t, id);
    }
}

proof fn lemma_nastepny_rosnie(n: u32, rs: Seq<ZrodloView>)
    ensures
        nastepny(n, rs) >= n,
        forall|k: int| 0 <= k < rs.len() ==> nastepny(n, rs) >= (#[trigger] rs[k]).basket_id
            && (rs[k].basket_id < u32::MAX ==> nastepny(n, rs) >= rs[k].basket_id + 1),
    decreases rs.len(),
{
    if rs.len() > 0 {
        lemma_nastepny_rosnie(n, rs.drop_last());
        assert forall|k: int| 0 <= k < rs.len() implies nastepny(n, rs) >= (#[trigger] rs[k]).basket_id
            && (rs[k].basket_id < u32::MAX ==> nastepny(n, rs) >= rs[k].basket_id + 1) by {
            if k < rs.len() - 1 {
                assert(rs[k] == rs.drop_last()[k]);
            }
        }
    }
}

/// Restoring an export into an empty memory gives back exactly the exported
/// records, in their order, and raises the next basket number past each of
/// them (saturating at the largest number).
pub proof fn eksport_wraca_po_przywroceniu(rs: Seq<ZrodloView>, n: u32)
    requires
        rosnaco(rs),
    ensures
        scal_wszystkie(Seq::<ZrodloView>::empty(), rs) == rs,
        forall|k: int| 0 <= k < rs.len() ==> nastepny(n, rs) >= (#[trigger] rs[k]).basket_id
            && (rs[k].basket_id < u32::MAX ==> nastepny(n, rs) >= rs[k].basket_id + 1),
{
    lemma_nastepny_rosnie(n, rs);
    lemma_scal_puste(rs);
}

proof fn lemma_scal_puste(rs: Seq<ZrodloView>)
    requires
        rosnaco(rs),
    ensures
        scal_wszystkie(Seq::<ZrodloView>::empty(), rs) == rs,
    decreases rs.len(),
{
    if rs.len() > 0 {
        let p = rs.drop_last();
        let x = rs.last();
        assert(rosnaco(p)) by {
            assert forall|i: int, j: int| 0 <= i < j < p.len() implies (#[trigger] p[i]).basket_id < (#[trigger] p[j]).basket_id by {
                assert(p[i] == rs[i] && p[j] == rs[j]);
            }
        }
        lemma_scal_puste(p);
        assert forall|k: int| 0 <= k < p.len() implies (#[trigger] p[k]).basket_id < x.basket_id by {
            assert(p[k] == rs[k]);
            assert(rs[k].basket_id < rs[rs.len() - 1].basket_id);
        }
        assert(!(exists|i: int| 0 <= i < p.len() && (#[trigger] p[i]).basket_id == x.basket_id));
        assert(pozycja(p, x.basket_id) is None);
        lemma_miejsce_na_koncu(p, x.basket_id);
        assert(p.insert(p.len() as int, x) =~= rs);
    }
}

/// A restore reassigns the revision only when the exported records
/// changed: merging only adds records, withdrawal times and aliases, so a
/// batch in which some merge changed the memory leaves a memory different
/// from the one it started from.
pub proof fn rewizja_tylko_przy_zmianie(s: Seq<ZrodloView>, rs: Seq<ZrodloView>)
    ensures
        zmiana(s, rs) ==> scal_wszystkie(s, rs) != s,
{
    lemma_scal_wszystkie_rosnie(s, rs);
}

/// The message map as a map: later entries win.
pub open spec fn mapa(v: Seq<MsgBasket>) -> Map<(SourceKey, i64), u32>
    decreases v.len(),
{
    if v.len() == 0 {
        Map::empty()
    } else {
        mapa(v.drop_last()).insert((v.last().source, v.last().msg_id), v.last().basket_id)
    }
}

/// Message keys occur once.
pub open spec fn klucze_jedyne(v: Seq<MsgBasket>) -> bool {
    forall|i: int, j: int| 0 <= i < j < v.len() ==> ((#[trigger] v[i]).source, v[i].msg_id) != ((#[trigger] v[j]).source, v[j].msg_id)
}

/// The messages of one record mapped to its basket: the message, then its aliases.
pub open spec fn wpisz_aliasy(m: Map<(SourceKey, i64), u32>, r: ZrodloView, n: int) -> Map<(SourceKey, i64), u32>
    decreases n,
{
    if n <= 0 {
        m.insert((r.source, r.msg_id), r.basket_id)
    } else {
        wpisz_aliasy(m, r, n - 1).insert((r.source, r.aliases[n - 1]), r.basket_id)
    }
}

pub open spec fn wpisz(m: Map<(SourceKey, i64), u32>, r: ZrodloView) -> Map<(SourceKey, i64), u32> {
    wpisz_aliasy(m, r, r.aliases.len() as int)
}

pub open spec fn wpisz_wszystkie(m: Map<(SourceKey, i64), u32>, rs: Seq<ZrodloView>) -> Map<(SourceKey, i64), u32>
    decreases rs.len(),
{
    if rs.len() == 0 {
        m
    } else {
        wpisz(wpisz_wszystkie(m, rs.drop_last()), rs.last())
    }
}

/// The next basket number after seeing the records.
pub open spec fn nastepny(n: u32, rs: Seq<ZrodloView>) -> u32
    decreases rs.len(),
{
    if rs.len() == 0 {
        n
    } else {
        let p = nastepny(n, rs.drop_last());
        let c = if rs.last().basket_id == u32::MAX { u32::MAX } else { (rs.last().basket_id + 1) as u32 };
        if c > p { c } else { p }
    }
}

/// The withdrawal tombstone a basket carries after its source was withdrawn.
pub open spec fn nagrobek(e: Option<EntryEditState>, ts: i64) -> Option<EntryEditState> {
    match e {
        Some(st) => Some(EntryEditState {
            cancelled_by_source_ts: if st.cancelled_by_source_ts is Some { st.cancelled_by_source_ts } else { Some(ts) },
            ..st
        }),
        None => Some(EntryEditState { schema_version: 1, revision: 0, applied_ts: ts, cancelled_by_source_ts: Some(ts) }),
    }
}

/// The entry-edit state of a basket after the withdrawals of the memory are
/// carried over to it.
pub open spec fn po_synchronizacji(s: Seq<ZrodloView>, b: Basket) -> Option<EntryEditState> {
    match pozycja(s, b.id) {
        Some(i) => match s[i].cancelled_ts {
            Some(ts) => nagrobek(b.entry_edit_state, ts),
            None => b.entry_edit_state,
        },
        None => b.entry_edit_state,
    }
}

/// Everything of a basket but its entry-edit state.
pub open spec fn koszyk_poza_nagrobkiem(a: Basket, b: Basket) -> bool {
    &&& a.id == b.id && a.rearms == b.rearms && a.last_rearm_ts == b.last_rearm_ts
    &&& a.source == b.source && a.msg_id == b.msg_id && a.msg_aliases@ == b.msg_aliases@
    &&& a.is_limit == b.is_limit && a.is_stop == b.is_stop
}

proof fn lemma_pozycja(s: Seq<ZrodloView>, id: u32, i: int)
    requires
        rosnaco(s),
        0 <= i < s.len(),
        s[i].basket_id == id,
    ensures
        pozycja(s, id) == Some(i),
{
    let c = choose|c: int| 0 <= c < s.len() && (#[trigger] s[c]).basket_id == id;
    if c < i {
        assert(s[c].basket_id < s[i].basket_id);
    } else if c > i {
        assert(s[i].basket_id < s[c].basket_id);
    }
}

proof fn lemma_miejsce(s: Seq<ZrodloView>, id: u32, k: int)
    requires
        rosnaco(s),
        0 <= k <= s.len(),
        forall|j: int| 0 <= j < k ==> (#[trigger] s[j]).basket_id < id,
        k < s.len() ==> s[k].basket_id >= id,
    ensures
        miejsce(s, id) == k,
    decreases k,
{
    if k > 0 {
        assert(s.len() > 0);
        assert(s[0].basket_id < id);
        let t = s.drop_first();
        assert forall|j: int| 0 <= j < k - 1 implies (#[trigger] t[j]).basket_id < id by {
            assert(t[j] == s[j + 1]);
        }
        lemma_miejsce(t, id, k - 1);
    }
}

proof fn lemma_dopisz_krok(a: Seq<i64>, b: Seq<i64>, k: int)
    requires
        0 <= k < b.len(),
    ensures
        dopisz(a, b.take(k + 1)) == if dopisz(a, b.take(k)).contains(b[k]) {
            dopisz(a, b.take(k))
        } else {
            dopisz(a, b.take(k)).push(b[k])
        },
{
    assert(b.take(k + 1).drop_last() =~= b.take(k));
}

impl Engine {
    /// Internal consistency of the source memory: records ordered by basket
    /// number, one per basket, and message keys mapped once.
    pub open spec fn ledger_wf(self) -> bool {
        &&& rosnaco(zrodla(self.pending_sources@))
        &&& klucze_jedyne(self.msg_to_basket@)
    }

    /// A fresh ledger with no baskets and no remembered sources.
    pub fn new(explicit_pending_until_cancel: bool) -> (r: Engine)
        ensures
            r.ledger_wf(),
            r.baskets@.len() == 0,
            r.rearm_reconcile.state.batches@.len() == 0,
            r.rearm_reconcile.building is None,
            r.rearm_reconcile.revision == 0,
            !r.obce_rearm_entry_hold,
            r.explicit_pending_until_cancel == explicit_pending_until_cancel,
            r.pending_sources@.len() == 0,
            r.msg_to_basket@.len() == 0,
            r.next_basket_id == 1,
            r.pending_source_revision == 0,
    {
        Engine {
            baskets: Vec::new(),
            rearm_reconcile: crate::rearm_reconcile::RearmReconcile {
                state: crate::rearm_reconcile::RearmReconcileState { batches: Vec::new() },
                building: None,
                revision: 0,
            },
            obce_rearm_entry_hold: false,
            explicit_pending_until_cancel,
            pending_sources: Vec::new(),
            msg_to_basket: Vec::new(),
            next_basket_id: 1,
            pending_source_revision: 0,
        }
    }

    /// O(1) invalidation token for the persistence cache: every change of the
    /// source memory advances it.
    pub fn pending_source_memory_revision(&self) -> (r: u64)
        ensures
            r == self.pending_source_revision,
    {
        self.pending_source_revision
    }

    /// The source memory, ordered by basket number.
    pub fn export_pending_source_memory(&self) -> (r: Vec<PendingSourceRecord>)
        ensures
            zrodla(r@) == zrodla(self.pending_sources@),
    {
        let mut r: Vec<PendingSourceRecord> = Vec::new();
        let mut k: usize = 0;
        while k < self.pending_sources.len()
            invariant
                k <= self.pending_sources@.len(),
                r@.len() == k,
                forall|j: int| 0 <= j < k ==> (#[trigger] r@[j])@ == self.pending_sources@[j]@,
            decreases self.pending_sources@.len() - k,
        {
            r.push(self.pending_sources[k].klon());
            k = k + 1;
        }
        assert(zrodla(r@) =~= zrodla(self.pending_sources@));
        r
    }

    fn pozycja_zrodla(&self, id: u32) -> (r: Option<usize>)
        requires
            rosnaco(zrodla(self.pending_sources@)),
        ensures
            match r {
                Some(i) => i < self.pending_sources@.len() && pozycja(zrodla(self.pending_sources@), id) == Some(i as int),
                None => pozycja(zrodla(self.pending_sources@), id) is None,
            },
    {
        let mut k: usize = 0;
        while k < self.pending_sources.len()
            invariant
                k <= self.pending_sources@.len(),
                rosnaco(zrodla(self.pending_sources@)),
                forall|j: int| 0 <= j < k ==> (#[trigger] self.pending_sources@[j]).basket_id != id,
            decreases self.pending_sources@.len() - k,
        {
            if self.pending_sources[k].basket_id == id {
                proof {
                    lemma_pozycja(zrodla(self.pending_sources@), id, k as int);
                }
                return Some(k);
            }
            k = k + 1;
        }
        proof {
            let s = zrodla(self.pending_sources@);
            assert forall|j: int| 0 <= j < s.len() implies (#[trigger] s[j]).basket_id != id by {
                assert(s[j] == self.pending_sources@[j]@);
            }
        }
        None
    }

    fn miejsce_zrodla(&self, id: u32) -> (r: usize)
        requires
            rosnaco(zrodla(self.pending_sources@)),
        ensures
            r == miejsce(zrodla(self.pending_sources@), id),
            r <= self.pending_sources@.len(),
    {
        let mut k: usize = 0;
        while k < self.pending_sources.len() && self.pending_sources[k].basket_id < id
            invariant
                k <= self.pending_sources@.len(),
                forall|j: int| 0 <= j < k ==> (#[trigger] self.pending_sources@[j]).basket_id < id,
            decreases self.pending_sources@.len() - k,
        {
            k = k + 1;
        }
        proof {
            let s = zrodla(self.pending_sources@);
            assert forall|j: int| 0 <= j < k implies (#[trigger] s[j]).basket_id < id by {
                assert(s[j] == self.pending_sources@[j]@);
            }
            lemma_miejsce(s, id, k as int);
        }
        k
    }

    /// Maps a message key to a basket, replacing an earlier mapping of the key.
    fn wpisz_wiadomosc(&mut self, source: SourceKey, msg_id: i64, basket_id: u32)
        requires
            klucze_jedyne(old(self).msg_to_basket@),
        ensures
            klucze_jedyne(final(self).msg_to_basket@),
            mapa(final(self).msg_to_basket@) == mapa(old(self).msg_to_basket@).insert((source, msg_id), basket_id),
            final(self).pending_sources@ == old(self).pending_sources@,
            final(self).baskets@ == old(self).baskets@,
            final(self).next_basket_id == old(self).next_basket_id,
            final(self).pending_source_revision == old(self).pending_source_revision,
            final(self).rearm_reconcile == old(self).rearm_reconcile,
            final(self).obce_rearm_entry_hold == old(self).obce_rearm_entry_hold,
            final(self).explicit_pending_until_cancel == old(self).explicit_pending_until_cancel,
    {
        let ghost v0 = self.msg_to_basket@;
        let mut k: usize = 0;
        while k < self.msg_to_basket.len()
            invariant
                k <= self.msg_to_basket@.len(),
                *self == *old(self),
                v0 == old(self).msg_to_basket@,
                klucze_jedyne(v0),
                forall|j: int| 0 <= j < k ==> ((#[trigger] self.msg_to_basket@[j]).source, self.msg_to_basket@[j].msg_id) != (source, msg_id),
            decreases self.msg_to_basket@.len() - k,
        {
            if self.msg_to_basket[k].source == source && self.msg_to_basket[k].msg_id == msg_id {
                let e = MsgBasket { source, msg_id, basket_id };
                self.msg_to_basket.set(k, e);
                proof {
                    lemma_mapa_podmiana(v0, k as int, e);
                }
                return;
            }
            k = k + 1;
        }
        self.msg_to_basket.push(MsgBasket { source, msg_id, basket_id });
        proof {
            assert(self.msg_to_basket@.drop_last() =~= v0);
            assert forall|i: int, j: int| 0 <= i < j < self.msg_to_basket@.len() implies
                ((#[trigger] self.msg_to_basket@[i]).source, self.msg_to_basket@[i].msg_id)
                != ((#[trigger] self.msg_to_basket@[j]).source, self.msg_to_basket@[j].msg_id) by {
                if j == self.msg_to_basket@.len() - 1 {
                    assert(self.msg_to_basket@[i] == v0[i]);
                }
            }
        }
    }
}

proof fn lemma_mapa_podmiana(v: Seq<MsgBasket>, k: int, e: MsgBasket)
    requires
        klucze_jedyne(v),
        0 <= k < v.len(),
        (v[k].source, v[k].msg_id) == (e.source, e.msg_id),
    ensures
        klucze_jedyne(v.update(k, e)),
        mapa(v.update(k, e)) == mapa(v).insert((e.source, e.msg_id), e.basket_id),
    decreases v.len(),
{
    let w = v.update(k, e);
    if k == v.len() - 1 {
        assert(w.drop_last() =~= v.drop_last());
        assert(mapa(w) =~= mapa(v).insert((e.source, e.msg_id), e.basket_id));
    } else {
        assert(w.drop_last() =~= v.drop_last().update(k, e));
        assert(klucze_jedyne(v.drop_last()));
        lemma_mapa_podmiana(v.drop_last(), k, e);
        assert(mapa(w) =~= mapa(v).insert((e.source, e.msg_id), e.basket_id));
    }
}

fn zawiera_alias(v: &Vec<i64>, x: i64) -> (r: bool)
    ensures
        r == v@.contains(x),
{
    let mut k: usize = 0;
    while k < v.len()
        invariant
            k <= v@.len(),
            forall|j: int| 0 <= j < k ==> v@[j] != x,
        decreases v@.len() - k,
    {
        if v[k] == x {
            return true;
        }
        k = k + 1;
    }
    false
}

impl Engine {
    /// Merges one record into the source memory (see `scal`); tells whether
    /// the memory changed.
    fn scal_rekord(&mut self, r: &PendingSourceRecord) -> (zm: bool)
        requires
            rosnaco(zrodla(old(self).pending_sources@)),
        ensures
            rosnaco(zrodla(final(self).pending_sources@)),
            zrodla(final(self).pending_sources@) == scal(zrodla(old(self).pending_sources@), r@),
            zm == (scal(zrodla(old(self).pending_sources@), r@) != zrodla(old(self).pending_sources@)),
            final(self).msg_to_basket@ == old(self).msg_to_basket@,
            final(self).baskets@ == old(self).baskets@,
            final(self).next_basket_id == old(self).next_basket_id,
            final(self).pending_source_revision == old(self).pending_source_revision,
            final(self).rearm_reconcile == old(self).rearm_reconcile,
            final(self).obce_rearm_entry_hold == old(self).obce_rearm_entry_hold,
            final(self).explicit_pending_until_cancel == old(self).explicit_pending_until_cancel,
    {
        let ghost s0 = zrodla(self.pending_sources@);
        match self.pozycja_zrodla(r.basket_id) {
            None => {
                let m = self.miejsce_zrodla(r.basket_id);
                let nowy = r.klon();
                self.pending_sources.insert(m, nowy);
                proof {
                    assert(zrodla(self.pending_sources@) =~= s0.insert(m as int, r@));
                    let t = zrodla(self.pending_sources@);
                    assert forall|a: int, b: int| 0 <= a < b < t.len() implies (#[trigger] t[a]).basket_id < (#[trigger] t[b]).basket_id by {
                        lemma_miejsce_granice(s0, r.basket_id, m as int);
                        if a < m && b > m {
                            assert(s0[a].basket_id < r.basket_id);
                            assert(s0[b - 1].basket_id >= r.basket_id);
                            assert(s0[b - 1].basket_id != r.basket_id);
                        } else if a == m {
                            assert(s0[b - 1].basket_id >= r.basket_id);
                            assert(s0[b - 1].basket_id != r.basket_id);
                        } else if b == m {
                            assert(s0[a].basket_id < r.basket_id);
                        }
                    }
                    assert(t.len() == s0.len() + 1);
                }
                true
            },
            Some(i) => {
                if self.pending_sources[i].source != r.source || self.pending_sources[i].msg_id != r.msg_id {
                    return false;
                }
                let przed = self.pending_sources[i].klon();
                if self.pending_sources[i].cancelled_ts.is_none() {
                    self.pending_sources[i].cancelled_ts = r.cancelled_ts;
                }
                let ghost a0 = przed.aliases@;
                let mut k: usize = 0;
                assert(r.aliases@.take(0) =~= Seq::<i64>::empty());
                while k < r.aliases.len()
                    invariant
                        k <= r.aliases@.len(),
                        i < self.pending_sources@.len(),
                        self.pending_sources@.len() == s0.len(),
                        forall|j: int| 0 <= j < s0.len() && j != i ==> (#[trigger] self.pending_sources@[j])@ == s0[j],
                        self.pending_sources@[i as int].aliases@ == dopisz(a0, r.aliases@.take(k as int)),
                        self.pending_sources@[i as int].source == s0[i as int].source,
                        self.pending_sources@[i as int].msg_id == s0[i as int].msg_id,
                        self.pending_sources@[i as int].basket_id == s0[i as int].basket_id,
                        self.pending_sources@[i as int].cancelled_ts == if s0[i as int].cancelled_ts is Some {
                            s0[i as int].cancelled_ts
                        } else {
                            r.cancelled_ts
                        },
                        self.msg_to_basket@ == old(self).msg_to_basket@,
                        self.baskets@ == old(self).baskets@,
                        self.next_basket_id == old(self).next_basket_id,
                        self.pending_source_revision == old(self).pending_source_revision,
                        self.rearm_reconcile == old(self).rearm_reconcile,
                        self.obce_rearm_entry_hold == old(self).obce_rearm_entry_hold,
                        self.explicit_pending_until_cancel == old(self).explicit_pending_until_cancel,
                    decreases r.aliases@.len() - k,
                {
                    proof {
                        lemma_dopisz_krok(a0, r.aliases@, k as int);
                    }
                    let a = r.aliases[k];
                    if !zawiera_alias(&self.pending_sources[i].aliases, a) {
                        self.pending_sources[i].aliases.push(a);
                    }
                    k = k + 1;
                }
                proof {
                    assert(r.aliases@.take(k as int) =~= r.aliases@);
                    assert(zrodla(self.pending_sources@) =~= scal(s0, r@));
                }
                let zm = !przed.rowny(&self.pending_sources[i]);
                proof {
                    let t = scal(s0, r@);
                    if !zm {
                        assert(t =~= s0);
                    } else {
                        assert(t[i as int] != s0[i as int]);
                    }
                }
                zm
            },
        }
    }
}

proof fn lemma_miejsce_granice(s: Seq<ZrodloView>, id: u32, m: int)
    requires
        rosnaco(s),
        miejsce(s, id) == m,
        pozycja(s, id) is None,
    ensures
        0 <= m <= s.len(),
        forall|j: int| 0 <= j < m ==> (#[trigger] s[j]).basket_id < id,
        forall|j: int| m <= j < s.len() ==> (#[trigger] s[j]).basket_id > id,
    decreases s.len(),
{
    if s.len() > 0 {
        if s[0].basket_id >= id {
            assert(s[0].basket_id != id);
            assert forall|j: int| 0 <= j < s.len() implies (#[trigger] s[j]).basket_id > id by {
                if j > 0 {
                    assert(s[0].basket_id < s[j].basket_id);
                }
            }
        } else {
            let t = s.drop_first();
            assert(rosnaco(t)) by {
                assert forall|a: int, b: int| 0 <= a < b < t.len() implies (#[trigger] t[a]).basket_id < (#[trigger] t[b]).basket_id by {
                    assert(t[a] == s[a + 1]);
                    assert(t[b] == s[b + 1]);
                }
            }
            assert(pozycja(t, id) is None) by {
                if exists|i: int| 0 <= i < t.len() && (#[trigger] t[i]).basket_id == id {
                    let i = choose|i: int| 0 <= i < t.len() && (#[trigger] t[i]).basket_id == id;
                    assert(s[i + 1].basket_id == id);
                }
            }
            lemma_miejsce_granice(t, id, m - 1);
            assert forall|j: int| 0 <= j < m implies (#[trigger] s[j]).basket_id < id by {
                if j > 0 {
                    assert(s[j] == t[j - 1]);
                }
            }
            assert forall|j: int| m <= j < s.len() implies (#[trigger] s[j]).basket_id > id by {
                assert(s[j] == t[j - 1]);
            }
        }
    }
}

impl Engine {
    /// Carries every withdrawal of the source memory over to its basket's
    /// entry-edit state, keeping a withdrawal time already recorded there.
    pub fn sync_source_tombstones(&mut self)
        requires
            rosnaco(zrodla(old(self).pending_sources@)),
        ensures
            final(self).baskets@.len() == old(self).baskets@.len(),
            forall|i: int| 0 <= i < old(self).baskets@.len() ==> {
                &&& koszyk_poza_nagrobkiem(#[trigger] final(self).baskets@[i], old(self).baskets@[i])
                &&& final(self).baskets@[i].entry_edit_state == po_synchronizacji(zrodla(old(self).pending_sources@), old(self).baskets@[i])
            },
            final(self).pending_sources@ == old(self).pending_sources@,
            final(self).msg_to_basket@ == old(self).msg_to_basket@,
            final(self).next_basket_id == old(self).next_basket_id,
            final(self).pending_source_revision == old(self).pending_source_revision,
            final(self).rearm_reconcile == old(self).rearm_reconcile,
            final(self).obce_rearm_entry_hold == old(self).obce_rearm_entry_hold,
            final(self).explicit_pending_until_cancel == old(self).explicit_pending_until_cancel,
    {
        let ghost b0 = self.baskets@;
        let mut k: usize = 0;
        while k < self.baskets.len()
            invariant
                k <= self.baskets@.len(),
                self.baskets@.len() == b0.len(),
                b0 == old(self).baskets@,
                rosnaco(zrodla(self.pending_sources@)),
                forall|i: int| 0 <= i < b0.len() ==> koszyk_poza_nagrobkiem(#[trigger] self.baskets@[i], b0[i]),
                forall|i: int| 0 <= i < k ==> (#[trigger] self.baskets@[i]).entry_edit_state
                    == po_synchronizacji(zrodla(self.pending_sources@), b0[i]),
                forall|i: int| k <= i < b0.len() ==> (#[trigger] self.baskets@[i]).entry_edit_state == b0[i].entry_edit_state,
                self.pending_sources@ == old(self).pending_sources@,
                self.msg_to_basket@ == old(self).msg_to_basket@,
                self.next_basket_id == old(self).next_basket_id,
                self.pending_source_revision == old(self).pending_source_revision,
                self.rearm_reconcile == old(self).rearm_reconcile,
                self.obce_rearm_entry_hold == old(self).obce_rearm_entry_hold,
                self.explicit_pending_until_cancel == old(self).explicit_pending_until_cancel,
            decreases b0.len() - k,
        {
            let id = self.baskets[k].id;
            match self.pozycja_zrodla(id) {
                Some(p) => {
                    match self.pending_sources[p].cancelled_ts {
                        Some(ts) => {
                            let nowy = match self.baskets[k].entry_edit_state {
                                Some(st) => EntryEditState {
                                    cancelled_by_source_ts: match st.cancelled_by_source_ts {
                                        Some(t) => Some(t),
                                        None => Some(ts),
                                    },
                                    ..st
                                },
                                None => EntryEditState {
                                    schema_version: 1,
                                    revision: 0,
                                    applied_ts: ts,
                                    cancelled_by_source_ts: Some(ts),
                                },
                            };
                            self.baskets[k].entry_edit_state = Some(nowy);
                        },
                        None => {},
                    }
                },
                None => {},
            }
            k = k + 1;
        }
    }

    /// Restores source records (from a snapshot or from a live basket):
    /// merges each into the memory, maps its message and aliases to the
    /// basket, raises the next basket number past it, advances the revision
    /// when anything changed, and carries withdrawals over to the baskets.
    pub fn restore_pending_source_memory(&mut self, records: &[PendingSourceRecord], nowa_rewizja: impl FnOnce() -> u64)
        requires
            old(self).ledger_wf(),
            nowa_rewizja.requires(()),
        ensures
            final(self).ledger_wf(),
            zrodla(final(self).pending_sources@) == scal_wszystkie(zrodla(old(self).pending_sources@), zrodla(records@)),
            mapa(final(self).msg_to_basket@) == wpisz_wszystkie(mapa(old(self).msg_to_basket@), zrodla(records@)),
            final(self).next_basket_id == nastepny(old(self).next_basket_id, zrodla(records@)),
            zmiana(zrodla(old(self).pending_sources@), zrodla(records@))
                ==> nowa_rewizja.ensures((), final(self).pending_source_revision),
            !zmiana(zrodla(old(self).pending_sources@), zrodla(records@))
                ==> final(self).pending_source_revision == old(self).pending_source_revision,
            final(self).pending_source_revision != old(self).pending_source_revision
                ==> zrodla(final(self).pending_sources@) != zrodla(old(self).pending_sources@),
            final(self).baskets@.len() == old(self).baskets@.len(),
            forall|i: int| 0 <= i < old(self).baskets@.len() ==> {
                &&& koszyk_poza_nagrobkiem(#[trigger] final(self).baskets@[i], old(self).baskets@[i])
                &&& final(self).baskets@[i].entry_edit_state == po_synchronizacji(
                    zrodla(final(self).pending_sources@),
                    old(self).baskets@[i],
                )
            },
            final(self).rearm_reconcile == old(self).rearm_reconcile,
            final(self).obce_rearm_entry_hold == old(self).obce_rearm_entry_hold,
            final(self).explicit_pending_until_cancel == old(self).explicit_pending_until_cancel,
    {
        let ghost s0 = zrodla(self.pending_sources@);
        let ghost m0 = mapa(self.msg_to_basket@);
        let ghost rs = zrodla(records@);
        let mut changed = false;
        let mut k: usize = 0;
        while k < records.len()
            invariant
                k <= records@.len(),
                rs == zrodla(records@),
                self.ledger_wf(),
                zrodla(self.pending_sources@) == scal_wszystkie(s0, rs.take(k as int)),
                mapa(self.msg_to_basket@) == wpisz_wszystkie(m0, rs.take(k as int)),
                self.next_basket_id == nastepny(old(self).next_basket_id, rs.take(k as int)),
                changed == zmiana(s0, rs.take(k as int)),
                self.baskets@ == old(self).baskets@,
                self.pending_source_revision == old(self).pending_source_revision,
                self.rearm_reconcile == old(self).rearm_reconcile,
                self.obce_rearm_entry_hold == old(self).obce_rearm_entry_hold,
                self.explicit_pending_until_cancel == old(self).explicit_pending_until_cancel,
            decreases records@.len() - k,
        {
            let r = &records[k];
            proof {
                assert(rs.take(k + 1).drop_last() =~= rs.take(k as int));
                assert(rs.take(k + 1).last() == r@);
            }
            let ghost mk = mapa(self.msg_to_basket@);
            self.wpisz_wiadomosc(r.source, r.msg_id, r.basket_id);
            let mut a: usize = 0;
            while a < r.aliases.len()
                invariant
                    a <= r.aliases@.len(),
                    r == records@[k as int],
                    klucze_jedyne(self.msg_to_basket@),
                    mapa(self.msg_to_basket@) == wpisz_aliasy(mk, r@, a as int),
                    rosnaco(zrodla(self.pending_sources@)),
                    zrodla(self.pending_sources@) == scal_wszystkie(s0, rs.take(k as int)),
                    self.next_basket_id == nastepny(old(self).next_basket_id, rs.take(k as int)),
                    self.baskets@ == old(self).baskets@,
                    self.pending_source_revision == old(self).pending_source_revision,
                    self.rearm_reconcile == old(self).rearm_reconcile,
                    self.obce_rearm_entry_hold == old(self).obce_rearm_entry_hold,
                    self.explicit_pending_until_cancel == old(self).explicit_pending_until_cancel,
                decreases r.aliases@.len() - a,
            {
                self.wpisz_wiadomosc(r.source, r.aliases[a], r.basket_id);
                a = a + 1;
            }
            let nastepny_nr = r.basket_id.saturating_add(1);
            if nastepny_nr > self.next_basket_id {
                self.next_basket_id = nastepny_nr;
            }
            let zm = self.scal_rekord(r);
            if zm {
                changed = true;
            }
            k = k + 1;
        }
        proof {
            assert(rs.take(k as int) =~= rs);
            rewizja_tylko_przy_zmianie(s0, rs);
        }
        if changed {
            self.pending_source_revision = nowa_rewizja();
        }
        self.sync_source_tombstones();
    }
}

/// Some of the first `n` pending orders belongs to basket `x`.
pub open spec fn ma_zlecenie(zlecenia: Seq<Option<u32>>, n: int, x: u32) -> bool {
    exists|j: int| 0 <= j < n && #[trigger] zlecenia[j] == Some(x)
}

proof fn lemma_ma_zlecenie_krok(zlecenia: Seq<Option<u32>>, k: int, x: u32)
    requires
        0 <= k < zlecenia.len(),
    ensures
        ma_zlecenie(zlecenia, k + 1, x) <==> (ma_zlecenie(zlecenia, k, x) || zlecenia[k] == Some(x)),
{
    if ma_zlecenie(zlecenia, k + 1, x) && zlecenia[k] != Some(x) {
        let j = choose|j: int| 0 <= j < k + 1 && #[trigger] zlecenia[j] == Some(x);
        assert(j < k);
    }
    if ma_zlecenie(zlecenia, k, x) {
        let j = choose|j: int| 0 <= j < k && #[trigger] zlecenia[j] == Some(x);
        assert(0 <= j < k + 1);
    }
}

/// Whether a basket is a pending entry that must live until its source cancels it.
pub open spec fn jawne_zrodlo(e: Engine, id: u32) -> bool {
    pozycja(zrodla(e.pending_sources@), id) is Some || (e.explicit_pending_until_cancel
        && (crate::rearm_reconcile::basket_index(e.baskets@, id) matches Some(i)
            && (e.baskets@[i].is_limit || e.baskets@[i].is_stop)))
}

/// Whether the source withdrew the entry of a basket.
pub open spec fn zrodlo_wycofane(e: Engine, id: u32) -> bool {
    (pozycja(zrodla(e.pending_sources@), id) matches Some(i) && zrodla(e.pending_sources@)[i].cancelled_ts is Some)
        || (crate::rearm_reconcile::basket_index(e.baskets@, id) matches Some(i)
            && (e.baskets@[i].entry_edit_state matches Some(st) && st.cancelled_by_source_ts is Some))
}

impl Engine {
    pub fn explicit_pending_source(&self, id: u32) -> (r: bool)
        requires
            self.ledger_wf(),
        ensures
            r == jawne_zrodlo(*self, id),
    {
        if self.pozycja_zrodla(id).is_some() {
            return true;
        }
        if !self.explicit_pending_until_cancel {
            return false;
        }
        match self.basket_nr(id) {
            Some(i) => self.baskets[i].is_limit || self.baskets[i].is_stop,
            None => false,
        }
    }

    /// The baskets whose pending orders must be cancelled again: every basket
    /// with a pending order at the broker (given by the basket number of each
    /// pending order) whose source withdrew it, in increasing order, once
    /// each; nothing while the memory holds no source. The caller cancels
    /// their orders at the broker.
    pub fn retry_source_cancellations(&self, zlecenia: &[Option<u32>]) -> (r: Vec<u32>)
        requires
            self.ledger_wf(),
        ensures
            self.pending_sources@.len() == 0 ==> r@.len() == 0,
            self.pending_sources@.len() > 0 ==> forall|x: u32| r@.contains(x) <==> (zrodlo_wycofane(*self, x)
                && ma_zlecenie(zlecenia@, zlecenia@.len() as int, x)),
            forall|a: int, b: int| 0 <= a < b < r@.len() ==> (#[trigger] r@[a]) < (#[trigger] r@[b]),
    {
        let mut out: Vec<u32> = Vec::new();
        if self.pending_sources.len() == 0 {
            return out;
        }
        let mut k: usize = 0;
        while k < zlecenia.len()
            invariant
                self.ledger_wf(),
                k <= zlecenia@.len(),
                forall|a: int, b: int| 0 <= a < b < out@.len() ==> (#[trigger] out@[a]) < (#[trigger] out@[b]),
                forall|x: u32| out@.contains(x) <==> (zrodlo_wycofane(*self, x) && ma_zlecenie(zlecenia@, k as int, x)),
            decreases zlecenia@.len() - k,
        {
            let ghost przed_k = out@;
            assert(forall|x: u32| przed_k.contains(x) <==> (zrodlo_wycofane(*self, x) && ma_zlecenie(zlecenia@, k as int, x)));
            match zlecenia[k] {
                Some(x) => {
                    if self.pending_source_cancelled(x) {
                        let mut p: usize = 0;
                        while p < out.len() && out[p] < x
                            invariant
                                p <= out@.len(),
                                forall|q: int| 0 <= q < p ==> (#[trigger] out@[q]) < x,
                            decreases out@.len() - p,
                        {
                            p = p + 1;
                        }
                        if p < out.len() && out[p] == x {
                            assert(przed_k.contains(x)) by {
                                assert(przed_k[p as int] == x);
                            }
                        } else {
                            out.insert(p, x);
                            proof {
                                assert(out@ == przed_k.insert(p as int, x));
                                if p < przed_k.len() {
                                    assert(przed_k[p as int] > x);
                                }
                                assert forall|a: int, b: int| 0 <= a < b < out@.len()
                                    implies (#[trigger] out@[a]) < (#[trigger] out@[b]) by {
                                    if a < p && b > p {
                                        assert(przed_k[b - 1] >= przed_k[p as int]);
                                    } else if a == p && b > p {
                                        assert(przed_k[b - 1] >= przed_k[p as int]);
                                    }
                                }
                                assert forall|y: u32| out@.contains(y) <==> (przed_k.contains(y) || y == x) by {
                                    if out@.contains(y) {
                                        let q = choose|q: int| 0 <= q < out@.len() && out@[q] == y;
                                        if q < p {
                                            assert(przed_k[q] == y);
                                        } else if q > p {
                                            assert(przed_k[q - 1] == y);
                                        }
                                    }
                                    if przed_k.contains(y) {
                                        let q = choose|q: int| 0 <= q < przed_k.len() && przed_k[q] == y;
                                        if q < p {
                                            assert(out@[q] == y);
                                        } else {
                                            assert(out@[q + 1] == y);
                                        }
                                    }
                                    if y == x {
                                        assert(out@[p as int] == x);
                                    }
                                }
                            }
                        }
                    }
                },
                None => {},
            }
            proof {
                assert forall|y: u32| out@.contains(y) <==> (przed_k.contains(y)
                    || (zlecenia@[k as int] == Some(y) && zrodlo_wycofane(*self, y))) by {}
                assert forall|x: u32| out@.contains(x) <==> (zrodlo_wycofane(*self, x)
                    && ma_zlecenie(zlecenia@, k + 1, x)) by {
                    lemma_ma_zlecenie_krok(zlecenia@, k as int, x);
                    assert(przed_k.contains(x) <==> (zrodlo_wycofane(*self, x) && ma_zlecenie(zlecenia@, k as int, x)));
                    assert(out@.contains(x) <==> (przed_k.contains(x)
                        || (zlecenia@[k as int] == Some(x) && zrodlo_wycofane(*self, x))));
                }
            }
            let ghost k0 = k as int;
            k = k + 1;
            proof {
                assert forall|x: u32| out@.contains(x) <==> (zrodlo_wycofane(*self, x)
                    && ma_zlecenie(zlecenia@, k as int, x)) by {
                    assert(k as int == k0 + 1);
                    assert(out@.contains(x) <==> (zrodlo_wycofane(*self, x) && ma_zlecenie(zlecenia@, k0 + 1, x)));
                }
            }
        }
        out
    }

    pub fn pending_source_cancelled(&self, id: u32) -> (r: bool)
        requires
            self.ledger_wf(),
        ensures
            r == zrodlo_wycofane(*self, id),
    {
        match self.pozycja_zrodla(id) {
            Some(p) => {
                if self.pending_sources[p].cancelled_ts.is_some() {
                    return true;
                }
            },
            None => {},
        }
        match self.basket_nr(id) {
            Some(i) => match self.baskets[i].entry_edit_state {
                Some(st) => st.cancelled_by_source_ts.is_some(),
                None => false,
            },
            None => false,
        }
    }

    /// A pending entry is kept while its source wants it and has not withdrawn it.
    pub fn keep_explicit_pending(&self, id: u32) -> (r: bool)
        requires
            self.ledger_wf(),
        ensures
            r == (jawne_zrodlo(*self, id) && !zrodlo_wycofane(*self, id)),
    {
        self.explicit_pending_source(id) && !self.pending_source_cancelled(id)
    }

    /// Remembers another message id of a remembered basket; the basket's own
    /// message and known aliases are not repeated.
    pub fn remember_pending_source_alias(&mut self, id: u32, alias: i64, nowa_rewizja: impl FnOnce() -> u64)
        requires
            old(self).ledger_wf(),
            nowa_rewizja.requires(()),
        ensures
            final(self).ledger_wf(),
            final(self).baskets@ == old(self).baskets@,
            final(self).msg_to_basket@ == old(self).msg_to_basket@,
            final(self).next_basket_id == old(self).next_basket_id,
            final(self).rearm_reconcile == old(self).rearm_reconcile,
            match pozycja(zrodla(old(self).pending_sources@), id) {
                Some(i) if alias != zrodla(old(self).pending_sources@)[i].msg_id
                    && !zrodla(old(self).pending_sources@)[i].aliases.contains(alias) => {
                    &&& zrodla(final(self).pending_sources@) == zrodla(old(self).pending_sources@).update(i,
                        ZrodloView { aliases: zrodla(old(self).pending_sources@)[i].aliases.push(alias), ..zrodla(old(self).pending_sources@)[i] })
                    &&& nowa_rewizja.ensures((), final(self).pending_source_revision)
                },
                _ => zrodla(final(self).pending_sources@) == zrodla(old(self).pending_sources@)
                    && final(self).pending_source_revision == old(self).pending_source_revision,
            },
    {
        let ghost s0 = zrodla(self.pending_sources@);
        let p = match self.pozycja_zrodla(id) {
            Some(p) => p,
            None => {
                return;
            },
        };
        if alias == self.pending_sources[p].msg_id || zawiera_alias(&self.pending_sources[p].aliases, alias) {
            return;
        }
        self.pending_sources[p].aliases.push(alias);
        proof {
            assert(zrodla(self.pending_sources@) =~= s0.update(p as int,
                ZrodloView { aliases: s0[p as int].aliases.push(alias), ..s0[p as int] }));
            let t = zrodla(self.pending_sources@);
            assert forall|a: int, b: int| 0 <= a < b < t.len() implies (#[trigger] t[a]).basket_id < (#[trigger] t[b]).basket_id by {
                assert(s0[a].basket_id < s0[b].basket_id);
            }
        }
        self.pending_source_revision = nowa_rewizja();
    }

    /// Remembers the source of a basket's entry when the basket is already
    /// remembered, is an explicit pending entry, or was withdrawn by its source.
    pub fn remember_pending_source(&mut self, bk: &Basket, nowa_rewizja: impl FnOnce() -> u64)
        requires
            old(self).ledger_wf(),
            nowa_rewizja.requires(()),
        ensures
            final(self).ledger_wf(),
            final(self).rearm_reconcile == old(self).rearm_reconcile,
            ({
                let r = ZrodloView {
                    source: bk.source,
                    msg_id: bk.msg_id,
                    basket_id: bk.id,
                    aliases: bk.msg_aliases@,
                    cancelled_ts: match bk.entry_edit_state {
                        Some(st) => st.cancelled_by_source_ts,
                        None => None,
                    },
                };
                let wanted = pozycja(zrodla(old(self).pending_sources@), bk.id) is Some
                    || (old(self).explicit_pending_until_cancel && (bk.is_limit || bk.is_stop))
                    || (bk.entry_edit_state matches Some(st) && st.cancelled_by_source_ts is Some);
                &&& wanted ==> zrodla(final(self).pending_sources@) == scal(zrodla(old(self).pending_sources@), r)
                &&& wanted ==> mapa(final(self).msg_to_basket@) == wpisz(mapa(old(self).msg_to_basket@), r)
                &&& !wanted ==> zrodla(final(self).pending_sources@) == zrodla(old(self).pending_sources@)
                    && final(self).msg_to_basket@ == old(self).msg_to_basket@
                    && final(self).pending_source_revision == old(self).pending_source_revision
                    && final(self).baskets@ == old(self).baskets@
            }),
    {
        let cancelled = match bk.entry_edit_state {
            Some(st) => st.cancelled_by_source_ts,
            None => None,
        };
        let wanted = self.pozycja_zrodla(bk.id).is_some()
            || (self.explicit_pending_until_cancel && (bk.is_limit || bk.is_stop)) || cancelled.is_some();
        if !wanted {
            return;
        }
        let record = PendingSourceRecord {
            source: bk.source,
            msg_id: bk.msg_id,
            basket_id: bk.id,
            aliases: bk.msg_aliases.clone(),
            cancelled_ts: cancelled,
        };
        let ghost rv = record@;
        assert(rv.aliases == bk.msg_aliases@);
        let v = vec![record];
        proof {
            assert(zrodla(v@) =~= seq![rv]);
            assert(seq![rv].drop_last() =~= Seq::<ZrodloView>::empty());
            assert(seq![rv].last() == rv);
            reveal_with_fuel(scal_wszystkie, 2);
            reveal_with_fuel(wpisz_wszystkie, 2);
            assert(scal_wszystkie(zrodla(self.pending_sources@), seq![rv]) == scal(zrodla(self.pending_sources@), rv));
            assert(wpisz_wszystkie(mapa(self.msg_to_basket@), seq![rv]) == wpisz(mapa(self.msg_to_basket@), rv));
        }
        self.restore_pending_source_memory(v.as_slice(), nowa_rewizja);
    }
}

/// The memory already holds everything a record would add.
pub open spec fn pochloniety(s: Seq<ZrodloView>, r: ZrodloView) -> bool {
    match pozycja(s, r.basket_id) {
        Some(i) => (s[i].source != r.source || s[i].msg_id != r.msg_id) || ((r.cancelled_ts is Some
            ==> s[i].cancelled_ts is Some) && forall|k: int| 0 <= k < r.aliases.len() ==> s[i].aliases.contains(
            #[trigger] r.aliases[k],
        )),
        None => false,
    }
}

proof fn lemma_dopisz(a: Seq<i64>, b: Seq<i64>)
    ensures
        forall|x: i64| a.contains(x) ==> #[trigger] dopisz(a, b).contains(x),
        forall|k: int| 0 <= k < b.len() ==> dopisz(a, b).contains(#[trigger] b[k]),
        forall|x: i64| #[trigger] dopisz(a, b).contains(x) ==> a.contains(x) || b.contains(x),
        (forall|k: int| 0 <= k < b.len() ==> a.contains(#[trigger] b[k])) ==> dopisz(a, b) == a,
    decreases b.len(),
{
    if b.len() > 0 {
        let c = b.drop_last();
        lemma_dopisz(a, c);
        let d = dopisz(a, c);
        assert forall|x: i64| d.contains(x) implies #[trigger] dopisz(a, b).contains(x) by {
            let j = choose|j: int| 0 <= j < d.len() && d[j] == x;
            if !d.contains(b.last()) {
                assert(dopisz(a, b)[j] == x);
            }
        }
        assert forall|k: int| 0 <= k < b.len() implies dopisz(a, b).contains(#[trigger] b[k]) by {
            if k < b.len() - 1 {
                assert(c[k] == b[k]);
                assert(d.contains(c[k]));
            } else {
                if !dopisz(a, c).contains(b.last()) {
                    assert(dopisz(a, b)[dopisz(a, b).len() - 1] == b.last());
                }
            }
        }
        assert forall|x: i64| #[trigger] dopisz(a, b).contains(x) implies a.contains(x) || b.contains(x) by {
            if dopisz(a, c).contains(x) {
                if c.contains(x) {
                    let j = choose|j: int| 0 <= j < c.len() && c[j] == x;
                    assert(b[j] == x);
                }
            } else {
                assert(x == b.last());
                assert(b[b.len() - 1] == x);
            }
        }
        if forall|k: int| 0 <= k < b.len() ==> a.contains(#[trigger] b[k]) {
            assert forall|k: int| 0 <= k < c.len() implies a.contains(#[trigger] c[k]) by {
                assert(c[k] == b[k]);
            }
            assert(a.contains(b[b.len() - 1]));
        }
    }
}

proof fn lemma_rosnaco_scal(s: Seq<ZrodloView>, r: ZrodloView)
    requires
        rosnaco(s),
    ensures
        rosnaco(scal(s, r)),
        forall|j: int| 0 <= j < scal(s, r).len() ==> exists|q: int| 0 <= q < s.len() && s[q].basket_id == (#[trigger] scal(s, r)[j]).basket_id
            || scal(s, r)[j].basket_id == r.basket_id,
{
    match pozycja(s, r.basket_id) {
        Some(i) => {
            assert(0 <= i < s.len() && s[i].basket_id == r.basket_id);
            let t = scal(s, r);
            assert forall|a: int, b: int| 0 <= a < b < t.len() implies (#[trigger] t[a]).basket_id < (#[trigger] t[b]).basket_id by {
                assert(s[a].basket_id < s[b].basket_id);
            }
            assert forall|j: int| 0 <= j < t.len() implies exists|q: int| 0 <= q < s.len() && s[q].basket_id == (#[trigger] t[j]).basket_id
                || t[j].basket_id == r.basket_id by {
                assert(s[j].basket_id == t[j].basket_id);
            }
        },
        None => {
            let m = miejsce(s, r.basket_id);
            lemma_miejsce_granice(s, r.basket_id, m);
            let t = scal(s, r);
            assert(t == s.insert(m, r));
            assert forall|a: int, b: int| 0 <= a < b < t.len() implies (#[trigger] t[a]).basket_id < (#[trigger] t[b]).basket_id by {
                if a < m && b > m {
                    assert(s[a].basket_id < r.basket_id);
                    assert(s[b - 1].basket_id > r.basket_id);
                } else if a == m {
                    assert(s[b - 1].basket_id > r.basket_id);
                } else if b == m {
                    assert(s[a].basket_id < r.basket_id);
                } else if b < m {
                    assert(s[a].basket_id < s[b].basket_id);
                } else {
                    assert(s[a - 1].basket_id < s[b - 1].basket_id);
                }
            }
            assert forall|j: int| 0 <= j < t.len() implies exists|q: int| 0 <= q < s.len() && s[q].basket_id == (#[trigger] t[j]).basket_id
                || t[j].basket_id == r.basket_id by {
                if j < m {
                    assert(s[j].basket_id == t[j].basket_id);
                } else if j > m {
                    assert(s[j - 1].basket_id == t[j].basket_id);
                }
            }
        },
    }
}

/// Finding a record by basket number in ordered records.
proof fn lemma_pozycja_po_scaleniu(s: Seq<ZrodloView>, r: ZrodloView, id: u32)
    requires
        rosnaco(s),
    ensures
        pozycja(s, id) matches Some(i) ==> pozycja(scal(s, r), id) matches Some(j)
            && scal(s, r)[j].source == s[i].source && scal(s, r)[j].msg_id == s[i].msg_id
            && (s[i].cancelled_ts is Some ==> scal(s, r)[j].cancelled_ts is Some)
            && (forall|x: i64| s[i].aliases.contains(x) ==> #[trigger] scal(s, r)[j].aliases.contains(x)),
        id == r.basket_id ==> (pozycja(scal(s, r), id) is Some),
{
    lemma_rosnaco_scal(s, r);
    let t = scal(s, r);
    match pozycja(s, r.basket_id) {
        Some(i) => {
            lemma_dopisz(s[i].aliases, r.aliases);
            if pozycja(s, id) is Some {
                let p = pozycja(s, id).unwrap();
                lemma_pozycja(t, id, p);
            }
            if id == r.basket_id {
                lemma_pozycja(t, id, i);
            }
        },
        None => {
            let m = miejsce(s, r.basket_id);
            lemma_miejsce_granice(s, r.basket_id, m);
            if pozycja(s, id) is Some {
                let p = pozycja(s, id).unwrap();
                if p < m {
                    assert(t[p] == s[p]);
                    lemma_pozycja(t, id, p);
                } else {
                    assert(t[p + 1] == s[p]);
                    lemma_pozycja(t, id, p + 1);
                }
            }
            if id == r.basket_id {
                assert(t[m] == r);
                lemma_pozycja(t, id, m);
            }
        },
    }
}

proof fn lemma_pochloniety_po_scaleniu(s: Seq<ZrodloView>, r: ZrodloView)
    requires
        rosnaco(s),
    ensures
        pochloniety(scal(s, r), r),
{
    lemma_rosnaco_scal(s, r);
    lemma_pozycja_po_scaleniu(s, r, r.basket_id);
    let t = scal(s, r);
    match pozycja(s, r.basket_id) {
        Some(i) => {
            lemma_pozycja(t, r.basket_id, i);
            lemma_dopisz(s[i].aliases, r.aliases);
        },
        None => {
            let m = miejsce(s, r.basket_id);
            lemma_miejsce_granice(s, r.basket_id, m);
            assert(t[m] == r);
            lemma_pozycja(t, r.basket_id, m);
            assert forall|k: int| 0 <= k < r.aliases.len() implies t[m].aliases.contains(#[trigger] r.aliases[k]) by {
                assert(t[m].aliases[k] == r.aliases[k]);
            }
        },
    }
}

proof fn lemma_pochloniety_trwa(s: Seq<ZrodloView>, r: ZrodloView, r2: ZrodloView)
    requires
        rosnaco(s),
        pochloniety(s, r),
    ensures
        pochloniety(scal(s, r2), r),
{
    lemma_pozycja_po_scaleniu(s, r2, r.basket_id);
}

proof fn lemma_pochloniety_stoi(s: Seq<ZrodloView>, r: ZrodloView)
    requires
        rosnaco(s),
        pochloniety(s, r),
    ensures
        scal(s, r) == s,
{
    let i = pozycja(s, r.basket_id).unwrap();
    if s[i].source == r.source && s[i].msg_id == r.msg_id {
        lemma_dopisz(s[i].aliases, r.aliases);
        assert(scal(s, r) =~= s);
    }
}

proof fn lemma_wszystkie_pochloniete(s: Seq<ZrodloView>, rs: Seq<ZrodloView>)
    requires
        rosnaco(s),
    ensures
        rosnaco(scal_wszystkie(s, rs)),
        forall|k: int| 0 <= k < rs.len() ==> pochloniety(scal_wszystkie(s, rs), #[trigger] rs[k]),
    decreases rs.len(),
{
    if rs.len() > 0 {
        let c = rs.drop_last();
        lemma_wszystkie_pochloniete(s, c);
        let t = scal_wszystkie(s, c);
        lemma_rosnaco_scal(t, rs.last());
        lemma_pochloniety_po_scaleniu(t, rs.last());
        assert forall|k: int| 0 <= k < rs.len() implies pochloniety(scal_wszystkie(s, rs), #[trigger] rs[k]) by {
            if k < rs.len() - 1 {
                assert(c[k] == rs[k]);
                lemma_pochloniety_trwa(t, rs[k], rs.last());
            }
        }
    }
}

proof fn lemma_pochloniete_stoja(t: Seq<ZrodloView>, rs: Seq<ZrodloView>)
    requires
        rosnaco(t),
        forall|k: int| 0 <= k < rs.len() ==> pochloniety(t, #[trigger] rs[k]),
    ensures
        scal_wszystkie(t, rs) == t,
        !zmiana(t, rs),
    decreases rs.len(),
{
    if rs.len() > 0 {
        let c = rs.drop_last();
        assert forall|k: int| 0 <= k < c.len() implies pochloniety(t, #[trigger] c[k]) by {
            assert(c[k] == rs[k]);
        }
        lemma_pochloniete_stoja(t, c);
        assert(pochloniety(t, rs[rs.len() - 1]));
        lemma_pochloniety_stoi(t, rs.last());
    }
}

proof fn lemma_aliasy_jako_suma(m: Map<(SourceKey, i64), u32>, r: ZrodloView, n: int)
    ensures
        wpisz_aliasy(m, r, n) == m.union_prefer_right(wpisz_aliasy(Map::empty(), r, n)),
    decreases n,
{
    if n <= 0 {
        assert(wpisz_aliasy(m, r, n) =~= m.union_prefer_right(wpisz_aliasy(Map::empty(), r, n)));
    } else {
        lemma_aliasy_jako_suma(m, r, n - 1);
        assert(wpisz_aliasy(m, r, n) =~= m.union_prefer_right(wpisz_aliasy(Map::empty(), r, n)));
    }
}

proof fn lemma_wpisz_jako_suma(m: Map<(SourceKey, i64), u32>, rs: Seq<ZrodloView>)
    ensures
        wpisz_wszystkie(m, rs) == m.union_prefer_right(wpisz_wszystkie(Map::empty(), rs)),
    decreases rs.len(),
{
    if rs.len() == 0 {
        assert(wpisz_wszystkie(m, rs) =~= m.union_prefer_right(wpisz_wszystkie(Map::empty(), rs)));
    } else {
        let t = rs.drop_last();
        let r = rs.last();
        lemma_wpisz_jako_suma(m, t);
        lemma_aliasy_jako_suma(wpisz_wszystkie(m, t), r, r.aliases.len() as int);
        lemma_aliasy_jako_suma(wpisz_wszystkie(Map::empty(), t), r, r.aliases.len() as int);
        assert(wpisz_wszystkie(m, rs) =~= m.union_prefer_right(wpisz_wszystkie(Map::empty(), rs)));
    }
}

/// Restoring the same source records a second time changes nothing: the
/// memory stays as the first restore left it, the revision does not move,
/// every message maps to the basket the first restore mapped it to, the next
/// basket number stays where the first restore put it, and a basket's
/// withdrawal tombstone is not touched again.
pub proof fn przywrocenie_jest_idempotentne(
    s: Seq<ZrodloView>,
    m: Map<(SourceKey, i64), u32>,
    n: u32,
    b: Basket,
    rs: Seq<ZrodloView>,
)
    requires
        rosnaco(s),
    ensures
        scal_wszystkie(scal_wszystkie(s, rs), rs) == scal_wszystkie(s, rs),
        !zmiana(scal_wszystkie(s, rs), rs),
        wpisz_wszystkie(wpisz_wszystkie(m, rs), rs) == wpisz_wszystkie(m, rs),
        nastepny(nastepny(n, rs), rs) == nastepny(n, rs),
        po_synchronizacji(
            scal_wszystkie(s, rs),
            Basket { entry_edit_state: po_synchronizacji(scal_wszystkie(s, rs), b), ..b },
        ) == po_synchronizacji(scal_wszystkie(s, rs), b),
{
    lemma_wszystkie_pochloniete(s, rs);
    lemma_pochloniete_stoja(scal_wszystkie(s, rs), rs);
    lemma_nastepny_idempotentny(n, rs);
    let w = wpisz_wszystkie(Map::empty(), rs);
    lemma_wpisz_jako_suma(m, rs);
    lemma_wpisz_jako_suma(m.union_prefer_right(w), rs);
    assert(m.union_prefer_right(w).union_prefer_right(w) =~= m.union_prefer_right(w));
}

proof fn lemma_nastepny_monotoniczny(n: u32, rs: Seq<ZrodloView>)
    ensures
        nastepny(n, rs) >= n,
        forall|k: int| 0 <= k < rs.len() ==> nastepny(n, rs) >= (if (#[trigger] rs[k]).basket_id == u32::MAX {
            u32::MAX as int
        } else {
            rs[k].basket_id + 1
        }),
        forall|m: u32| m <= n ==> #[trigger] nastepny(m, rs) <= nastepny(n, rs),
    decreases rs.len(),
{
    if rs.len() > 0 {
        lemma_nastepny_monotoniczny(n, rs.drop_last());
        assert forall|k: int| 0 <= k < rs.len() implies nastepny(n, rs) >= (if (#[trigger] rs[k]).basket_id == u32::MAX {
            u32::MAX as int
        } else {
            rs[k].basket_id + 1
        }) by {
            if k < rs.len() - 1 {
                assert(rs.drop_last()[k] == rs[k]);
            }
        }
        assert forall|m: u32| m <= n implies #[trigger] nastepny(m, rs) <= nastepny(n, rs) by {
            lemma_nastepny_monotoniczny(m, rs.drop_last());
            assert(nastepny(m, rs.drop_last()) <= nastepny(n, rs.drop_last()));
        }
    }
}

proof fn lemma_nastepny_staly(n: u32, rs: Seq<ZrodloView>)
    requires
        forall|k: int| 0 <= k < rs.len() ==> n >= (if (#[trigger] rs[k]).basket_id == u32::MAX {
            u32::MAX as int
        } else {
            rs[k].basket_id + 1
        }),
    ensures
        nastepny(n, rs) == n,
    decreases rs.len(),
{
    if rs.len() > 0 {
        assert forall|k: int| 0 <= k < rs.drop_last().len() implies n >= (if (#[trigger] rs.drop_last()[k]).basket_id == u32::MAX {
            u32::MAX as int
        } else {
            rs.drop_last()[k].basket_id + 1
        }) by {
            assert(rs.drop_last()[k] == rs[k]);
        }
        lemma_nastepny_staly(n, rs.drop_last());
        assert(n >= (if rs[rs.len() - 1].basket_id == u32::MAX { u32::MAX as int } else { rs[rs.len() - 1].basket_id + 1 }));
    }
}

proof fn lemma_nastepny_idempotentny(n: u32, rs: Seq<ZrodloView>)
    ensures
        nastepny(nastepny(n, rs), rs) == nastepny(n, rs),
{
    lemma_nastepny_monotoniczny(n, rs);
    lemma_nastepny_staly(nastepny(n, rs), rs);
}

impl Engine {
    /// The source withdrew a pending entry: its source is remembered (when the
    /// basket qualifies), the first withdrawal time is recorded in the memory
    /// and on the basket, and from then on the entry is never kept. Cancelling
    /// the basket's orders at the broker is the caller's next step.
    pub fn withdraw_pending_source(&mut self, id: u32, ts: i64, nowa_rewizja: impl Fn() -> u64)
        requires
            old(self).ledger_wf(),
            nowa_rewizja.requires(()),
        ensures
            final(self).ledger_wf(),
            !(jawne_zrodlo(*final(self), id) && !zrodlo_wycofane(*final(self), id)),
            final(self).baskets@.len() == old(self).baskets@.len(),
            final(self).rearm_reconcile == old(self).rearm_reconcile,
            final(self).explicit_pending_until_cancel == old(self).explicit_pending_until_cancel,
    {
        match self.basket_nr(id) {
            Some(i) => {
                let cancelled = match self.baskets[i].entry_edit_state {
                    Some(st) => st.cancelled_by_source_ts,
                    None => None,
                };
                let wanted = self.pozycja_zrodla(id).is_some()
                    || (self.explicit_pending_until_cancel && (self.baskets[i].is_limit || self.baskets[i].is_stop))
                    || cancelled.is_some();
                if wanted {
                    let record = PendingSourceRecord {
                        source: self.baskets[i].source,
                        msg_id: self.baskets[i].msg_id,
                        basket_id: id,
                        aliases: self.baskets[i].msg_aliases.clone(),
                        cancelled_ts: cancelled,
                    };
                    let v = vec![record];
                    self.restore_pending_source_memory(v.as_slice(), || nowa_rewizja());
                }
            },
            None => {},
        }
        match self.pozycja_zrodla(id) {
            Some(p) => {
                if self.pending_sources[p].cancelled_ts.is_none() {
                    let ghost s0 = zrodla(self.pending_sources@);
                    self.pending_sources[p].cancelled_ts = Some(ts);
                    proof {
                        let t = zrodla(self.pending_sources@);
                        assert(t =~= s0.update(p as int, ZrodloView { cancelled_ts: Some(ts), ..s0[p as int] }));
                        assert forall|a: int, b: int| 0 <= a < b < t.len() implies (#[trigger] t[a]).basket_id < (#[trigger] t[b]).basket_id by {
                            assert(s0[a].basket_id < s0[b].basket_id);
                        }
                        lemma_pozycja(t, id, p as int);
                    }
                    self.pending_source_revision = nowa_rewizja();
                }
            },
            None => {},
        }
        match self.basket_nr(id) {
            Some(i) => {
                let nowy = match self.baskets[i].entry_edit_state {
                    Some(st) => EntryEditState {
                        cancelled_by_source_ts: match st.cancelled_by_source_ts {
                            Some(t) => Some(t),
                            None => Some(ts),
                        },
                        ..st
                    },
                    None => EntryEditState { schema_version: 1, revision: 0, applied_ts: ts, cancelled_by_source_ts: Some(ts) },
                };
                let ghost b0 = self.baskets@;
                self.baskets[i].entry_edit_state = Some(nowy);
                proof {
                    lemma_indeks_po_id(b0, self.baskets@, id);
                }
            },
            None => {},
        }
    }
}

/// Finding a basket by number depends on the numbers alone.
proof fn lemma_indeks_po_id(a: Seq<Basket>, b: Seq<Basket>, id: u32)
    requires
        a.len() == b.len(),
        forall|k: int| 0 <= k < a.len() ==> (#[trigger] a[k]).id == b[k].id,
    ensures
        crate::rearm_reconcile::basket_index(a, id) == crate::rearm_reconcile::basket_index(b, id),
    decreases a.len(),
{
    if a.len() > 0 {
        lemma_indeks_po_id(a.drop_last(), b.drop_last(), id);
    }
}

} // verus!
