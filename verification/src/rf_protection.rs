//! Scope, schema and evidence vocabulary of the nominal risk-free floor
//! evaluator. Only the checks that need no valuation live here; the floor
//! arithmetic itself runs on floating-point amounts.
use vstd::prelude::*;
use crate::tekst::{blank, liczba_tekstem, decimal_text, pusty_po_przycieciu, rowne_teksty};

verus! {

pub const RF_FLOOR_SCHEMA_VERSION: u16 = 1;

/// Wire schema of the RF-floor documents. Only version 1 exists.
#[derive(Debug, Clone, Copy, PartialEq, Eq, Structural)]
pub struct RfFloorSchema(u16);

impl RfFloorSchema {
    pub fn v1() -> (r: RfFloorSchema)
        ensures
            r.wersja() == RF_FLOOR_SCHEMA_VERSION,
    {
        RfFloorSchema(RF_FLOOR_SCHEMA_VERSION)
    }

    pub closed spec fn wersja(self) -> u16 {
        self.0
    }

    /// Accepts exactly the supported version; every other number is an error
    /// naming it.
    pub fn try_from(v: u16) -> (r: Result<RfFloorSchema, String>)
        ensures
            r is Ok <==> v == RF_FLOOR_SCHEMA_VERSION,
            r matches Ok(s) ==> s.wersja() == v,
            r matches Err(e) ==> e@ == "unsupported RF floor schema "@ + decimal_text(v as int),
    {
        if v == RF_FLOOR_SCHEMA_VERSION {
            Ok(RfFloorSchema(v))
        } else {
            let mut e = String::from_str("unsupported RF floor schema ");
            let n = liczba_tekstem(v as u64);
            e.append(n.as_str());
            proof {
                reveal_strlit("unsupported RF floor schema ");
            }
            Err(e)
        }
    }

    pub fn into_u16(self) -> (r: u16)
        ensures
            r == self.wersja(),
    {
        self.0
    }
}

/// The owner a floor is proved for: the adapter's opaque account scope, its
/// session generation, the basket and the setup and policy revisions.
#[derive(Debug, Clone, PartialEq, Eq)]
pub struct RfOwner {
    pub scope_id: String,
    pub session_generation: u64,
    pub basket_id: u32,
    pub setup_revision: u64,
    pub policy_revision: u64,
}

impl RfOwner {
    /// A usable owner: a non-blank scope and nonzero generation, basket and revisions.
    pub fn valid(&self) -> (r: bool)
        ensures
            r == (!blank(self.scope_id@) && self.session_generation > 0 && self.basket_id > 0
                && self.setup_revision > 0 && self.policy_revision > 0),
    {
        !pusty_po_przycieciu(self.scope_id.as_str()) && self.session_generation > 0 && self.basket_id > 0
            && self.setup_revision > 0 && self.policy_revision > 0
    }
}

/// Whether pending exposure is proved absent.
#[derive(Debug, Clone, Copy, PartialEq, Eq, Structural)]
pub enum RfPendingEvidence {
    /// A fresh empty exposure projection WITH reconciled cancellation and fill
    /// races. A cancel ACK or an empty stale orders cache cannot construct it.
    NoneConfirmed { snapshot_revision: u64, cancellation_and_fills_reconciled: bool },
    /// Known pending risk is not valued and stays unsecured.
    Present,
    Unknown,
}

/// Why the evidence does not suffice for any floor.
#[derive(Debug, Clone, Copy, PartialEq, Eq, Structural)]
pub enum RfIncomplete {
    InvalidContext,
    OwnerMismatch,
    SnapshotNotAuthoritative,
    SnapshotStale,
    PositionInventoryIncomplete,
    InvalidPosition { position_identifier: u64 },
    DuplicatePosition { position_identifier: u64 },
    PendingUnconfirmed,
    StopUnconfirmed { position_identifier: u64 },
    StopStaleOrInvalid { position_identifier: u64 },
    RealizedNotCanonicalOrUnconsumed,
    RealizedRevisionMismatch,
    RealizedMissingOrNonfinite,
    CurrencyMismatch,
    UnexpectedValuation { position_identifier: u64 },
    DuplicateValuation { position_identifier: u64 },
    MissingValuation { position_identifier: u64 },
    ValuationBindingMismatch { position_identifier: u64 },
    ValuationOrCostIncomplete { position_identifier: u64 },
    ArithmeticOverflow,
}

/// Why a complete evaluation is still not secured.
#[derive(Debug, Clone, Copy, PartialEq, Eq, Structural)]
pub enum RfUnsecured {
    NegativeNominalFloor,
    NoBrokerStop { position_identifier: u64 },
    PendingExposureNotValued,
}

/// An ISO currency code: exactly three ASCII capital letters.
pub open spec fn kod_waluty(s: Seq<char>) -> bool {
    s.len() == 3 && forall|i: int| 0 <= i < 3 ==> 'A' <= #[trigger] s[i] && s[i] <= 'Z'
}

pub fn currency_valid(s: &str) -> (r: bool)
    ensures
        r == kod_waluty(s@),
{
    if s.unicode_len() != 3 {
        return false;
    }
    let mut k: usize = 0;
    while k < 3
        invariant
            k <= 3,
            s@.len() == 3,
            forall|i: int| 0 <= i < k ==> 'A' <= #[trigger] s@[i] && s@[i] <= 'Z',
        decreases 3 - k,
    {
        let c = s.get_char(k);
        if !('A' <= c && c <= 'Z') {
            return false;
        }
        k = k + 1;
    }
    true
}


/// A usable owner (see `RfOwner::valid`).
pub open spec fn wlasciciel_poprawny(o: RfOwner) -> bool {
    !blank(o.scope_id@) && o.session_generation > 0 && o.basket_id > 0 && o.setup_revision > 0
        && o.policy_revision > 0
}

/// Two owners are the same owner.
pub open spec fn ten_sam_wlasciciel(a: RfOwner, b: RfOwner) -> bool {
    a.scope_id@ == b.scope_id@ && a.session_generation == b.session_generation && a.basket_id == b.basket_id
        && a.setup_revision == b.setup_revision && a.policy_revision == b.policy_revision
}

fn ten_sam_wlasciciel_exec(a: &RfOwner, b: &RfOwner) -> (r: bool)
    ensures
        r == ten_sam_wlasciciel(*a, *b),
{
    rowne_teksty(a.scope_id.as_str(), b.scope_id.as_str()) && a.session_generation == b.session_generation
        && a.basket_id == b.basket_id && a.setup_revision == b.setup_revision
        && a.policy_revision == b.policy_revision
}

/// What a floor evaluation is bound to, as far as no valuation is needed:
/// the expected owner, currency and model, the required revisions, and what
/// the position snapshot and the realized ledger say about themselves
/// (`canonical_basis`: the ledger's profit basis is the canonical closed net).
#[derive(Debug, Clone)]
pub struct RfKontekst {
    pub expected_owner: RfOwner,
    pub currency: String,
    pub valuation_model_id: String,
    pub minimum_snapshot_revision: u64,
    pub required_ledger_revision: u64,
    pub snapshot_owner: RfOwner,
    pub snapshot_revision: u64,
    pub authoritative: bool,
    pub all_owned_positions_complete: bool,
    pub pending: RfPendingEvidence,
    pub realized_owner: RfOwner,
    pub ledger_revision: u64,
    pub realized_currency: String,
    pub canonical_basis: bool,
    pub receipts_complete_and_consumed: bool,
}

pub open spec fn brak(b: bool, i: RfIncomplete) -> Seq<RfIncomplete> {
    if b { seq![i] } else { Seq::empty() }
}

/// The pending evidence is confirmed for the snapshot's revision.
pub open spec fn oczekujace_potwierdzone(p: RfPendingEvidence, rewizja: u64) -> bool {
    match p {
        RfPendingEvidence::NoneConfirmed { snapshot_revision, cancellation_and_fills_reconciled } =>
            snapshot_revision == rewizja && cancellation_and_fills_reconciled,
        _ => false,
    }
}

/// The gaps of the context, in the order the evaluation reports them.
pub open spec fn braki_kontekstu(k: RfKontekst) -> Seq<RfIncomplete> {
    brak(!wlasciciel_poprawny(k.expected_owner) || !kod_waluty(k.currency@) || blank(k.valuation_model_id@)
        || k.minimum_snapshot_revision == 0 || k.required_ledger_revision == 0, RfIncomplete::InvalidContext)
        + brak(!ten_sam_wlasciciel(k.snapshot_owner, k.expected_owner)
            || !ten_sam_wlasciciel(k.realized_owner, k.expected_owner), RfIncomplete::OwnerMismatch)
        + brak(!k.authoritative, RfIncomplete::SnapshotNotAuthoritative)
        + brak(k.snapshot_revision < k.minimum_snapshot_revision || k.snapshot_revision == 0, RfIncomplete::SnapshotStale)
        + brak(!k.all_owned_positions_complete, RfIncomplete::PositionInventoryIncomplete)
        + brak(!oczekujace_potwierdzone(k.pending, k.snapshot_revision) && !(k.pending is Present), RfIncomplete::PendingUnconfirmed)
        + brak(!k.canonical_basis || !k.receipts_complete_and_consumed, RfIncomplete::RealizedNotCanonicalOrUnconsumed)
        + brak(k.ledger_revision != k.required_ledger_revision, RfIncomplete::RealizedRevisionMismatch)
        + brak(k.realized_currency@ != k.currency@, RfIncomplete::CurrencyMismatch)
}

/// Known pending exposure is not valued, so it leaves the floor unsecured.
pub open spec fn niezabezpieczone_kontekstu(k: RfKontekst) -> Seq<RfUnsecured> {
    if k.pending is Present { seq![RfUnsecured::PendingExposureNotValued] } else { Seq::empty() }
}

proof fn lemma_brak_zawiera(b: bool, i: RfIncomplete, x: RfIncomplete)
    ensures
        brak(b, i).contains(x) <==> (b && i == x),
{
    if b {
        assert(brak(b, i)[0] == i);
    }
}

/// Pending exposure counts as proved absent only on an empty-exposure claim
/// for the snapshot's own revision whose cancellation and fill races were
/// reconciled: the check reports the pending gap exactly when the evidence
/// is unknown, is for another revision, or was not reconciled. Known pending
/// exposure is no gap but leaves the floor unsecured, and nothing else does
/// so here.
pub proof fn oczekujace_tylko_po_uzgodnieniu(k: RfKontekst)
    ensures
        braki_kontekstu(k).contains(RfIncomplete::PendingUnconfirmed) <==> match k.pending {
            RfPendingEvidence::NoneConfirmed { snapshot_revision, cancellation_and_fills_reconciled } =>
                snapshot_revision != k.snapshot_revision || !cancellation_and_fills_reconciled,
            RfPendingEvidence::Present => false,
            RfPendingEvidence::Unknown => true,
        },
        niezabezpieczone_kontekstu(k).contains(RfUnsecured::PendingExposureNotValued) <==> k.pending is Present,
        niezabezpieczone_kontekstu(k).len() <= 1,
{
    broadcast use vstd::seq_lib::lemma_seq_concat_contains_all_elements;
    let x = RfIncomplete::PendingUnconfirmed;
    lemma_brak_zawiera(!wlasciciel_poprawny(k.expected_owner) || !kod_waluty(k.currency@) || blank(k.valuation_model_id@)
        || k.minimum_snapshot_revision == 0 || k.required_ledger_revision == 0, RfIncomplete::InvalidContext, x);
    lemma_brak_zawiera(!ten_sam_wlasciciel(k.snapshot_owner, k.expected_owner)
        || !ten_sam_wlasciciel(k.realized_owner, k.expected_owner), RfIncomplete::OwnerMismatch, x);
    lemma_brak_zawiera(!k.authoritative, RfIncomplete::SnapshotNotAuthoritative, x);
    lemma_brak_zawiera(k.snapshot_revision < k.minimum_snapshot_revision || k.snapshot_revision == 0,
        RfIncomplete::SnapshotStale, x);
    lemma_brak_zawiera(!k.all_owned_positions_complete, RfIncomplete::PositionInventoryIncomplete, x);
    lemma_brak_zawiera(!oczekujace_potwierdzone(k.pending, k.snapshot_revision) && !(k.pending is Present),
        RfIncomplete::PendingUnconfirmed, x);
    lemma_brak_zawiera(!k.canonical_basis || !k.receipts_complete_and_consumed,
        RfIncomplete::RealizedNotCanonicalOrUnconsumed, x);
    lemma_brak_zawiera(k.ledger_revision != k.required_ledger_revision, RfIncomplete::RealizedRevisionMismatch, x);
    lemma_brak_zawiera(k.realized_currency@ != k.currency@, RfIncomplete::CurrencyMismatch, x);
    if k.pending is Present {
        assert(niezabezpieczone_kontekstu(k)[0] == RfUnsecured::PendingExposureNotValued);
    }
}

fn dopisz_brak(v: &mut Vec<RfIncomplete>, b: bool, i: RfIncomplete)
    ensures
        final(v)@ == old(v)@ + brak(b, i),
{
    if b {
        v.push(i);
    } else {
        assert(v@ =~= v@ + Seq::<RfIncomplete>::empty());
    }
    proof {
        if b {
            assert(v@ =~= old(v)@ + seq![i]);
        }
    }
}

/// The checks of a floor evaluation that need no valuation: the context,
/// the owners, the snapshot's authority, revision and inventory, the
/// pending evidence, and the realized ledger's basis, revision and currency.
/// Gives the gaps found and the unsecured reasons, in the evaluation's order.
pub fn sprawdz_kontekst(k: &RfKontekst) -> (r: (Vec<RfIncomplete>, Vec<RfUnsecured>))
    ensures
        r.0@ == braki_kontekstu(*k),
        r.1@ == niezabezpieczone_kontekstu(*k),
{
    let mut braki: Vec<RfIncomplete> = Vec::new();
    let mut niezabezpieczone: Vec<RfUnsecured> = Vec::new();
    dopisz_brak(&mut braki, !k.expected_owner.valid() || !currency_valid(k.currency.as_str())
        || pusty_po_przycieciu(k.valuation_model_id.as_str()) || k.minimum_snapshot_revision == 0
        || k.required_ledger_revision == 0, RfIncomplete::InvalidContext);
    dopisz_brak(&mut braki, !ten_sam_wlasciciel_exec(&k.snapshot_owner, &k.expected_owner)
        || !ten_sam_wlasciciel_exec(&k.realized_owner, &k.expected_owner), RfIncomplete::OwnerMismatch);
    dopisz_brak(&mut braki, !k.authoritative, RfIncomplete::SnapshotNotAuthoritative);
    dopisz_brak(&mut braki, k.snapshot_revision < k.minimum_snapshot_revision || k.snapshot_revision == 0,
        RfIncomplete::SnapshotStale);
    dopisz_brak(&mut braki, !k.all_owned_positions_complete, RfIncomplete::PositionInventoryIncomplete);
    match k.pending {
        RfPendingEvidence::NoneConfirmed { snapshot_revision, cancellation_and_fills_reconciled } => {
            dopisz_brak(&mut braki, !(snapshot_revision == k.snapshot_revision && cancellation_and_fills_reconciled),
                RfIncomplete::PendingUnconfirmed);
        },
        RfPendingEvidence::Present => {
            niezabezpieczone.push(RfUnsecured::PendingExposureNotValued);
            dopisz_brak(&mut braki, false, RfIncomplete::PendingUnconfirmed);
        },
        RfPendingEvidence::Unknown => {
            dopisz_brak(&mut braki, true, RfIncomplete::PendingUnconfirmed);
        },
    }
    dopisz_brak(&mut braki, !k.canonical_basis || !k.receipts_complete_and_consumed,
        RfIncomplete::RealizedNotCanonicalOrUnconsumed);
    dopisz_brak(&mut braki, k.ledger_revision != k.required_ledger_revision, RfIncomplete::RealizedRevisionMismatch);
    dopisz_brak(&mut braki, !rowne_teksty(k.realized_currency.as_str(), k.currency.as_str()), RfIncomplete::CurrencyMismatch);
    proof {
        assert(braki@ =~= braki_kontekstu(*k));
        assert(niezabezpieczone@ =~= niezabezpieczone_kontekstu(*k));
    }
    (braki, niezabezpieczone)
}

} // verus!
