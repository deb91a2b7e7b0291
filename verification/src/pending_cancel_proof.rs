//! Pure, session-only evidence reducer for pending cancellation WITHOUT fills.
//!
//! It never cancels, places, retries or books anything. Producer completeness
//! assertions are checked for consistency, not authenticated. A local cut is
//! not an atomic freeze of the terminal; an empty orders cache is not proof.
//! Quantities are exact integer units of the stated broker step, and prices are
//! exact integer broker points: two prices agree only when both are positive
//! and equal. A deserialized DTO is not a restored running reducer.
use vstd::prelude::*;
use crate::broker::{ExecutionSession, PendingKind};
use crate::tekst::{blank, liczba_tekstem, pusty_po_przycieciu};

verus! {

/// Wire schema of every pending-proof document. Only version 1 exists.
#[derive(Debug, Clone, Copy, PartialEq, Eq, Structural)]
pub struct PendingProofSchema(u16);

impl PendingProofSchema {
    /// The only supported version.
    pub fn v1() -> (r: PendingProofSchema)
        ensures
            r.wersja() == 1,
    {
        PendingProofSchema(1)
    }

    pub closed spec fn wersja(self) -> u16 {
        self.0
    }

    /// Accepts exactly the supported version; every other number is an error
    /// naming the rejected version.
    pub fn try_from(v: u16) -> (r: Result<PendingProofSchema, String>)
        ensures
            r is Ok <==> v == 1,
            r matches Ok(s) ==> s.wersja() == v,
            r matches Err(e) ==> e@ == "unsupported pending proof schema "@ + crate::tekst::decimal_text(v as int),
    {
        if v == 1 {
            Ok(PendingProofSchema(v))
        } else {
            let mut e = String::from_str("unsupported pending proof schema ");
            let n = liczba_tekstem(v as u64);
            e.append(n.as_str());
            proof {
                reveal_strlit("unsupported pending proof schema ");
            }
            Err(e)
        }
    }

    pub fn into_u16(self) -> (r: u16)
        ensures
            r == self.wersja(),
    {
        self.0
    }
}

/// Identity of one cancellation operation.
#[derive(Debug, Clone, PartialEq, Eq)]
pub struct PendingOperationKey {
    pub session: ExecutionSession,
    pub owner_engine: String,
    pub basket_id: u32,
    pub operation_seq: u64,
}

impl PendingOperationKey {
    pub open spec fn same(self, o: PendingOperationKey) -> bool {
        &&& self.session.same(o.session)
        &&& self.owner_engine@ == o.owner_engine@
        &&& self.basket_id == o.basket_id
        &&& self.operation_seq == o.operation_seq
    }

    pub fn rowny(&self, o: &PendingOperationKey) -> (r: bool)
        ensures
            r == self.same(*o),
    {
        self.basket_id == o.basket_id && self.operation_seq == o.operation_seq
            && self.session.rowna(&o.session) && self.owner_engine == o.owner_engine
    }
}

/// Producer revisions of the source, the policy and the geometry.
#[derive(Debug, Clone, Copy, PartialEq, Eq, Structural)]
pub struct PendingRevision {
    pub source: u64,
    pub policy: u64,
    pub geometry: u64,
}

/// One order as registered before the cancel was sent.
#[derive(Debug, Clone, PartialEq)]
pub struct PendingOrderBindingV1 {
    pub order_ticket: u64,
    pub symbol: String,
    pub magic: u64,
    pub kind: PendingKind,
    pub level: i32,
    pub is_topup: bool,
    pub is_toucher: bool,
    pub time_setup_msc: i64,
    pub initial_units: u64,
    pub current_units_at_registration: u64,
    pub price: u64,
    pub sl: Option<u64>,
    pub tp: Option<u64>,
}

/// The registered cancellation: key, revisions and the exact order batch.
#[derive(Debug, Clone, PartialEq)]
pub struct PendingCancelIntentV1 {
    pub schema: PendingProofSchema,
    pub key: PendingOperationKey,
    pub revision: PendingRevision,
    /// Full locally committed observation sequence BEFORE sending cancel.
    pub registered_after_observation: u64,
    /// Same declared broker-time basis as order setup/done (not quote time).
    pub registered_before_cancel_msc: i64,
    pub volume_step: u64,
    pub orders: Vec<PendingOrderBindingV1>,
}

/// MT5 ENUM_ORDER_STATE.
#[derive(Debug, Clone, Copy, PartialEq, Eq, Structural)]
pub enum PendingOrderState {
    Started,
    Placed,
    Canceled,
    Partial,
    Filled,
    Rejected,
    Expired,
    RequestAdd,
    RequestModify,
    RequestCancel,
}

/// The MT5 numeric code of each state.
pub open spec fn mt5_code(s: PendingOrderState) -> int {
    match s {
        PendingOrderState::Started => 0,
        PendingOrderState::Placed => 1,
        PendingOrderState::Canceled => 2,
        PendingOrderState::Partial => 3,
        PendingOrderState::Filled => 4,
        PendingOrderState::Rejected => 5,
        PendingOrderState::Expired => 6,
        PendingOrderState::RequestAdd => 7,
        PendingOrderState::RequestModify => 8,
        PendingOrderState::RequestCancel => 9,
    }
}

/// Final states: nothing further can happen to the order.
pub open spec fn terminal_state(s: PendingOrderState) -> bool {
    s == PendingOrderState::Canceled || s == PendingOrderState::Filled
        || s == PendingOrderState::Rejected || s == PendingOrderState::Expired
}

impl PendingOrderState {
    /// Explicit MT5 ENUM_ORDER_STATE mapping; unknown values are not canceled.
    pub fn from_mt5(code: i32) -> (r: Option<PendingOrderState>)
        ensures
            r matches Some(s) ==> mt5_code(s) == code,
            r is Some <==> 0 <= code <= 9,
    {
        match code {
            0 => Some(PendingOrderState::Started),
            1 => Some(PendingOrderState::Placed),
            2 => Some(PendingOrderState::Canceled),
            3 => Some(PendingOrderState::Partial),
            4 => Some(PendingOrderState::Filled),
            5 => Some(PendingOrderState::Rejected),
            6 => Some(PendingOrderState::Expired),
            7 => Some(PendingOrderState::RequestAdd),
            8 => Some(PendingOrderState::RequestModify),
            9 => Some(PendingOrderState::RequestCancel),
            _ => None,
        }
    }

    fn terminal(self) -> (r: bool)
        ensures
            r == terminal_state(self),
    {
        match self {
            PendingOrderState::Canceled | PendingOrderState::Filled
            | PendingOrderState::Rejected | PendingOrderState::Expired => true,
            _ => false,
        }
    }
}

/// Distinct states have distinct MT5 codes, so `from_mt5` of a state's code
/// gives that state back.
pub proof fn mt5_codes_roundtrip(s: PendingOrderState)
    ensures
        0 <= mt5_code(s) <= 9,
        forall|t: PendingOrderState| mt5_code(t) == mt5_code(s) ==> t == s,
{
}

/// An order row, either from the current orders or from the order history.
#[derive(Debug, Clone, PartialEq)]
pub struct PendingOrderRecordV1 {
    pub order_ticket: u64,
    pub symbol: String,
    pub magic: u64,
    pub kind: PendingKind,
    pub state: PendingOrderState,
    pub time_setup_msc: i64,
    pub time_done_msc: i64,
    pub position_identifier: u64,
    pub initial_units: u64,
    pub current_units: u64,
    pub price: u64,
    pub sl: Option<u64>,
    pub tp: Option<u64>,
}

impl PendingOrderRecordV1 {
    pub open spec fn same(self, o: PendingOrderRecordV1) -> bool {
        &&& self.order_ticket == o.order_ticket
        &&& self.symbol@ == o.symbol@
        &&& self.magic == o.magic
        &&& self.kind == o.kind
        &&& self.state == o.state
        &&& self.time_setup_msc == o.time_setup_msc
        &&& self.time_done_msc == o.time_done_msc
        &&& self.position_identifier == o.position_identifier
        &&& self.initial_units == o.initial_units
        &&& self.current_units == o.current_units
        &&& self.price == o.price
        &&& self.sl == o.sl
        &&& self.tp == o.tp
    }

    pub fn rowny(&self, o: &PendingOrderRecordV1) -> (r: bool)
        ensures
            r == self.same(*o),
    {
        self.order_ticket == o.order_ticket && self.magic == o.magic && self.kind == o.kind
            && self.state == o.state && self.time_setup_msc == o.time_setup_msc
            && self.time_done_msc == o.time_done_msc
            && self.position_identifier == o.position_identifier
            && self.initial_units == o.initial_units && self.current_units == o.current_units
            && self.price == o.price && self.sl == o.sl && self.tp == o.tp
            && self.symbol == o.symbol
    }
}

/// A history deal of one order.
#[derive(Debug, Clone, PartialEq, Eq)]
pub struct PendingDealV1 {
    pub deal_ticket: u64,
    pub order_ticket: u64,
    pub position_identifier: u64,
    pub symbol: String,
    pub magic: u64,
    /// Actual MT5 DEAL_ENTRY code. Even OUT/INOUT cannot prove an unfilled order.
    pub entry: u8,
    pub volume_units: u64,
    pub time_msc: i64,
}

impl PendingDealV1 {
    pub open spec fn same(self, o: PendingDealV1) -> bool {
        &&& self.deal_ticket == o.deal_ticket
        &&& self.order_ticket == o.order_ticket
        &&& self.position_identifier == o.position_identifier
        &&& self.symbol@ == o.symbol@
        &&& self.magic == o.magic
        &&& self.entry == o.entry
        &&& self.volume_units == o.volume_units
        &&& self.time_msc == o.time_msc
    }

    pub fn rowny(&self, o: &PendingDealV1) -> (r: bool)
        ensures
            r == self.same(*o),
    {
        self.deal_ticket == o.deal_ticket && self.order_ticket == o.order_ticket
            && self.position_identifier == o.position_identifier && self.magic == o.magic
            && self.entry == o.entry && self.volume_units == o.volume_units
            && self.time_msc == o.time_msc && self.symbol == o.symbol
    }
}

/// Outcome of one producer read: complete contents, not available yet, or failed.
#[derive(Debug, Clone, PartialEq)]
pub enum EvidenceRead<T> {
    Complete(T),
    Unavailable,
    Failed,
}

/// Both reads of one ORDER ticket.
#[derive(Debug, Clone, PartialEq)]
pub struct PendingOrderEvidenceV1 {
    /// Both reads MUST use this exact ORDER ticket, never a DEAL ticket/date slice.
    pub queried_order_ticket: u64,
    pub history: EvidenceRead<Vec<PendingOrderRecordV1>>,
    pub deals: EvidenceRead<Vec<PendingDealV1>>,
}

/// A position the producer proved related to an order through entry deals.
#[derive(Debug, Clone, Copy, PartialEq, Eq, Structural)]
pub struct RelatedPositionV1 {
    pub order_ticket: u64,
    pub position_identifier: u64,
    pub remaining_units: u64,
}

/// State of the close-receipt consumer at the observation.
#[derive(Debug, Clone, Copy, PartialEq, Eq, Structural)]
pub enum PendingReceiptCutV1 {
    Clear { required_owner_revision: u64, consumed_owner_revision: u64 },
    Temporary,
    RequiresReview,
}

/// How the history reports the canceled remainder.
#[derive(Debug, Clone, PartialEq, Eq)]
pub enum HistoricalVolumeConventionV1 {
    /// No native/model evidence: current==0 or current==initial proves nothing.
    Unverified,
    /// Named producer model: history current is the unfilled remainder even
    /// after cancel. A reference is provenance, NOT authentication of the model.
    RemainingUnfilled { evidence_ref: String },
}

/// One complete publication of the producer's reads.
#[derive(Debug, Clone, PartialEq)]
pub struct PendingCancelObservationV1 {
    pub schema: PendingProofSchema,
    pub key: PendingOperationKey,
    pub revision: PendingRevision,
    pub observation_seq: u64,
    /// Producer's complete history-read boundary in the order timestamp basis.
    pub history_read_through_msc: i64,
    pub identity_confirmed: bool,
    pub session_before: ExecutionSession,
    pub session_after: ExecutionSession,
    /// One publication from complete successful reads, not an atomic market cut.
    pub locally_published_complete: bool,
    pub volume_convention: HistoricalVolumeConventionV1,
    pub current_orders: EvidenceRead<Vec<PendingOrderRecordV1>>,
    pub orders: Vec<PendingOrderEvidenceV1>,
    pub related_positions: EvidenceRead<Vec<RelatedPositionV1>>,
    pub receipt_cut: Option<PendingReceiptCutV1>,
}

/// Current trusted runtime context, supplied afresh for every observation.
#[derive(Debug, Clone)]
pub struct PendingProofContext {
    pub session: Option<ExecutionSession>,
    pub owner_engine: String,
    pub basket_id: u32,
    pub revision: PendingRevision,
    pub operation_still_current: bool,
}

#[derive(Debug, Clone, Copy, PartialEq, Eq, Structural)]
pub enum PendingRegistrationOrigin {
    RegisteredInCurrentSession,
    RestoredUnverified,
}

#[derive(Debug, Clone, Copy, PartialEq, Eq, Structural)]
pub enum PendingWaitReason {
    NotObserved,
    IncompletePublication,
    ReadUnavailable,
    HistoryNotYetVisible,
    OrderStillCurrent,
    OrderNotTerminal,
    ReceiptsNotConsumed,
}

#[derive(Debug, Clone, Copy, PartialEq, Eq, Structural)]
pub enum PendingReviewReason {
    InvalidIntent,
    ColdRestart,
    SessionMismatch,
    RevisionMismatch,
    OwnerMismatch,
    Superseded,
    StaleObservation,
    ConflictingObservation,
    ReadFailed,
    MalformedEvidence,
    WrongOrderScope,
    DuplicateConflict,
    QuantityConflict,
    GeometryConflict,
    UnsupportedVolumeConvention,
    UnsupportedFinalState,
    FillOrPartialObserved,
    ReceiptReview,
    QuantityOverflow,
}

/// One canceled order of a proved batch.
#[derive(Debug, Clone, PartialEq, Eq, Structural)]
pub struct NoFillOrderV1 {
    pub order_ticket: u64,
    pub initial_units: u64,
    /// Historical canceled remainder, NOT current live exposure.
    pub history_remaining_units: u64,
    pub time_done_msc: i64,
}

/// Proof that every order of the batch was canceled without any fill.
#[derive(Debug, Clone, PartialEq, Eq)]
pub struct PendingNoFillProofV1 {
    pub schema: PendingProofSchema,
    pub key: PendingOperationKey,
    pub revision: PendingRevision,
    pub observation_seq: u64,
    pub terminal_orders: Vec<NoFillOrderV1>,
    /// Audit only. This is NOT a replacement budget or permission to reopen.
    pub retired_order_units: u64,
}

#[derive(Debug, Clone, PartialEq, Eq)]
pub enum PendingCancelStateV1 {
    Waiting(PendingWaitReason),
    RequiresReview(PendingReviewReason),
    VerifiedNoFill(PendingNoFillProofV1),
}


// ============================================================
//  Field-wise equality of evidence and its read wrappers
// ============================================================

pub open spec fn records_same(a: Seq<PendingOrderRecordV1>, b: Seq<PendingOrderRecordV1>) -> bool {
    a.len() == b.len() && forall|k: int| 0 <= k < a.len() ==> #[trigger] a[k].same(b[k])
}

pub open spec fn deals_same(a: Seq<PendingDealV1>, b: Seq<PendingDealV1>) -> bool {
    a.len() == b.len() && forall|k: int| 0 <= k < a.len() ==> #[trigger] a[k].same(b[k])
}

pub open spec fn history_read_same(
    a: EvidenceRead<Vec<PendingOrderRecordV1>>,
    b: EvidenceRead<Vec<PendingOrderRecordV1>>,
) -> bool {
    match (a, b) {
        (EvidenceRead::Complete(x), EvidenceRead::Complete(y)) => records_same(x@, y@),
        (EvidenceRead::Unavailable, EvidenceRead::Unavailable) => true,
        (EvidenceRead::Failed, EvidenceRead::Failed) => true,
        _ => false,
    }
}

pub open spec fn deal_read_same(
    a: EvidenceRead<Vec<PendingDealV1>>,
    b: EvidenceRead<Vec<PendingDealV1>>,
) -> bool {
    match (a, b) {
        (EvidenceRead::Complete(x), EvidenceRead::Complete(y)) => deals_same(x@, y@),
        (EvidenceRead::Unavailable, EvidenceRead::Unavailable) => true,
        (EvidenceRead::Failed, EvidenceRead::Failed) => true,
        _ => false,
    }
}

pub open spec fn related_read_same(
    a: EvidenceRead<Vec<RelatedPositionV1>>,
    b: EvidenceRead<Vec<RelatedPositionV1>>,
) -> bool {
    match (a, b) {
        (EvidenceRead::Complete(x), EvidenceRead::Complete(y)) => x@ == y@,
        (EvidenceRead::Unavailable, EvidenceRead::Unavailable) => true,
        (EvidenceRead::Failed, EvidenceRead::Failed) => true,
        _ => false,
    }
}

impl PendingOrderEvidenceV1 {
    pub open spec fn same(self, o: PendingOrderEvidenceV1) -> bool {
        &&& self.queried_order_ticket == o.queried_order_ticket
        &&& history_read_same(self.history, o.history)
        &&& deal_read_same(self.deals, o.deals)
    }
}

pub open spec fn evidence_rows_same(
    a: Seq<PendingOrderEvidenceV1>,
    b: Seq<PendingOrderEvidenceV1>,
) -> bool {
    a.len() == b.len() && forall|k: int| 0 <= k < a.len() ==> #[trigger] a[k].same(b[k])
}

pub open spec fn convention_same(a: HistoricalVolumeConventionV1, b: HistoricalVolumeConventionV1) -> bool {
    match (a, b) {
        (HistoricalVolumeConventionV1::Unverified, HistoricalVolumeConventionV1::Unverified) => true,
        (
            HistoricalVolumeConventionV1::RemainingUnfilled { evidence_ref: x },
            HistoricalVolumeConventionV1::RemainingUnfilled { evidence_ref: y },
        ) => x@ == y@,
        _ => false,
    }
}

impl PendingCancelObservationV1 {
    /// Field-wise equality of two observations (texts by their characters).
    pub open spec fn same(self, o: PendingCancelObservationV1) -> bool {
        &&& self.schema == o.schema
        &&& self.key.same(o.key)
        &&& self.revision == o.revision
        &&& self.observation_seq == o.observation_seq
        &&& self.history_read_through_msc == o.history_read_through_msc
        &&& self.identity_confirmed == o.identity_confirmed
        &&& self.session_before.same(o.session_before)
        &&& self.session_after.same(o.session_after)
        &&& self.locally_published_complete == o.locally_published_complete
        &&& convention_same(self.volume_convention, o.volume_convention)
        &&& history_read_same(self.current_orders, o.current_orders)
        &&& evidence_rows_same(self.orders@, o.orders@)
        &&& related_read_same(self.related_positions, o.related_positions)
        &&& self.receipt_cut == o.receipt_cut
    }
}

fn records_rowne(a: &Vec<PendingOrderRecordV1>, b: &Vec<PendingOrderRecordV1>) -> (r: bool)
    ensures
        r == records_same(a@, b@),
{
    if a.len() != b.len() {
        return false;
    }
    let mut k: usize = 0;
    while k < a.len()
        invariant
            a.len() == b.len(),
            k <= a.len(),
            forall|j: int| 0 <= j < k ==> #[trigger] a@[j].same(b@[j]),
        decreases a.len() - k,
    {
        if !a[k].rowny(&b[k]) {
            return false;
        }
        k = k + 1;
    }
    true
}

fn deals_rowne(a: &Vec<PendingDealV1>, b: &Vec<PendingDealV1>) -> (r: bool)
    ensures
        r == deals_same(a@, b@),
{
    if a.len() != b.len() {
        return false;
    }
    let mut k: usize = 0;
    while k < a.len()
        invariant
            a.len() == b.len(),
            k <= a.len(),
            forall|j: int| 0 <= j < k ==> #[trigger] a@[j].same(b@[j]),
        decreases a.len() - k,
    {
        if !a[k].rowny(&b[k]) {
            return false;
        }
        k = k + 1;
    }
    true
}

fn history_read_rowne(
    a: &EvidenceRead<Vec<PendingOrderRecordV1>>,
    b: &EvidenceRead<Vec<PendingOrderRecordV1>>,
) -> (r: bool)
    ensures
        r == history_read_same(*a, *b),
{
    match (a, b) {
        (EvidenceRead::Complete(x), EvidenceRead::Complete(y)) => records_rowne(x, y),
        (EvidenceRead::Unavailable, EvidenceRead::Unavailable) => true,
        (EvidenceRead::Failed, EvidenceRead::Failed) => true,
        _ => false,
    }
}

fn deal_read_rowne(a: &EvidenceRead<Vec<PendingDealV1>>, b: &EvidenceRead<Vec<PendingDealV1>>) -> (r: bool)
    ensures
        r == deal_read_same(*a, *b),
{
    match (a, b) {
        (EvidenceRead::Complete(x), EvidenceRead::Complete(y)) => deals_rowne(x, y),
        (EvidenceRead::Unavailable, EvidenceRead::Unavailable) => true,
        (EvidenceRead::Failed, EvidenceRead::Failed) => true,
        _ => false,
    }
}

fn related_rowne(x: &Vec<RelatedPositionV1>, y: &Vec<RelatedPositionV1>) -> (r: bool)
    ensures
        r == (x@ == y@),
{
    if x.len() != y.len() {
        return false;
    }
    let mut k: usize = 0;
    while k < x.len()
        invariant
            x.len() == y.len(),
            k <= x.len(),
            forall|j: int| 0 <= j < k ==> x@[j] == y@[j],
        decreases x.len() - k,
    {
        let (p, q) = (&x[k], &y[k]);
        if p.order_ticket != q.order_ticket || p.position_identifier != q.position_identifier
            || p.remaining_units != q.remaining_units {
            assert(x@[k as int] != y@[k as int]);
            return false;
        }
        k = k + 1;
    }
    assert(x@ =~= y@);
    true
}

fn related_read_rowne(
    a: &EvidenceRead<Vec<RelatedPositionV1>>,
    b: &EvidenceRead<Vec<RelatedPositionV1>>,
) -> (r: bool)
    ensures
        r == related_read_same(*a, *b),
{
    match (a, b) {
        (EvidenceRead::Complete(x), EvidenceRead::Complete(y)) => related_rowne(x, y),
        (EvidenceRead::Unavailable, EvidenceRead::Unavailable) => true,
        (EvidenceRead::Failed, EvidenceRead::Failed) => true,
        _ => false,
    }
}

impl PendingOrderEvidenceV1 {
    pub fn rowny(&self, o: &PendingOrderEvidenceV1) -> (r: bool)
        ensures
            r == self.same(*o),
    {
        self.queried_order_ticket == o.queried_order_ticket
            && history_read_rowne(&self.history, &o.history)
            && deal_read_rowne(&self.deals, &o.deals)
    }
}

fn evidence_rows_rowne(a: &Vec<PendingOrderEvidenceV1>, b: &Vec<PendingOrderEvidenceV1>) -> (r: bool)
    ensures
        r == evidence_rows_same(a@, b@),
{
    if a.len() != b.len() {
        return false;
    }
    let mut k: usize = 0;
    while k < a.len()
        invariant
            a.len() == b.len(),
            k <= a.len(),
            forall|j: int| 0 <= j < k ==> #[trigger] a@[j].same(b@[j]),
        decreases a.len() - k,
    {
        if !a[k].rowny(&b[k]) {
            return false;
        }
        k = k + 1;
    }
    true
}

fn convention_rowne(a: &HistoricalVolumeConventionV1, b: &HistoricalVolumeConventionV1) -> (r: bool)
    ensures
        r == convention_same(*a, *b),
{
    match (a, b) {
        (HistoricalVolumeConventionV1::Unverified, HistoricalVolumeConventionV1::Unverified) => true,
        (
            HistoricalVolumeConventionV1::RemainingUnfilled { evidence_ref: x },
            HistoricalVolumeConventionV1::RemainingUnfilled { evidence_ref: y },
        ) => *x == *y,
        _ => false,
    }
}

impl PendingCancelObservationV1 {
    pub fn rowna(&self, o: &PendingCancelObservationV1) -> (r: bool)
        ensures
            r == self.same(*o),
    {
        self.schema == o.schema && self.revision == o.revision
            && self.observation_seq == o.observation_seq
            && self.history_read_through_msc == o.history_read_through_msc
            && self.identity_confirmed == o.identity_confirmed
            && self.locally_published_complete == o.locally_published_complete
            && self.receipt_cut == o.receipt_cut && self.key.rowny(&o.key)
            && self.session_before.rowna(&o.session_before)
            && self.session_after.rowna(&o.session_after)
            && convention_rowne(&self.volume_convention, &o.volume_convention)
            && history_read_rowne(&self.current_orders, &o.current_orders)
            && evidence_rows_rowne(&self.orders, &o.orders)
            && related_read_rowne(&self.related_positions, &o.related_positions)
    }
}


// ============================================================
//  Registration validity and per-order binding
// ============================================================

/// Two prices agree when both are positive and equal.
pub open spec fn same_px(a: u64, b: u64) -> bool {
    a > 0 && b > 0 && a == b
}

pub open spec fn same_optional_px(a: Option<u64>, b: Option<u64>) -> bool {
    match (a, b) {
        (None, None) => true,
        (Some(x), Some(y)) => same_px(x, y),
        _ => false,
    }
}

pub open spec fn valid_revision_spec(r: PendingRevision) -> bool {
    r.source > 0 && r.policy > 0 && r.geometry > 0
}

pub open spec fn binding_valid(i: PendingCancelIntentV1, o: PendingOrderBindingV1) -> bool {
    &&& o.order_ticket > 0
    &&& !blank(o.symbol@)
    &&& o.magic > 0
    &&& o.time_setup_msc > 0
    &&& o.time_setup_msc <= i.registered_before_cancel_msc
    &&& o.initial_units > 0
    &&& o.current_units_at_registration == o.initial_units
    &&& o.price > 0
    &&& (o.sl matches Some(v) ==> v > 0)
    &&& (o.tp matches Some(v) ==> v > 0)
}

pub open spec fn tickets_unique(orders: Seq<PendingOrderBindingV1>) -> bool {
    forall|j: int, k: int|
        0 <= j < orders.len() && 0 <= k < orders.len() && j != k
            ==> #[trigger] orders[j].order_ticket != #[trigger] orders[k].order_ticket
}

/// A registration the reducer can work with: complete identity, nonzero
/// revisions and a nonempty batch of distinct, well-formed orders.
pub open spec fn intent_valid(i: PendingCancelIntentV1) -> bool {
    &&& !blank(i.key.session.scope@)
    &&& i.key.session.generation > 0
    &&& !blank(i.key.owner_engine@)
    &&& i.key.basket_id > 0
    &&& i.key.operation_seq > 0
    &&& valid_revision_spec(i.revision)
    &&& i.registered_after_observation > 0
    &&& i.registered_before_cancel_msc > 0
    &&& i.volume_step > 0
    &&& i.orders@.len() > 0
    &&& tickets_unique(i.orders@)
    &&& forall|k: int| 0 <= k < i.orders@.len() ==> binding_valid(i, #[trigger] i.orders@[k])
}

fn valid_revision(r: PendingRevision) -> (b: bool)
    ensures
        b == valid_revision_spec(r),
{
    r.source > 0 && r.policy > 0 && r.geometry > 0
}

fn binding_ok(i: &PendingCancelIntentV1, o: &PendingOrderBindingV1) -> (b: bool)
    ensures
        b == binding_valid(*i, *o),
{
    let sl_ok = match o.sl {
        Some(v) => v > 0,
        None => true,
    };
    let tp_ok = match o.tp {
        Some(v) => v > 0,
        None => true,
    };
    o.order_ticket > 0 && o.magic > 0 && o.time_setup_msc > 0
        && o.time_setup_msc <= i.registered_before_cancel_msc && o.initial_units > 0
        && o.current_units_at_registration == o.initial_units && o.price > 0 && sl_ok && tp_ok
        && !pusty_po_przycieciu(o.symbol.as_str())
}

fn valid_intent(i: &PendingCancelIntentV1) -> (b: bool)
    ensures
        b == intent_valid(*i),
{
    let k = &i.key;
    if pusty_po_przycieciu(k.session.scope.as_str()) || k.session.generation == 0
        || pusty_po_przycieciu(k.owner_engine.as_str()) || k.basket_id == 0
        || k.operation_seq == 0 || !valid_revision(i.revision)
        || i.registered_after_observation == 0 || i.registered_before_cancel_msc <= 0
        || i.volume_step == 0 || i.orders.len() == 0 {
        return false;
    }
    let mut n: usize = 0;
    while n < i.orders.len()
        invariant
            n <= i.orders@.len(),
            forall|a: int, c: int|
                0 <= a < n && 0 <= c < n && a != c
                    ==> #[trigger] i.orders@[a].order_ticket != #[trigger] i.orders@[c].order_ticket,
            forall|a: int| 0 <= a < n ==> binding_valid(*i, #[trigger] i.orders@[a]),
        decreases i.orders@.len() - n,
    {
        if !binding_ok(i, &i.orders[n]) {
            return false;
        }
        let mut m: usize = 0;
        while m < n
            invariant
                n < i.orders@.len(),
                m <= n,
                forall|a: int| 0 <= a < m ==> i.orders@[a].order_ticket != i.orders@[n as int].order_ticket,
            decreases n - m,
        {
            if i.orders[m].order_ticket == i.orders[n].order_ticket {
                assert(!tickets_unique(i.orders@)) by {
                    assert(i.orders@[m as int].order_ticket == i.orders@[n as int].order_ticket);
                }
                return false;
            }
            m = m + 1;
        }
        n = n + 1;
    }
    true
}

/// What checking an order row against its registered binding finds:
/// `None` when the row belongs to the binding and agrees with it.
pub open spec fn order_check(o: PendingOrderRecordV1, b: PendingOrderBindingV1) -> Option<PendingReviewReason> {
    if o.order_ticket != b.order_ticket || o.symbol@ != b.symbol@ || o.magic != b.magic
        || o.kind != b.kind {
        Some(PendingReviewReason::WrongOrderScope)
    } else if o.time_setup_msc != b.time_setup_msc || o.initial_units != b.initial_units
        || o.current_units > o.initial_units {
        Some(PendingReviewReason::QuantityConflict)
    } else if !same_px(o.price, b.price) || !same_optional_px(o.sl, b.sl)
        || !same_optional_px(o.tp, b.tp) {
        Some(PendingReviewReason::GeometryConflict)
    } else {
        None
    }
}

fn same_optional_price(a: Option<u64>, b: Option<u64>) -> (r: bool)
    ensures
        r == same_optional_px(a, b),
{
    match (a, b) {
        (None, None) => true,
        (Some(x), Some(y)) => x > 0 && y > 0 && x == y,
        _ => false,
    }
}

fn check_order(o: &PendingOrderRecordV1, b: &PendingOrderBindingV1) -> (r: Result<(), PendingReviewReason>)
    ensures
        r matches Err(e) ==> order_check(*o, *b) == Some(e),
        r is Ok ==> order_check(*o, *b) is None,
{
    if o.order_ticket != b.order_ticket || o.magic != b.magic || o.kind != b.kind
        || o.symbol != b.symbol {
        return Err(PendingReviewReason::WrongOrderScope);
    }
    if o.time_setup_msc != b.time_setup_msc || o.initial_units != b.initial_units
        || o.current_units > o.initial_units {
        return Err(PendingReviewReason::QuantityConflict);
    }
    if !(o.price > 0 && b.price > 0 && o.price == b.price) || !same_optional_price(o.sl, b.sl)
        || !same_optional_price(o.tp, b.tp) {
        return Err(PendingReviewReason::GeometryConflict);
    }
    Ok(())
}


// ============================================================
//  What a complete no-fill proof requires of one observation
// ============================================================

pub open spec fn convention_supported(c: HistoricalVolumeConventionV1) -> bool {
    match c {
        HistoricalVolumeConventionV1::RemainingUnfilled { evidence_ref } => !blank(evidence_ref@),
        _ => false,
    }
}

pub open spec fn binding_has_ticket(i: PendingCancelIntentV1, t: u64) -> bool {
    exists|k: int| 0 <= k < i.orders@.len() && #[trigger] i.orders@[k].order_ticket == t
}

/// Every queried row belongs to the batch, and repeated rows of one ticket agree.
pub open spec fn rows_in_scope(i: PendingCancelIntentV1, o: PendingCancelObservationV1) -> bool {
    &&& forall|k: int| 0 <= k < o.orders@.len()
        ==> binding_has_ticket(i, #[trigger] o.orders@[k].queried_order_ticket)
    &&& forall|j: int, k: int|
        0 <= j < o.orders@.len() && 0 <= k < o.orders@.len()
            && #[trigger] o.orders@[j].queried_order_ticket == #[trigger] o.orders@[k].queried_order_ticket
            ==> o.orders@[j].same(o.orders@[k])
}

pub open spec fn row_observed(o: PendingCancelObservationV1, t: u64) -> bool {
    exists|k: int| 0 <= k < o.orders@.len() && #[trigger] o.orders@[k].queried_order_ticket == t
}

pub open spec fn every_binding_observed(i: PendingCancelIntentV1, o: PendingCancelObservationV1) -> bool {
    forall|k: int| 0 <= k < i.orders@.len() ==> row_observed(o, #[trigger] i.orders@[k].order_ticket)
}

/// The current orders were read completely and none of the batch is still live.
pub open spec fn current_orders_clear(i: PendingCancelIntentV1, o: PendingCancelObservationV1) -> bool {
    match o.current_orders {
        EvidenceRead::Complete(rows) => {
            &&& forall|k: int| 0 <= k < rows@.len() ==> (#[trigger] rows@[k]).order_ticket != 0
            &&& forall|j: int, k: int|
                0 <= j < rows@.len() && 0 <= k < rows@.len()
                    && (#[trigger] rows@[j]).order_ticket == (#[trigger] rows@[k]).order_ticket
                    ==> rows@[j].same(rows@[k])
            &&& forall|k: int| 0 <= k < rows@.len() ==> !binding_has_ticket(i, (#[trigger] rows@[k]).order_ticket)
        },
        _ => false,
    }
}

pub open spec fn receipt_clear(c: Option<PendingReceiptCutV1>) -> bool {
    match c {
        Some(PendingReceiptCutV1::Clear { required_owner_revision, consumed_owner_revision }) =>
            required_owner_revision > 0 && consumed_owner_revision >= required_owner_revision,
        _ => false,
    }
}

pub open spec fn fills_or_partial(h: PendingOrderRecordV1) -> bool {
    h.position_identifier != 0 || h.state == PendingOrderState::Partial
        || h.state == PendingOrderState::Filled || h.current_units != h.initial_units
}

/// The current-orders read raises no review: it was not a failed read, and
/// read completely it has no zero ticket, agreeing repeats, and every row of
/// the batch agrees with its binding and shows no fill.
pub open spec fn current_acceptable(i: PendingCancelIntentV1, o: PendingCancelObservationV1) -> bool {
    match o.current_orders {
        EvidenceRead::Failed => false,
        EvidenceRead::Unavailable => true,
        EvidenceRead::Complete(rows) => {
            &&& forall|k: int| 0 <= k < rows@.len() ==> (#[trigger] rows@[k]).order_ticket != 0
            &&& forall|j: int, k: int|
                0 <= j < rows@.len() && 0 <= k < rows@.len()
                    && (#[trigger] rows@[j]).order_ticket == (#[trigger] rows@[k]).order_ticket
                    ==> rows@[j].same(rows@[k])
            &&& forall|k: int, m: int|
                0 <= k < rows@.len() && 0 <= m < i.orders@.len()
                    && (#[trigger] rows@[k]).order_ticket == (#[trigger] i.orders@[m]).order_ticket
                    ==> order_check(rows@[k], i.orders@[m]) is None && !fills_or_partial(rows@[k])
        },
    }
}

/// Some order of the batch is still among the current orders.
pub open spec fn some_order_live(i: PendingCancelIntentV1, o: PendingCancelObservationV1) -> bool {
    o.current_orders matches EvidenceRead::Complete(rows)
        && exists|k: int| 0 <= k < rows@.len() && binding_has_ticket(i, (#[trigger] rows@[k]).order_ticket)
}

/// The related-positions read raises no review: not a failed read, and no
/// related position when read completely.
pub open spec fn related_acceptable(o: PendingCancelObservationV1) -> bool {
    match o.related_positions {
        EvidenceRead::Failed => false,
        EvidenceRead::Unavailable => true,
        EvidenceRead::Complete(ps) => ps@.len() == 0,
    }
}

/// The reads of the whole observation, before any single order's evidence,
/// raise no review.
pub open spec fn global_reads_acceptable(i: PendingCancelIntentV1, o: PendingCancelObservationV1) -> bool {
    &&& rows_in_scope(i, o)
    &&& current_acceptable(i, o)
    &&& related_acceptable(o)
}

/// The reason to keep waiting that the reads of the whole observation give,
/// in order of precedence; a reason found first is never replaced.
pub open spec fn global_wait(i: PendingCancelIntentV1, o: PendingCancelObservationV1) -> Option<PendingWaitReason> {
    if !o.locally_published_complete {
        Some(PendingWaitReason::IncompletePublication)
    } else if !every_binding_observed(i, o) {
        Some(PendingWaitReason::ReadUnavailable)
    } else if o.current_orders is Unavailable {
        Some(PendingWaitReason::ReadUnavailable)
    } else if some_order_live(i, o) {
        Some(PendingWaitReason::OrderStillCurrent)
    } else if o.related_positions is Unavailable {
        Some(PendingWaitReason::ReadUnavailable)
    } else if !receipt_clear(o.receipt_cut) {
        Some(PendingWaitReason::ReceiptsNotConsumed)
    } else {
        None
    }
}

/// A history record proving a cancel without fill inside the observed window.
pub open spec fn record_ok(h: PendingOrderRecordV1, i: PendingCancelIntentV1, o: PendingCancelObservationV1) -> bool {
    &&& h.position_identifier == 0
    &&& h.state == PendingOrderState::Canceled
    &&& h.current_units == h.initial_units
    &&& i.registered_before_cancel_msc <= h.time_done_msc
    &&& h.time_done_msc <= o.history_read_through_msc
}

pub open spec fn history_consistent(hs: Seq<PendingOrderRecordV1>, b: PendingOrderBindingV1) -> bool {
    &&& forall|k: int| 0 <= k < hs.len() ==> order_check(#[trigger] hs[k], b) is None
    &&& forall|j: int, k: int| 0 <= j < hs.len() && 0 <= k < hs.len() ==> (#[trigger] hs[j]).same(#[trigger] hs[k])
}

/// The order's reads show it canceled with no deal and no partial fill.
pub open spec fn row_clean(
    i: PendingCancelIntentV1,
    o: PendingCancelObservationV1,
    b: PendingOrderBindingV1,
    row: PendingOrderEvidenceV1,
) -> bool {
    &&& row.deals matches EvidenceRead::Complete(ds) && ds@.len() == 0
    &&& row.history matches EvidenceRead::Complete(hs) && hs@.len() > 0 && history_consistent(hs@, b)
        && record_ok(hs@.last(), i, o)
}

pub open spec fn binding_proved(
    i: PendingCancelIntentV1,
    o: PendingCancelObservationV1,
    b: PendingOrderBindingV1,
) -> bool {
    exists|k: int|
        0 <= k < o.orders@.len() && (#[trigger] o.orders@[k]).queried_order_ticket == b.order_ticket
            && row_clean(i, o, b, o.orders@[k])
}

pub open spec fn sum_initial(s: Seq<PendingOrderBindingV1>) -> nat
    decreases s.len(),
{
    if s.len() == 0 {
        0
    } else {
        sum_initial(s.drop_last()) + s.last().initial_units as nat
    }
}

/// Everything a VerifiedNoFill proof rests on but the total of the units.
pub open spec fn no_fill_reads(i: PendingCancelIntentV1, o: PendingCancelObservationV1) -> bool {
    &&& o.locally_published_complete
    &&& o.history_read_through_msc >= i.registered_before_cancel_msc
    &&& convention_supported(o.volume_convention)
    &&& rows_in_scope(i, o)
    &&& every_binding_observed(i, o)
    &&& current_orders_clear(i, o)
    &&& o.related_positions matches EvidenceRead::Complete(ps) && ps@.len() == 0
    &&& receipt_clear(o.receipt_cut)
    &&& forall|k: int| 0 <= k < i.orders@.len() ==> binding_proved(i, o, #[trigger] i.orders@[k])
}

/// Everything a VerifiedNoFill proof rests on, stated over one observation.
pub open spec fn no_fill_evidence(i: PendingCancelIntentV1, o: PendingCancelObservationV1) -> bool {
    &&& no_fill_reads(i, o)
    &&& sum_initial(i.orders@) <= u64::MAX
}

/// The completion time of a proved order is that of the last history record
/// of its first queried row.
pub open spec fn czas_z_historii(o: PendingCancelObservationV1, n: NoFillOrderV1) -> bool {
    exists|k: int| #[trigger] first_row_at(o, k) && o.orders@[k].queried_order_ticket == n.order_ticket
        && (o.orders@[k].history matches EvidenceRead::Complete(hs) && hs@.len() > 0
            && n.time_done_msc == hs@.last().time_done_msc)
}

/// The proof names exactly the batch, in ascending ticket order, with the
/// canceled remainders and the audit total of the registered units.
pub open spec fn proof_matches(i: PendingCancelIntentV1, o: PendingCancelObservationV1, p: PendingNoFillProofV1) -> bool {
    &&& p.schema.wersja() == 1
    &&& p.key == i.key
    &&& p.revision == i.revision
    &&& p.observation_seq == o.observation_seq
    &&& p.terminal_orders@.len() == i.orders@.len()
    &&& forall|j: int, k: int| 0 <= j < k < p.terminal_orders@.len()
        ==> (#[trigger] p.terminal_orders@[j]).order_ticket < (#[trigger] p.terminal_orders@[k]).order_ticket
    &&& forall|k: int| 0 <= k < i.orders@.len() ==> exists|j: int|
        0 <= j < p.terminal_orders@.len()
            && (#[trigger] p.terminal_orders@[j]).order_ticket == (#[trigger] i.orders@[k]).order_ticket
            && p.terminal_orders@[j].initial_units == i.orders@[k].initial_units
            && p.terminal_orders@[j].history_remaining_units == i.orders@[k].initial_units
    &&& forall|j: int| 0 <= j < p.terminal_orders@.len() ==> i.registered_before_cancel_msc
        <= (#[trigger] p.terminal_orders@[j]).time_done_msc <= o.history_read_through_msc
    &&& forall|j: int| 0 <= j < p.terminal_orders@.len() ==> czas_z_historii(o, #[trigger] p.terminal_orders@[j])
    &&& p.retired_order_units == sum_initial(i.orders@)
}


// ============================================================
//  Lemmas on field-wise equality
// ============================================================

proof fn lemma_evidence_same_refl(a: PendingOrderEvidenceV1)
    ensures
        a.same(a),
{
    match a.history {
        EvidenceRead::Complete(x) => {
            assert forall|q: int| 0 <= q < x@.len() implies #[trigger] x@[q].same(x@[q]) by {}
        },
        _ => {},
    }
    match a.deals {
        EvidenceRead::Complete(x) => {
            assert forall|q: int| 0 <= q < x@.len() implies #[trigger] x@[q].same(x@[q]) by {}
        },
        _ => {},
    }
}

proof fn lemma_evidence_same_sym(a: PendingOrderEvidenceV1, b: PendingOrderEvidenceV1)
    requires
        a.same(b),
    ensures
        b.same(a),
{
    match (a.history, b.history) {
        (EvidenceRead::Complete(x), EvidenceRead::Complete(y)) => {
            assert forall|k: int| 0 <= k < y@.len() implies #[trigger] y@[k].same(x@[k]) by {
                assert(x@[k].same(y@[k]));
            }
        },
        _ => {},
    }
    match (a.deals, b.deals) {
        (EvidenceRead::Complete(x), EvidenceRead::Complete(y)) => {
            assert forall|k: int| 0 <= k < y@.len() implies #[trigger] y@[k].same(x@[k]) by {
                assert(x@[k].same(y@[k]));
            }
        },
        _ => {},
    }
}

proof fn lemma_evidence_same_trans(a: PendingOrderEvidenceV1, b: PendingOrderEvidenceV1, c: PendingOrderEvidenceV1)
    requires
        a.same(b),
        b.same(c),
    ensures
        a.same(c),
{
    match (a.history, b.history, c.history) {
        (EvidenceRead::Complete(x), EvidenceRead::Complete(y), EvidenceRead::Complete(z)) => {
            assert forall|k: int| 0 <= k < x@.len() implies #[trigger] x@[k].same(z@[k]) by {
                assert(x@[k].same(y@[k]));
                assert(y@[k].same(z@[k]));
            }
        },
        _ => {},
    }
    match (a.deals, b.deals, c.deals) {
        (EvidenceRead::Complete(x), EvidenceRead::Complete(y), EvidenceRead::Complete(z)) => {
            assert forall|k: int| 0 <= k < x@.len() implies #[trigger] x@[k].same(z@[k]) by {
                assert(x@[k].same(y@[k]));
                assert(y@[k].same(z@[k]));
            }
        },
        _ => {},
    }
}

proof fn lemma_row_clean_same(
    i: PendingCancelIntentV1,
    o: PendingCancelObservationV1,
    b: PendingOrderBindingV1,
    r1: PendingOrderEvidenceV1,
    r2: PendingOrderEvidenceV1,
)
    requires
        r1.same(r2),
        row_clean(i, o, b, r1),
    ensures
        row_clean(i, o, b, r2),
{
    match (r1.history, r2.history) {
        (EvidenceRead::Complete(x), EvidenceRead::Complete(y)) => {
            let n = x@.len() - 1;
            assert(x@[n].same(y@[n]));
            assert forall|k: int| 0 <= k < y@.len() implies order_check(#[trigger] y@[k], b) is None by {
                assert(x@[k].same(y@[k]));
                assert(order_check(x@[k], b) is None);
            }
            assert forall|j: int, k: int| 0 <= j < y@.len() && 0 <= k < y@.len()
                implies (#[trigger] y@[j]).same(#[trigger] y@[k]) by {
                assert(x@[j].same(y@[j]));
                assert(x@[k].same(y@[k]));
                assert(x@[j].same(x@[k]));
            }
        },
        _ => {},
    }
}

// ============================================================
//  Ascending-ticket bookkeeping
// ============================================================

/// Bindings already handled once the walk has reached ticket `last`.
pub open spec fn processed(t: u64, last: Option<u64>) -> bool {
    match last {
        Some(l) => t <= l,
        None => false,
    }
}

pub open spec fn count_upto(s: Seq<PendingOrderBindingV1>, last: Option<u64>) -> nat
    decreases s.len(),
{
    if s.len() == 0 {
        0
    } else {
        count_upto(s.drop_last(), last) + if processed(s.last().order_ticket, last) { 1nat } else { 0nat }
    }
}

pub open spec fn sum_upto(s: Seq<PendingOrderBindingV1>, last: Option<u64>) -> nat
    decreases s.len(),
{
    if s.len() == 0 {
        0
    } else {
        sum_upto(s.drop_last(), last) + if processed(s.last().order_ticket, last) {
            s.last().initial_units as nat
        } else {
            0nat
        }
    }
}

pub open spec fn count_eq(s: Seq<PendingOrderBindingV1>, m: u64) -> nat
    decreases s.len(),
{
    if s.len() == 0 {
        0
    } else {
        count_eq(s.drop_last(), m) + if s.last().order_ticket == m { 1nat } else { 0nat }
    }
}

pub open spec fn sum_eq(s: Seq<PendingOrderBindingV1>, m: u64) -> nat
    decreases s.len(),
{
    if s.len() == 0 {
        0
    } else {
        sum_eq(s.drop_last(), m) + if s.last().order_ticket == m { s.last().initial_units as nat } else { 0nat }
    }
}

proof fn lemma_step_general(s: Seq<PendingOrderBindingV1>, last: Option<u64>, m: u64)
    requires
        !processed(m, last),
        forall|j: int| 0 <= j < s.len() && !processed(#[trigger] s[j].order_ticket, last)
            ==> s[j].order_ticket >= m,
    ensures
        count_upto(s, Some(m)) == count_upto(s, last) + count_eq(s, m),
        sum_upto(s, Some(m)) == sum_upto(s, last) + sum_eq(s, m),
    decreases s.len(),
{
    if s.len() > 0 {
        let t = s.drop_last();
        assert forall|j: int| 0 <= j < t.len() && !processed(#[trigger] t[j].order_ticket, last)
            implies t[j].order_ticket >= m by {
            assert(t[j] == s[j]);
        }
        lemma_step_general(t, last, m);
        let x = s.last();
        assert(s[s.len() - 1] == x);
    }
}

proof fn lemma_eq_single(s: Seq<PendingOrderBindingV1>, k: int)
    requires
        tickets_unique(s),
        0 <= k < s.len(),
    ensures
        count_eq(s, s[k].order_ticket) == 1,
        sum_eq(s, s[k].order_ticket) == s[k].initial_units,
    decreases s.len(),
{
    let m = s[k].order_ticket;
    let t = s.drop_last();
    if k == s.len() - 1 {
        assert forall|j: int| 0 <= j < t.len() implies #[trigger] t[j].order_ticket != m by {
            assert(t[j] == s[j]);
        }
        lemma_eq_absent(t, m);
    } else {
        assert forall|a: int, c: int| 0 <= a < t.len() && 0 <= c < t.len() && a != c
            implies #[trigger] t[a].order_ticket != #[trigger] t[c].order_ticket by {
            assert(t[a] == s[a] && t[c] == s[c]);
        }
        assert(t[k] == s[k]);
        lemma_eq_single(t, k);
        assert(s.last().order_ticket != m);
    }
}

proof fn lemma_eq_absent(s: Seq<PendingOrderBindingV1>, m: u64)
    requires
        forall|j: int| 0 <= j < s.len() ==> #[trigger] s[j].order_ticket != m,
    ensures
        count_eq(s, m) == 0,
        sum_eq(s, m) == 0,
    decreases s.len(),
{
    if s.len() > 0 {
        let t = s.drop_last();
        assert forall|j: int| 0 <= j < t.len() implies #[trigger] t[j].order_ticket != m by {
            assert(t[j] == s[j]);
        }
        lemma_eq_absent(t, m);
        assert(s[s.len() - 1].order_ticket != m);
    }
}

proof fn lemma_upto_bounds(s: Seq<PendingOrderBindingV1>, last: Option<u64>)
    ensures
        count_upto(s, last) <= s.len(),
        sum_upto(s, last) <= sum_initial(s),
    decreases s.len(),
{
    if s.len() > 0 {
        lemma_upto_bounds(s.drop_last(), last);
    }
}

proof fn lemma_upto_all(s: Seq<PendingOrderBindingV1>, l: u64)
    requires
        forall|j: int| 0 <= j < s.len() ==> #[trigger] s[j].order_ticket <= l,
    ensures
        count_upto(s, Some(l)) == s.len(),
        sum_upto(s, Some(l)) == sum_initial(s),
    decreases s.len(),
{
    if s.len() > 0 {
        let t = s.drop_last();
        assert forall|j: int| 0 <= j < t.len() implies #[trigger] t[j].order_ticket <= l by {
            assert(t[j] == s[j]);
        }
        lemma_upto_all(t, l);
        assert(s[s.len() - 1].order_ticket <= l);
    }
}

proof fn lemma_upto_none(s: Seq<PendingOrderBindingV1>)
    ensures
        count_upto(s, None) == 0,
        sum_upto(s, None) == 0,
    decreases s.len(),
{
    if s.len() > 0 {
        lemma_upto_none(s.drop_last());
    }
}


// ============================================================
//  Phases of one evaluation
// ============================================================

fn binding_index(i: &PendingCancelIntentV1, t: u64) -> (r: Option<usize>)
    ensures
        r matches Some(k) ==> k < i.orders@.len() && i.orders@[k as int].order_ticket == t,
        r is None ==> !binding_has_ticket(*i, t),
{
    let mut k: usize = 0;
    while k < i.orders.len()
        invariant
            k <= i.orders@.len(),
            forall|j: int| 0 <= j < k ==> #[trigger] i.orders@[j].order_ticket != t,
        decreases i.orders@.len() - k,
    {
        if i.orders[k].order_ticket == t {
            return Some(k);
        }
        k = k + 1;
    }
    None
}

/// First queried row of ticket `t` among the first `upto` rows.
fn first_row(o: &PendingCancelObservationV1, t: u64, upto: usize) -> (r: Option<usize>)
    requires
        upto <= o.orders@.len(),
    ensures
        r matches Some(k) ==> k < upto && o.orders@[k as int].queried_order_ticket == t
            && forall|j: int| 0 <= j < k ==> #[trigger] o.orders@[j].queried_order_ticket != t,
        r is None ==> forall|j: int| 0 <= j < upto ==> #[trigger] o.orders@[j].queried_order_ticket != t,
{
    let mut k: usize = 0;
    while k < upto
        invariant
            upto <= o.orders@.len(),
            k <= upto,
            forall|j: int| 0 <= j < k ==> #[trigger] o.orders@[j].queried_order_ticket != t,
        decreases upto - k,
    {
        if o.orders[k].queried_order_ticket == t {
            return Some(k);
        }
        k = k + 1;
    }
    None
}


// ============================================================
//  The review reason, check by check
// ============================================================

/// The review reason the first `n` queried rows give, the first one found
/// row by row: a row outside the batch, or a row that disagrees with an
/// earlier row of its ticket.
pub open spec fn powod_wierszy_do(i: PendingCancelIntentV1, o: PendingCancelObservationV1, n: int) -> Option<PendingReviewReason>
    decreases n,
{
    if n <= 0 {
        None
    } else {
        match powod_wierszy_do(i, o, n - 1) {
            Some(e) => Some(e),
            None => if !binding_has_ticket(i, o.orders@[n - 1].queried_order_ticket) {
                Some(PendingReviewReason::WrongOrderScope)
            } else if exists|j: int| 0 <= j < n - 1
                && #[trigger] o.orders@[j].queried_order_ticket == o.orders@[n - 1].queried_order_ticket
                && !o.orders@[j].same(o.orders@[n - 1]) {
                Some(PendingReviewReason::DuplicateConflict)
            } else {
                None
            },
        }
    }
}

/// The review reason of the queried rows.
pub open spec fn powod_wierszy(i: PendingCancelIntentV1, o: PendingCancelObservationV1) -> Option<PendingReviewReason> {
    powod_wierszy_do(i, o, o.orders@.len() as int)
}

proof fn lemma_powod_wierszy_trwa(i: PendingCancelIntentV1, o: PendingCancelObservationV1, m: int, n: int)
    requires
        0 <= m <= n,
        powod_wierszy_do(i, o, m) is Some,
    ensures
        powod_wierszy_do(i, o, n) == powod_wierszy_do(i, o, m),
    decreases n - m,
{
    if m < n {
        lemma_powod_wierszy_trwa(i, o, m, n - 1);
    }
}

/// Scope of the queried rows. `Ok(true)` also means that every registered
/// order was queried.
fn rows_check(i: &PendingCancelIntentV1, o: &PendingCancelObservationV1) -> (r: Result<bool, PendingReviewReason>)
    ensures
        r is Ok <==> rows_in_scope(*i, *o),
        r == Ok::<bool, PendingReviewReason>(true) <==> rows_in_scope(*i, *o) && every_binding_observed(*i, *o),
        r matches Err(e) ==> powod_wierszy(*i, *o) == Some(e),
        r is Ok ==> powod_wierszy(*i, *o) is None,
{
    let n = o.orders.len();
    let mut k: usize = 0;
    while k < n
        invariant
            n == o.orders@.len(),
            k <= n,
            forall|a: int| 0 <= a < k ==> binding_has_ticket(*i, #[trigger] o.orders@[a].queried_order_ticket),
            forall|a: int, c: int|
                0 <= a < k && 0 <= c < k
                    && #[trigger] o.orders@[a].queried_order_ticket == #[trigger] o.orders@[c].queried_order_ticket
                    ==> o.orders@[a].same(o.orders@[c]),
            powod_wierszy_do(*i, *o, k as int) is None,
        decreases n - k,
    {
        let t = o.orders[k].queried_order_ticket;
        if binding_index(i, t).is_none() {
            proof {
                assert(powod_wierszy_do(*i, *o, k + 1) == Some(PendingReviewReason::WrongOrderScope));
                lemma_powod_wierszy_trwa(*i, *o, k + 1, n as int);
            }
            return Err(PendingReviewReason::WrongOrderScope);
        }
        match first_row(o, t, k) {
            Some(j) => {
                if !o.orders[j].rowny(&o.orders[k]) {
                    assert(!rows_in_scope(*i, *o)) by {
                        assert(o.orders@[j as int].queried_order_ticket == o.orders@[k as int].queried_order_ticket);
                    }
                    proof {
                        assert(o.orders@[j as int].queried_order_ticket == o.orders@[k as int].queried_order_ticket);
                        assert(powod_wierszy_do(*i, *o, k + 1) == Some(PendingReviewReason::DuplicateConflict));
                        lemma_powod_wierszy_trwa(*i, *o, k + 1, n as int);
                    }
                    return Err(PendingReviewReason::DuplicateConflict);
                }
                proof {
                    let kk = k as int;
                    let jj = j as int;
                    assert forall|a: int| 0 <= a < kk
                        && #[trigger] o.orders@[a].queried_order_ticket == o.orders@[kk].queried_order_ticket
                        implies o.orders@[a].same(o.orders@[kk]) by {
                        assert(o.orders@[a].same(o.orders@[jj]));
                        lemma_evidence_same_trans(o.orders@[a], o.orders@[jj], o.orders@[kk]);
                    }
                    assert(powod_wierszy_do(*i, *o, k + 1) is None);
                }
                proof {
                    let kk = k as int;
                    let jj = j as int;
                    assert forall|a: int, c: int|
                        0 <= a < kk + 1 && 0 <= c < kk + 1
                            && #[trigger] o.orders@[a].queried_order_ticket == #[trigger] o.orders@[c].queried_order_ticket
                            implies o.orders@[a].same(o.orders@[c]) by {
                        if a == kk && c == kk {
                            lemma_evidence_same_sym(o.orders@[jj], o.orders@[kk]);
                            lemma_evidence_same_trans(o.orders@[kk], o.orders@[jj], o.orders@[kk]);
                        } else if a == kk {
                            assert(o.orders@[jj].same(o.orders@[c]));
                            lemma_evidence_same_sym(o.orders@[jj], o.orders@[kk]);
                            lemma_evidence_same_trans(o.orders@[kk], o.orders@[jj], o.orders@[c]);
                        } else if c == kk {
                            assert(o.orders@[a].same(o.orders@[jj]));
                            lemma_evidence_same_trans(o.orders@[a], o.orders@[jj], o.orders@[kk]);
                        }
                    }
                }
            },
            None => {
                proof {
                    let kk = k as int;
                    assert forall|a: int, c: int|
                        0 <= a < kk + 1 && 0 <= c < kk + 1
                            && #[trigger] o.orders@[a].queried_order_ticket == #[trigger] o.orders@[c].queried_order_ticket
                            implies o.orders@[a].same(o.orders@[c]) by {
                        if a == kk && c == kk {
                            lemma_evidence_same_refl(o.orders@[kk]);
                        }
                    }
                    assert(powod_wierszy_do(*i, *o, k + 1) is None);
                }
            },
        }
        k = k + 1;
    }
    assert(rows_in_scope(*i, *o));
    assert(powod_wierszy(*i, *o) is None);
    let mut b: usize = 0;
    while b < i.orders.len()
        invariant
            n == o.orders@.len(),
            rows_in_scope(*i, *o),
            powod_wierszy(*i, *o) is None,
            b <= i.orders@.len(),
            forall|a: int| 0 <= a < b ==> row_observed(*o, #[trigger] i.orders@[a].order_ticket),
        decreases i.orders@.len() - b,
    {
        match first_row(o, i.orders[b].order_ticket, n) {
            Some(j) => {
                assert(o.orders@[j as int].queried_order_ticket == i.orders@[b as int].order_ticket);
            },
            None => {
                assert(!every_binding_observed(*i, *o)) by {
                    assert(!row_observed(*o, i.orders@[b as int].order_ticket));
                }
                return Ok(false);
            },
        }
        b = b + 1;
    }
    Ok(true)
}


fn fill_or_partial(h: &PendingOrderRecordV1) -> (r: bool)
    ensures
        r == fills_or_partial(*h),
{
    h.position_identifier != 0 || h.state == PendingOrderState::Partial
        || h.state == PendingOrderState::Filled || h.current_units != h.initial_units
}

fn first_current(rows: &Vec<PendingOrderRecordV1>, t: u64, upto: usize) -> (r: Option<usize>)
    requires
        upto <= rows@.len(),
    ensures
        r matches Some(k) ==> k < upto && rows@[k as int].order_ticket == t,
        r is None ==> forall|j: int| 0 <= j < upto ==> #[trigger] rows@[j].order_ticket != t,
{
    let mut k: usize = 0;
    while k < upto
        invariant
            upto <= rows@.len(),
            k <= upto,
            forall|j: int| 0 <= j < k ==> #[trigger] rows@[j].order_ticket != t,
        decreases upto - k,
    {
        if rows[k].order_ticket == t {
            return Some(k);
        }
        k = k + 1;
    }
    None
}

/// The registered binding of a ticket of the batch.
pub open spec fn wiazanie_biletu(i: PendingCancelIntentV1, t: u64) -> PendingOrderBindingV1 {
    i.orders@[choose|m: int| 0 <= m < i.orders@.len() && #[trigger] i.orders@[m].order_ticket == t]
}

proof fn lemma_wiazanie_biletu(i: PendingCancelIntentV1, m: int)
    requires
        tickets_unique(i.orders@),
        0 <= m < i.orders@.len(),
    ensures
        wiazanie_biletu(i, i.orders@[m].order_ticket) == i.orders@[m],
{
    let t = i.orders@[m].order_ticket;
    assert(i.orders@[m].order_ticket == t);
    let c = choose|c: int| 0 <= c < i.orders@.len() && #[trigger] i.orders@[c].order_ticket == t;
    if c != m {
        assert(i.orders@[c].order_ticket != i.orders@[m].order_ticket);
    }
}

/// The review reason the first `n` current orders give, the first one
/// found row by row: a zero ticket, a row that disagrees with an earlier row
/// of its ticket, or a row of the batch that disagrees with its binding or
/// shows a fill.
pub open spec fn powod_biezacych_do(i: PendingCancelIntentV1, rows: Seq<PendingOrderRecordV1>, n: int) -> Option<PendingReviewReason>
    decreases n,
{
    if n <= 0 {
        None
    } else {
        match powod_biezacych_do(i, rows, n - 1) {
            Some(e) => Some(e),
            None => if rows[n - 1].order_ticket == 0 {
                Some(PendingReviewReason::MalformedEvidence)
            } else if exists|j: int| 0 <= j < n - 1 && #[trigger] rows[j].order_ticket == rows[n - 1].order_ticket
                && !rows[j].same(rows[n - 1]) {
                Some(PendingReviewReason::DuplicateConflict)
            } else if binding_has_ticket(i, rows[n - 1].order_ticket) {
                match order_check(rows[n - 1], wiazanie_biletu(i, rows[n - 1].order_ticket)) {
                    Some(e) => Some(e),
                    None => if fills_or_partial(rows[n - 1]) {
                        Some(PendingReviewReason::FillOrPartialObserved)
                    } else {
                        None
                    },
                }
            } else {
                None
            },
        }
    }
}

proof fn lemma_powod_biezacych_trwa(i: PendingCancelIntentV1, rows: Seq<PendingOrderRecordV1>, m: int, n: int)
    requires
        0 <= m <= n,
        powod_biezacych_do(i, rows, m) is Some,
    ensures
        powod_biezacych_do(i, rows, n) == powod_biezacych_do(i, rows, m),
    decreases n - m,
{
    if m < n {
        lemma_powod_biezacych_trwa(i, rows, m, n - 1);
    }
}

/// The review reason of the current-orders read.
pub open spec fn powod_biezacych(i: PendingCancelIntentV1, o: PendingCancelObservationV1) -> Option<PendingReviewReason> {
    match o.current_orders {
        EvidenceRead::Failed => Some(PendingReviewReason::ReadFailed),
        EvidenceRead::Unavailable => None,
        EvidenceRead::Complete(rows) => powod_biezacych_do(i, rows@, rows@.len() as int),
    }
}

/// The review reason of the related-positions read: a failed read, a
/// position outside the batch, or any related position at all.
pub open spec fn powod_pozycji(i: PendingCancelIntentV1, o: PendingCancelObservationV1) -> Option<PendingReviewReason> {
    match o.related_positions {
        EvidenceRead::Failed => Some(PendingReviewReason::ReadFailed),
        EvidenceRead::Unavailable => None,
        EvidenceRead::Complete(ps) => if ps@.len() == 0 {
            None
        } else if !binding_has_ticket(i, ps@[0].order_ticket) || ps@[0].position_identifier == 0 {
            Some(PendingReviewReason::WrongOrderScope)
        } else {
            Some(PendingReviewReason::FillOrPartialObserved)
        },
    }
}

/// The current-orders read. `Ok(Some(w))` is a reason to keep waiting.
fn current_check(i: &PendingCancelIntentV1, o: &PendingCancelObservationV1) -> (r: Result<Option<PendingWaitReason>, PendingReviewReason>)
    requires
        tickets_unique(i.orders@),
    ensures
        r == Ok::<Option<PendingWaitReason>, PendingReviewReason>(None) <==> current_orders_clear(*i, *o),
        o.current_orders is Failed ==> r == Err::<Option<PendingWaitReason>, PendingReviewReason>(PendingReviewReason::ReadFailed),
        r is Ok <==> current_acceptable(*i, *o),
        r matches Ok(w) ==> w == (if o.current_orders is Unavailable {
            Some(PendingWaitReason::ReadUnavailable)
        } else if some_order_live(*i, *o) {
            Some(PendingWaitReason::OrderStillCurrent)
        } else {
            None::<PendingWaitReason>
        }),
        r matches Err(e) ==> powod_biezacych(*i, *o) == Some(e),
        r is Ok ==> powod_biezacych(*i, *o) is None,
{
    match &o.current_orders {
        EvidenceRead::Failed => Err(PendingReviewReason::ReadFailed),
        EvidenceRead::Unavailable => Ok(Some(PendingWaitReason::ReadUnavailable)),
        EvidenceRead::Complete(rows) => {
            let mut live = false;
            let mut k: usize = 0;
            while k < rows.len()
                invariant
                    o.current_orders == EvidenceRead::Complete(*rows),
                    k <= rows@.len(),
                    forall|a: int| 0 <= a < k ==> (#[trigger] rows@[a]).order_ticket != 0,
                    forall|a: int, c: int|
                        0 <= a < k && 0 <= c < k && (#[trigger] rows@[a]).order_ticket == (#[trigger] rows@[c]).order_ticket
                            ==> rows@[a].same(rows@[c]),
                    live <==> exists|a: int| 0 <= a < k && binding_has_ticket(*i, (#[trigger] rows@[a]).order_ticket),
                    tickets_unique(i.orders@),
                    forall|a: int, m: int|
                        0 <= a < k && 0 <= m < i.orders@.len()
                            && (#[trigger] rows@[a]).order_ticket == (#[trigger] i.orders@[m]).order_ticket
                            ==> order_check(rows@[a], i.orders@[m]) is None && !fills_or_partial(rows@[a]),
                    powod_biezacych_do(*i, rows@, k as int) is None,
                decreases rows@.len() - k,
            {
                let row = &rows[k];
                let ghost kk = k as int;
                if row.order_ticket == 0 {
                    proof {
                        assert(powod_biezacych_do(*i, rows@, kk + 1) == Some(PendingReviewReason::MalformedEvidence));
                        lemma_powod_biezacych_trwa(*i, rows@, kk + 1, rows@.len() as int);
                    }
                    return Err(PendingReviewReason::MalformedEvidence);
                }
                match first_current(rows, row.order_ticket, k) {
                    Some(j) => {
                        if !rows[j].rowny(row) {
                            assert(!current_orders_clear(*i, *o)) by {
                                assert(rows@[j as int].order_ticket == rows@[k as int].order_ticket);
                            }
                            proof {
                                assert(rows@[j as int].order_ticket == rows@[kk].order_ticket);
                                assert(powod_biezacych_do(*i, rows@, kk + 1) == Some(PendingReviewReason::DuplicateConflict));
                                lemma_powod_biezacych_trwa(*i, rows@, kk + 1, rows@.len() as int);
                            }
                            return Err(PendingReviewReason::DuplicateConflict);
                        }
                        proof {
                            assert forall|a: int| 0 <= a < kk && #[trigger] rows@[a].order_ticket == rows@[kk].order_ticket
                                implies rows@[a].same(rows@[kk]) by {
                                assert(rows@[a].same(rows@[j as int]));
                            }
                        }
                    },
                    None => {},
                }
                assert(!exists|a: int| 0 <= a < kk && #[trigger] rows@[a].order_ticket == rows@[kk].order_ticket
                    && !rows@[a].same(rows@[kk]));
                match binding_index(i, row.order_ticket) {
                    Some(bi) => {
                        proof {
                            lemma_wiazanie_biletu(*i, bi as int);
                            assert(binding_has_ticket(*i, rows@[kk].order_ticket));
                        }
                        let c = check_order(row, &i.orders[bi]);
                        if c.is_err() {
                            proof {
                                lemma_powod_biezacych_trwa(*i, rows@, kk + 1, rows@.len() as int);
                            }
                            assert(!current_acceptable(*i, *o)) by {
                                assert(rows@[k as int].order_ticket == i.orders@[bi as int].order_ticket);
                            }
                            return Err(match c {
                                Err(e) => e,
                                Ok(_) => PendingReviewReason::MalformedEvidence,
                            });
                        }
                        if fill_or_partial(row) {
                            assert(!current_acceptable(*i, *o)) by {
                                assert(rows@[k as int].order_ticket == i.orders@[bi as int].order_ticket);
                            }
                            proof {
                                lemma_powod_biezacych_trwa(*i, rows@, kk + 1, rows@.len() as int);
                            }
                            return Err(PendingReviewReason::FillOrPartialObserved);
                        }
                        proof {
                            assert forall|m: int| 0 <= m < i.orders@.len()
                                && rows@[k as int].order_ticket == (#[trigger] i.orders@[m]).order_ticket
                                implies m == bi as int by {
                                if m != bi as int {
                                    assert(i.orders@[m].order_ticket != i.orders@[bi as int].order_ticket);
                                }
                            }
                        }
                        live = true;
                    },
                    None => {
                        proof {
                            assert forall|m: int| 0 <= m < i.orders@.len()
                                implies rows@[k as int].order_ticket != (#[trigger] i.orders@[m]).order_ticket by {
                                if rows@[k as int].order_ticket == i.orders@[m].order_ticket {
                                    assert(binding_has_ticket(*i, rows@[k as int].order_ticket));
                                }
                            }
                        }
                    },
                }
                k = k + 1;
            }
            assert(powod_biezacych(*i, *o) is None);
            if live {
                Ok(Some(PendingWaitReason::OrderStillCurrent))
            } else {
                Ok(None)
            }
        },
    }
}

/// The related-positions read: any related position disproves no-fill.
fn related_check(i: &PendingCancelIntentV1, o: &PendingCancelObservationV1) -> (r: Result<Option<PendingWaitReason>, PendingReviewReason>)
    ensures
        r == Ok::<Option<PendingWaitReason>, PendingReviewReason>(None)
            <==> (o.related_positions matches EvidenceRead::Complete(ps) && ps@.len() == 0),
        o.related_positions matches EvidenceRead::Complete(ps) && ps@.len() > 0 ==> r is Err,
        r is Ok <==> related_acceptable(*o),
        r matches Ok(w) ==> w == (if o.related_positions is Unavailable {
            Some(PendingWaitReason::ReadUnavailable)
        } else {
            None::<PendingWaitReason>
        }),
        r matches Err(e) ==> powod_pozycji(*i, *o) == Some(e),
        r is Ok ==> powod_pozycji(*i, *o) is None,
{
    match &o.related_positions {
        EvidenceRead::Failed => Err(PendingReviewReason::ReadFailed),
        EvidenceRead::Unavailable => Ok(Some(PendingWaitReason::ReadUnavailable)),
        EvidenceRead::Complete(rows) => {
            if rows.len() > 0 {
                let p = &rows[0];
                if binding_index(i, p.order_ticket).is_none() || p.position_identifier == 0 {
                    return Err(PendingReviewReason::WrongOrderScope);
                }
                // Even a zero-volume/already-closed related position disproves no-fill.
                return Err(PendingReviewReason::FillOrPartialObserved);
            }
            Ok(None)
        },
    }
}


pub open spec fn row_deals_empty(row: PendingOrderEvidenceV1) -> bool {
    row.deals matches EvidenceRead::Complete(ds) && ds@.len() == 0
}

/// A deal as the evidence of one registered order must show it.
pub open spec fn deal_ok(d: PendingDealV1, b: PendingOrderBindingV1) -> bool {
    &&& d.order_ticket == b.order_ticket
    &&& d.deal_ticket != 0
    &&& d.position_identifier != 0
    &&& d.symbol@ == b.symbol@
    &&& d.magic == b.magic
    &&& d.entry <= 3
    &&& d.volume_units != 0
    &&& d.time_msc >= b.time_setup_msc
}

/// The deals read for a row; none when the read was not complete.
pub open spec fn row_deals(row: PendingOrderEvidenceV1) -> Seq<PendingDealV1> {
    match row.deals {
        EvidenceRead::Complete(ds) => ds@,
        _ => Seq::empty(),
    }
}

/// What the history of one order shows against its binding that calls for
/// review: disagreeing records, a deal without history, or a last record
/// that shows a fill, ended in another final state, or ended outside the
/// observed window.
pub open spec fn history_review(
    i: PendingCancelIntentV1,
    o: PendingCancelObservationV1,
    b: PendingOrderBindingV1,
    hs: Seq<PendingOrderRecordV1>,
    deal: bool,
) -> bool {
    ||| !history_consistent(hs, b)
    ||| (hs.len() == 0 && deal)
    ||| (hs.len() > 0 && (deal || fills_or_partial(hs.last()) || (terminal_state(hs.last().state) && (
        hs.last().state != PendingOrderState::Canceled
            || hs.last().time_done_msc < i.registered_before_cancel_msc
            || hs.last().time_done_msc > o.history_read_through_msc))))
}

/// What the reads of one order call for review on, deals of other orders
/// aside: a failed read, a deal outside the order, a deal with no history,
/// or a history review.
pub open spec fn row_review(
    i: PendingCancelIntentV1,
    o: PendingCancelObservationV1,
    b: PendingOrderBindingV1,
    row: PendingOrderEvidenceV1,
) -> bool {
    ||| row.deals is Failed
    ||| exists|a: int| 0 <= a < row_deals(row).len() && !deal_ok(#[trigger] row_deals(row)[a], b)
    ||| row.history is Failed
    ||| (row.history is Unavailable && row_deals(row).len() > 0)
    ||| (row.history matches EvidenceRead::Complete(hs) && history_review(i, o, b, hs@, row_deals(row).len() > 0))
}

/// A deal of the row disagrees with a stored deal of its ticket, or with an
/// earlier deal of the row.
pub open spec fn deal_conflict_with(stored: Seq<PendingDealV1>, row: PendingOrderEvidenceV1) -> bool {
    exists|a: int| #![trigger row_deals(row)[a]] 0 <= a < row_deals(row).len() && (
        (exists|p: int| 0 <= p < stored.len() && (#[trigger] stored[p]).deal_ticket == row_deals(row)[a].deal_ticket
            && !stored[p].same(row_deals(row)[a]))
        || (exists|c: int| 0 <= c < a && (#[trigger] row_deals(row)[c]).deal_ticket == row_deals(row)[a].deal_ticket
            && !row_deals(row)[c].same(row_deals(row)[a])))
}

/// A deal is stored: a stored deal of its ticket agrees with it.
pub open spec fn deal_stored(stored: Seq<PendingDealV1>, d: PendingDealV1) -> bool {
    exists|p: int| 0 <= p < stored.len() && (#[trigger] stored[p]).deal_ticket == d.deal_ticket && stored[p].same(d)
}

pub open spec fn deal_tickets_unique(stored: Seq<PendingDealV1>) -> bool {
    forall|p: int, q: int| 0 <= p < q < stored.len() ==> (#[trigger] stored[p]).deal_ticket != (#[trigger] stored[q]).deal_ticket
}

fn deal_in_scope(d: &PendingDealV1, t: u64, b: &PendingOrderBindingV1) -> (r: bool)
    ensures
        r == (d.order_ticket == t && d.deal_ticket != 0 && d.position_identifier != 0
            && d.symbol@ == b.symbol@ && d.magic == b.magic && d.entry <= 3 && d.volume_units != 0
            && d.time_msc >= b.time_setup_msc),
{
    d.order_ticket == t && d.deal_ticket != 0 && d.position_identifier != 0 && d.magic == b.magic
        && d.entry <= 3 && d.volume_units != 0 && d.time_msc >= b.time_setup_msc && d.symbol == b.symbol
}

fn seen_deal(all: &Vec<PendingDealV1>, t: u64) -> (r: Option<usize>)
    ensures
        r matches Some(k) ==> k < all@.len() && all@[k as int].deal_ticket == t,
        r is None ==> forall|p: int| 0 <= p < all@.len() ==> (#[trigger] all@[p]).deal_ticket != t,
{
    let mut k: usize = 0;
    while k < all.len()
        invariant
            k <= all@.len(),
            forall|p: int| 0 <= p < k ==> (#[trigger] all@[p]).deal_ticket != t,
        decreases all@.len() - k,
    {
        if all[k].deal_ticket == t {
            return Some(k);
        }
        k = k + 1;
    }
    None
}

fn clone_deal(d: &PendingDealV1) -> (r: PendingDealV1)
    ensures
        r == *d,
{
    PendingDealV1 {
        deal_ticket: d.deal_ticket,
        order_ticket: d.order_ticket,
        position_identifier: d.position_identifier,
        symbol: d.symbol.clone(),
        magic: d.magic,
        entry: d.entry,
        volume_units: d.volume_units,
        time_msc: d.time_msc,
    }
}

/// A deal of an order walked before ticket `t`: a deal of the first queried
/// row of a smaller ticket.
pub open spec fn transakcja_wczesniej(o: PendingCancelObservationV1, t: u64, d: PendingDealV1) -> bool {
    exists|k: int, a: int|
        first_row_at(o, k) && o.orders@[k].queried_order_ticket < t
            && 0 <= a < row_deals(o.orders@[k]).len() && #[trigger] row_deals(o.orders@[k])[a] == d
}

/// Deal `a` of the deals read for ticket `t` disagrees with an earlier deal
/// of the same deal ticket: earlier in the same read, or of an order walked
/// before.
pub open spec fn konflikt_transakcji(o: PendingCancelObservationV1, t: u64, ds: Seq<PendingDealV1>, a: int) -> bool {
    ||| exists|c: int| 0 <= c < a && #[trigger] ds[c].deal_ticket == ds[a].deal_ticket && !ds[c].same(ds[a])
    ||| exists|d: PendingDealV1| #[trigger] transakcja_wczesniej(o, t, d) && d.deal_ticket == ds[a].deal_ticket
        && !d.same(ds[a])
}

/// The review reason the first `n` deals read for an order give, the first
/// one found deal by deal: a deal outside the order, or a disagreeing one.
pub open spec fn powod_transakcji_do(
    o: PendingCancelObservationV1,
    b: PendingOrderBindingV1,
    ds: Seq<PendingDealV1>,
    n: int,
) -> Option<PendingReviewReason>
    decreases n,
{
    if n <= 0 {
        None
    } else {
        match powod_transakcji_do(o, b, ds, n - 1) {
            Some(e) => Some(e),
            None => if !deal_ok(ds[n - 1], b) {
                Some(PendingReviewReason::WrongOrderScope)
            } else if konflikt_transakcji(o, b.order_ticket, ds, n - 1) {
                Some(PendingReviewReason::DuplicateConflict)
            } else {
                None
            },
        }
    }
}

proof fn lemma_powod_transakcji_trwa(o: PendingCancelObservationV1, b: PendingOrderBindingV1, ds: Seq<PendingDealV1>, m: int, n: int)
    requires
        0 <= m <= n,
        powod_transakcji_do(o, b, ds, m) is Some,
    ensures
        powod_transakcji_do(o, b, ds, n) == powod_transakcji_do(o, b, ds, m),
    decreases n - m,
{
    if m < n {
        lemma_powod_transakcji_trwa(o, b, ds, m, n - 1);
    }
}

/// The review reason the first `n` history records of an order give, the
/// first one found record by record: a record that disagrees with the
/// binding, or with the record before it.
pub open spec fn powod_rekordow_do(b: PendingOrderBindingV1, hs: Seq<PendingOrderRecordV1>, n: int) -> Option<PendingReviewReason>
    decreases n,
{
    if n <= 0 {
        None
    } else {
        match powod_rekordow_do(b, hs, n - 1) {
            Some(e) => Some(e),
            None => match order_check(hs[n - 1], b) {
                Some(e) => Some(e),
                None => if n - 1 > 0 && !hs[n - 2].same(hs[n - 1]) {
                    Some(PendingReviewReason::DuplicateConflict)
                } else {
                    None
                },
            },
        }
    }
}

proof fn lemma_powod_rekordow_trwa(b: PendingOrderBindingV1, hs: Seq<PendingOrderRecordV1>, m: int, n: int)
    requires
        0 <= m <= n,
        powod_rekordow_do(b, hs, m) is Some,
    ensures
        powod_rekordow_do(b, hs, n) == powod_rekordow_do(b, hs, m),
    decreases n - m,
{
    if m < n {
        lemma_powod_rekordow_trwa(b, hs, m, n - 1);
    }
}

/// The review reason of an order's history read, its deals read being
/// clean: a failed read; deals with no history; disagreeing records; or a
/// last record that shows a fill or a deal, ended in another final state,
/// or ended outside the observed window.
pub open spec fn powod_historii(
    i: PendingCancelIntentV1,
    o: PendingCancelObservationV1,
    b: PendingOrderBindingV1,
    row: PendingOrderEvidenceV1,
) -> Option<PendingReviewReason> {
    let deal = row_deals(row).len() > 0;
    match row.history {
        EvidenceRead::Failed => Some(PendingReviewReason::ReadFailed),
        EvidenceRead::Unavailable => if deal { Some(PendingReviewReason::FillOrPartialObserved) } else { None },
        EvidenceRead::Complete(hs) => match powod_rekordow_do(b, hs@, hs@.len() as int) {
            Some(e) => Some(e),
            None => if hs@.len() == 0 {
                if deal { Some(PendingReviewReason::FillOrPartialObserved) } else { None }
            } else if deal || fills_or_partial(hs@.last()) {
                Some(PendingReviewReason::FillOrPartialObserved)
            } else if !terminal_state(hs@.last().state) {
                None
            } else if hs@.last().state != PendingOrderState::Canceled {
                Some(PendingReviewReason::UnsupportedFinalState)
            } else if hs@.last().time_done_msc < i.registered_before_cancel_msc
                || hs@.last().time_done_msc > o.history_read_through_msc {
                Some(PendingReviewReason::MalformedEvidence)
            } else {
                None
            },
        },
    }
}

/// The review reason of the reads of one order: its deals, then its history.
pub open spec fn powod_kroku(
    i: PendingCancelIntentV1,
    o: PendingCancelObservationV1,
    b: PendingOrderBindingV1,
    row: PendingOrderEvidenceV1,
) -> Option<PendingReviewReason> {
    if row.deals is Failed {
        Some(PendingReviewReason::ReadFailed)
    } else {
        match powod_transakcji_do(o, b, row_deals(row), row_deals(row).len() as int) {
            Some(e) => Some(e),
            None => powod_historii(i, o, b, row),
        }
    }
}

/// The reads of one order prove a canceled order: no review is owed and
/// the last history record is canceled.
pub open spec fn wiersz_daje_anulowanie(
    i: PendingCancelIntentV1,
    o: PendingCancelObservationV1,
    b: PendingOrderBindingV1,
    row: PendingOrderEvidenceV1,
) -> bool {
    &&& powod_kroku(i, o, b, row) is None
    &&& row.history matches EvidenceRead::Complete(hs) && hs@.len() > 0
        && hs@.last().state == PendingOrderState::Canceled
}

/// One registered order against its first queried row. The result is the
/// reason to keep waiting, if any, and the proved cancel, if any.
fn binding_step(
    i: &PendingCancelIntentV1,
    o: &PendingCancelObservationV1,
    b: &PendingOrderBindingV1,
    row: &PendingOrderEvidenceV1,
    all_deals: &mut Vec<PendingDealV1>,
) -> (r: Result<(Option<PendingWaitReason>, Option<NoFillOrderV1>), PendingReviewReason>)
    requires
        row.queried_order_ticket == b.order_ticket,
        deal_tickets_unique(old(all_deals)@),
        forall|p: int| 0 <= p < old(all_deals)@.len() ==> transakcja_wczesniej(*o, b.order_ticket, #[trigger] old(all_deals)@[p]),
        forall|d: PendingDealV1| #[trigger] transakcja_wczesniej(*o, b.order_ticket, d) ==> deal_stored(old(all_deals)@, d),
    ensures
        r matches Err(e) ==> powod_kroku(*i, *o, *b, *row) == Some(e),
        r is Ok ==> powod_kroku(*i, *o, *b, *row) is None,
        r matches Ok((_, nf)) ==> (nf is Some <==> wiersz_daje_anulowanie(*i, *o, *b, *row)),
        r matches Ok((_, Some(nf))) ==> (row.history matches EvidenceRead::Complete(hs) && hs@.len() > 0
            && nf.time_done_msc == hs@.last().time_done_msc),
        (r matches Ok((None, Some(_)))) <==> row_clean(*i, *o, *b, *row),
        r matches Ok((None, x)) ==> x is Some,
        r matches Ok((_, Some(nf))) ==> nf.order_ticket == b.order_ticket && nf.initial_units == b.initial_units
            && i.registered_before_cancel_msc <= nf.time_done_msc <= o.history_read_through_msc,
        row_clean(*i, *o, *b, *row) ==> final(all_deals)@ == old(all_deals)@,
        r matches Ok((None, Some(nf))) ==> nf.history_remaining_units == b.initial_units,
        r is Err ==> row_review(*i, *o, *b, *row) || deal_conflict_with(old(all_deals)@, *row),
        row_review(*i, *o, *b, *row) ==> r is Err,
        r is Ok ==> {
            &&& final(all_deals)@.len() >= old(all_deals)@.len()
            &&& final(all_deals)@.take(old(all_deals)@.len() as int) == old(all_deals)@
            &&& forall|p: int| old(all_deals)@.len() <= p < final(all_deals)@.len() ==> exists|c: int|
                0 <= c < row_deals(*row).len() && #[trigger] final(all_deals)@[p] == row_deals(*row)[c]
            &&& forall|c: int| 0 <= c < row_deals(*row).len() ==> deal_stored(final(all_deals)@, #[trigger] row_deals(*row)[c])
            &&& deal_tickets_unique(old(all_deals)@) ==> deal_tickets_unique(final(all_deals)@)
        },
{
    let t = b.order_ticket;
    let mut wait: Option<PendingWaitReason> = None;
    let mut has_deal = false;
    match &row.deals {
        EvidenceRead::Failed => {
            return Err(PendingReviewReason::ReadFailed);
        },
        EvidenceRead::Unavailable => {
            wait = Some(PendingWaitReason::ReadUnavailable);
        },
        EvidenceRead::Complete(ds) => {
            let mut k: usize = 0;
            let ghost n0 = old(all_deals)@.len() as int;
            assert(row_deals(*row) == ds@);
            assert(all_deals@.take(n0) =~= old(all_deals)@);
            while k < ds.len()
                invariant
                    row.deals == EvidenceRead::Complete(*ds),
                    row_deals(*row) == ds@,
                    t == b.order_ticket,
                    n0 == old(all_deals)@.len(),
                    k <= ds@.len(),
                    has_deal == (k > 0),
                    k == 0 ==> all_deals@ == old(all_deals)@,
                    all_deals@.len() >= n0,
                    all_deals@.take(n0) == old(all_deals)@,
                    forall|p: int| n0 <= p < all_deals@.len() ==> exists|c: int|
                        0 <= c < k && #[trigger] all_deals@[p] == ds@[c],
                    forall|c: int| 0 <= c < k ==> deal_stored(all_deals@, #[trigger] ds@[c]),
                    deal_tickets_unique(old(all_deals)@) ==> deal_tickets_unique(all_deals@),
                    forall|c: int| 0 <= c < k ==> deal_ok(#[trigger] ds@[c], *b),
                    deal_tickets_unique(old(all_deals)@),
                    forall|p: int| 0 <= p < old(all_deals)@.len() ==> transakcja_wczesniej(*o, b.order_ticket, #[trigger] old(all_deals)@[p]),
                    forall|d: PendingDealV1| #[trigger] transakcja_wczesniej(*o, b.order_ticket, d) ==> deal_stored(old(all_deals)@, d),
                    powod_transakcji_do(*o, *b, ds@, k as int) is None,
                decreases ds@.len() - k,
            {
                let d = &ds[k];
                let ghost kk = k as int;
                if !deal_in_scope(d, t, b) {
                    assert(!deal_ok(row_deals(*row)[k as int], *b));
                    proof {
                        assert(powod_transakcji_do(*o, *b, ds@, kk + 1) == Some(PendingReviewReason::WrongOrderScope));
                        lemma_powod_transakcji_trwa(*o, *b, ds@, kk + 1, ds@.len() as int);
                    }
                    return Err(PendingReviewReason::WrongOrderScope);
                }
                let ghost przed = all_deals@;
                match seen_deal(all_deals, d.deal_ticket) {
                    Some(j) => {
                        if !all_deals[j].rowny(d) {
                            proof {
                                let kk = k as int;
                                if (j as int) < n0 {
                                    assert(old(all_deals)@[j as int] == all_deals@.take(n0)[j as int]);
                                    assert(old(all_deals)@[j as int].deal_ticket == row_deals(*row)[kk].deal_ticket
                                        && !old(all_deals)@[j as int].same(row_deals(*row)[kk]));
                                } else {
                                    let c = choose|c: int| 0 <= c < kk && #[trigger] all_deals@[j as int] == ds@[c];
                                    assert(row_deals(*row)[c].deal_ticket == row_deals(*row)[kk].deal_ticket
                                        && !row_deals(*row)[c].same(row_deals(*row)[kk]));
                                }
                                assert(deal_conflict_with(old(all_deals)@, *row));
                                if (j as int) < n0 {
                                    let dd = old(all_deals)@[j as int];
                                    assert(transakcja_wczesniej(*o, b.order_ticket, dd));
                                    assert(dd.deal_ticket == ds@[kk].deal_ticket && !dd.same(ds@[kk]));
                                } else {
                                    let c = choose|c: int| 0 <= c < kk && #[trigger] all_deals@[j as int] == ds@[c];
                                    assert(ds@[c].deal_ticket == ds@[kk].deal_ticket && !ds@[c].same(ds@[kk]));
                                }
                                assert(konflikt_transakcji(*o, b.order_ticket, ds@, kk));
                                assert(powod_transakcji_do(*o, *b, ds@, kk + 1) == Some(PendingReviewReason::DuplicateConflict));
                                lemma_powod_transakcji_trwa(*o, *b, ds@, kk + 1, ds@.len() as int);
                            }
                            return Err(PendingReviewReason::DuplicateConflict);
                        }
                        proof {
                            assert(deal_stored(all_deals@, ds@[k as int])) by {
                                assert(all_deals@[j as int].deal_ticket == ds@[k as int].deal_ticket);
                            }
                            assert forall|c: int| 0 <= c < kk && #[trigger] ds@[c].deal_ticket == ds@[kk].deal_ticket
                                implies ds@[c].same(ds@[kk]) by {
                                assert(deal_stored(all_deals@, ds@[c]));
                                let q = choose|q: int| 0 <= q < all_deals@.len() && (#[trigger] all_deals@[q]).deal_ticket == ds@[c].deal_ticket
                                    && all_deals@[q].same(ds@[c]);
                                if q != j as int {
                                    if q < j as int {
                                        assert(all_deals@[q].deal_ticket != all_deals@[j as int].deal_ticket);
                                    } else {
                                        assert(all_deals@[j as int].deal_ticket != all_deals@[q].deal_ticket);
                                    }
                                }
                            }
                            assert forall|dd: PendingDealV1| #[trigger] transakcja_wczesniej(*o, b.order_ticket, dd)
                                && dd.deal_ticket == ds@[kk].deal_ticket implies dd.same(ds@[kk]) by {
                                assert(deal_stored(old(all_deals)@, dd));
                                let q = choose|q: int| 0 <= q < old(all_deals)@.len() && (#[trigger] old(all_deals)@[q]).deal_ticket == dd.deal_ticket
                                    && old(all_deals)@[q].same(dd);
                                assert(all_deals@[q] == all_deals@.take(n0)[q]);
                                assert(all_deals@[q] == old(all_deals)@[q]);
                                if q != j as int {
                                    if q < j as int {
                                        assert(all_deals@[q].deal_ticket != all_deals@[j as int].deal_ticket);
                                    } else {
                                        assert(all_deals@[j as int].deal_ticket != all_deals@[q].deal_ticket);
                                    }
                                }
                            }
                            assert(!konflikt_transakcji(*o, b.order_ticket, ds@, kk));
                            assert(powod_transakcji_do(*o, *b, ds@, kk + 1) is None);
                        }
                    },
                    None => {
                        proof {
                            assert forall|c: int| 0 <= c < kk implies #[trigger] ds@[c].deal_ticket != ds@[kk].deal_ticket by {
                                assert(deal_stored(all_deals@, ds@[c]));
                                let q = choose|q: int| 0 <= q < all_deals@.len() && (#[trigger] all_deals@[q]).deal_ticket == ds@[c].deal_ticket
                                    && all_deals@[q].same(ds@[c]);
                            }
                            assert forall|dd: PendingDealV1| #[trigger] transakcja_wczesniej(*o, b.order_ticket, dd)
                                implies dd.deal_ticket != ds@[kk].deal_ticket by {
                                assert(deal_stored(old(all_deals)@, dd));
                                let q = choose|q: int| 0 <= q < old(all_deals)@.len() && (#[trigger] old(all_deals)@[q]).deal_ticket == dd.deal_ticket
                                    && old(all_deals)@[q].same(dd);
                                assert(all_deals@[q] == all_deals@.take(n0)[q]);
                            }
                            assert(!konflikt_transakcji(*o, b.order_ticket, ds@, kk));
                            assert(powod_transakcji_do(*o, *b, ds@, kk + 1) is None);
                        }
                        all_deals.push(clone_deal(d));
                        proof {
                            let kk = k as int;
                            assert(all_deals@.take(n0) =~= przed.take(n0));
                            assert forall|p: int| n0 <= p < all_deals@.len() implies exists|c: int|
                                0 <= c < kk + 1 && #[trigger] all_deals@[p] == ds@[c] by {
                                if p < przed.len() {
                                    assert(all_deals@[p] == przed[p]);
                                } else {
                                    assert(all_deals@[p] == ds@[kk]);
                                }
                            }
                            assert forall|c: int| 0 <= c < kk + 1 implies deal_stored(all_deals@, #[trigger] ds@[c]) by {
                                if c < kk {
                                    let q = choose|q: int| 0 <= q < przed.len() && (#[trigger] przed[q]).deal_ticket == ds@[c].deal_ticket
                                        && przed[q].same(ds@[c]);
                                    assert(all_deals@[q] == przed[q]);
                                } else {
                                    assert(all_deals@[przed.len() as int] == ds@[kk]);
                                }
                            }
                            if deal_tickets_unique(old(all_deals)@) {
                                assert forall|p: int, q: int| 0 <= p < q < all_deals@.len()
                                    implies (#[trigger] all_deals@[p]).deal_ticket != (#[trigger] all_deals@[q]).deal_ticket by {
                                    if q == przed.len() {
                                        assert(all_deals@[p] == przed[p]);
                                    } else {
                                        assert(all_deals@[p] == przed[p] && all_deals@[q] == przed[q]);
                                    }
                                }
                            }
                        }
                    },
                }
                proof {
                    assert forall|p: int| n0 <= p < all_deals@.len() implies exists|c: int|
                        0 <= c < k + 1 && #[trigger] all_deals@[p] == ds@[c] by {
                        let c = choose|c: int| 0 <= c < k + 1 && #[trigger] all_deals@[p] == ds@[c];
                    }
                }
                has_deal = true;
                k = k + 1;
            }
        },
    }
    assert(powod_transakcji_do(*o, *b, row_deals(*row), row_deals(*row).len() as int) is None || row.deals is Failed);
    let ghost deals_empty = row_deals_empty(*row);
    assert(deals_empty <==> (wait is None && !has_deal));
    assert(deals_empty ==> all_deals@ == old(all_deals)@);
    match &row.history {
        EvidenceRead::Failed => Err(PendingReviewReason::ReadFailed),
        EvidenceRead::Unavailable => {
            if has_deal {
                return Err(PendingReviewReason::FillOrPartialObserved);
            }
            Ok((Some(PendingWaitReason::ReadUnavailable), None))
        },
        EvidenceRead::Complete(hs) => {
            let mut k: usize = 0;
            while k < hs.len()
                invariant
                    row.history == EvidenceRead::Complete(*hs),
                    k <= hs@.len(),
                    forall|a: int| 0 <= a < k ==> order_check(#[trigger] hs@[a], *b) is None,
                    forall|a: int, c: int| 0 <= a < k && 0 <= c < k ==> (#[trigger] hs@[a]).same(#[trigger] hs@[c]),
                    powod_rekordow_do(*b, hs@, k as int) is None,
                    !(row.deals is Failed),
                    powod_transakcji_do(*o, *b, row_deals(*row), row_deals(*row).len() as int) is None,
                decreases hs@.len() - k,
            {
                let h = &hs[k];
                let ghost kk = k as int;
                match check_order(h, b) {
                    Err(e) => {
                        proof {
                            assert(powod_rekordow_do(*b, hs@, kk + 1) == Some(e));
                            lemma_powod_rekordow_trwa(*b, hs@, kk + 1, hs@.len() as int);
                        }
                        return Err(e);
                    },
                    Ok(_) => {},
                }
                if k > 0 && !hs[k - 1].rowny(h) {
                    assert(!history_consistent(hs@, *b)) by {
                        assert(!hs@[k - 1].same(hs@[k as int]));
                    }
                    proof {
                        assert(powod_rekordow_do(*b, hs@, kk + 1) == Some(PendingReviewReason::DuplicateConflict));
                        lemma_powod_rekordow_trwa(*b, hs@, kk + 1, hs@.len() as int);
                    }
                    return Err(PendingReviewReason::DuplicateConflict);
                }
                assert(powod_rekordow_do(*b, hs@, kk + 1) is None);
                proof {
                    assert forall|a: int, c: int| 0 <= a < k + 1 && 0 <= c < k + 1
                        implies (#[trigger] hs@[a]).same(#[trigger] hs@[c]) by {
                        if k > 0 {
                            assert(hs@[a].same(hs@[k - 1]) || a == k);
                            assert(hs@[c].same(hs@[k - 1]) || c == k);
                        }
                    }
                }
                k = k + 1;
            }
            if hs.len() == 0 {
                if has_deal {
                    return Err(PendingReviewReason::FillOrPartialObserved);
                }
                return Ok((Some(match wait {
                    Some(w) => w,
                    None => PendingWaitReason::HistoryNotYetVisible,
                }), None));
            }
            let h = &hs[hs.len() - 1];
            assert(order_check(*h, *b) is None);
            if has_deal || fill_or_partial(h) {
                return Err(PendingReviewReason::FillOrPartialObserved);
            }
            if !h.state.terminal() {
                return Ok((Some(match wait {
                    Some(w) => w,
                    None => PendingWaitReason::OrderNotTerminal,
                }), None));
            }
            if h.state != PendingOrderState::Canceled {
                return Err(PendingReviewReason::UnsupportedFinalState);
            }
            if h.time_done_msc < i.registered_before_cancel_msc || h.time_done_msc > o.history_read_through_msc {
                return Err(PendingReviewReason::MalformedEvidence);
            }
            Ok((wait, Some(NoFillOrderV1 {
                order_ticket: t,
                initial_units: h.initial_units,
                history_remaining_units: h.current_units,
                time_done_msc: h.time_done_msc,
            })))
        },
    }
}


/// The not yet handled binding with the smallest ticket.
fn next_binding(i: &PendingCancelIntentV1, last: Option<u64>) -> (r: Option<usize>)
    ensures
        r matches Some(k) ==> k < i.orders@.len() && !processed(i.orders@[k as int].order_ticket, last)
            && forall|j: int| 0 <= j < i.orders@.len() && !processed(#[trigger] i.orders@[j].order_ticket, last)
                ==> i.orders@[j].order_ticket >= i.orders@[k as int].order_ticket,
        r is None ==> forall|j: int| 0 <= j < i.orders@.len() ==> processed(#[trigger] i.orders@[j].order_ticket, last),
{
    let mut best: Option<usize> = None;
    let mut k: usize = 0;
    while k < i.orders.len()
        invariant
            k <= i.orders@.len(),
            best matches Some(b) ==> b < k && !processed(i.orders@[b as int].order_ticket, last)
                && forall|j: int| 0 <= j < k && !processed(#[trigger] i.orders@[j].order_ticket, last)
                    ==> i.orders@[j].order_ticket >= i.orders@[b as int].order_ticket,
            best is None ==> forall|j: int| 0 <= j < k ==> processed(#[trigger] i.orders@[j].order_ticket, last),
        decreases i.orders@.len() - k,
    {
        let t = i.orders[k].order_ticket;
        let fresh = match last {
            Some(l) => t > l,
            None => true,
        };
        if fresh {
            match best {
                Some(b) => {
                    if t < i.orders[b].order_ticket {
                        best = Some(k);
                    }
                },
                None => {
                    best = Some(k);
                },
            }
        }
        k = k + 1;
    }
    best
}

fn klon_sesji(s: &ExecutionSession) -> (r: ExecutionSession)
    ensures
        r == *s,
{
    ExecutionSession { scope: s.scope.clone(), generation: s.generation }
}

fn klon_klucza(k: &PendingOperationKey) -> (r: PendingOperationKey)
    ensures
        r == *k,
{
    PendingOperationKey {
        session: klon_sesji(&k.session),
        owner_engine: k.owner_engine.clone(),
        basket_id: k.basket_id,
        operation_seq: k.operation_seq,
    }
}

/// The row is the first one queried for its ticket.
pub open spec fn first_row_at(o: PendingCancelObservationV1, k: int) -> bool {
    &&& 0 <= k < o.orders@.len()
    &&& forall|j: int| 0 <= j < k ==> (#[trigger] o.orders@[j]).queried_order_ticket != o.orders@[k].queried_order_ticket
}

/// The reads of some registered order call for review.
pub open spec fn rows_review(i: PendingCancelIntentV1, o: PendingCancelObservationV1) -> bool {
    exists|k: int, m: int|
        first_row_at(o, k) && 0 <= m < i.orders@.len()
            && (#[trigger] i.orders@[m]).order_ticket == (#[trigger] o.orders@[k]).queried_order_ticket
            && row_review(i, o, i.orders@[m], o.orders@[k])
}

/// Two deals read for the batch carry one deal ticket and disagree.
pub open spec fn deals_conflict(o: PendingCancelObservationV1) -> bool {
    exists|k1: int, a1: int, k2: int, a2: int|
        first_row_at(o, k1) && first_row_at(o, k2)
            && 0 <= a1 < row_deals(o.orders@[k1]).len() && 0 <= a2 < row_deals(o.orders@[k2]).len()
            && (#[trigger] row_deals(o.orders@[k1])[a1]).deal_ticket == (#[trigger] row_deals(o.orders@[k2])[a2]).deal_ticket
            && !row_deals(o.orders@[k1])[a1].same(row_deals(o.orders@[k2])[a2])
}

/// The observation calls for review: a stale or unsupported observation, a
/// review on the reads of the whole observation or of some order, a receipt
/// cut under review, or disagreeing deals.
pub open spec fn review_owed(i: PendingCancelIntentV1, o: PendingCancelObservationV1) -> bool {
    ||| o.history_read_through_msc < i.registered_before_cancel_msc
    ||| !convention_supported(o.volume_convention)
    ||| !global_reads_acceptable(i, o)
    ||| o.receipt_cut == Some(PendingReceiptCutV1::RequiresReview)
    ||| rows_review(i, o)
    ||| deals_conflict(o)
}

/// A stored deal comes from the first row of an order already walked.
pub open spec fn deal_from_walked(o: PendingCancelObservationV1, last: Option<u64>, d: PendingDealV1) -> bool {
    exists|k: int, a: int|
        first_row_at(o, k) && processed(o.orders@[k].queried_order_ticket, last)
            && 0 <= a < row_deals(o.orders@[k]).len() && #[trigger] row_deals(o.orders@[k])[a] == d
}

/// Once every order is walked without review, none is owed.
proof fn lemma_no_review_owed(
    i: PendingCancelIntentV1,
    o: PendingCancelObservationV1,
    all: Seq<PendingDealV1>,
    last: Option<u64>,
)
    requires
        o.history_read_through_msc >= i.registered_before_cancel_msc,
        convention_supported(o.volume_convention),
        global_reads_acceptable(i, o),
        o.receipt_cut != Some(PendingReceiptCutV1::RequiresReview),
        forall|j: int| 0 <= j < i.orders@.len() ==> processed((#[trigger] i.orders@[j]).order_ticket, last),
        deal_tickets_unique(all),
        forall|k: int, a: int| first_row_at(o, k) && processed(o.orders@[k].queried_order_ticket, last)
            && 0 <= a < row_deals(o.orders@[k]).len() ==> deal_stored(all, #[trigger] row_deals(o.orders@[k])[a]),
        forall|k: int, m: int| first_row_at(o, k) && processed(o.orders@[k].queried_order_ticket, last)
            && 0 <= m < i.orders@.len() && (#[trigger] i.orders@[m]).order_ticket == (#[trigger] o.orders@[k]).queried_order_ticket
            ==> !row_review(i, o, i.orders@[m], o.orders@[k]),
    ensures
        !review_owed(i, o),
{
    assert forall|k: int, m: int|
        first_row_at(o, k) && 0 <= m < i.orders@.len()
            && (#[trigger] i.orders@[m]).order_ticket == (#[trigger] o.orders@[k]).queried_order_ticket
        implies !row_review(i, o, i.orders@[m], o.orders@[k]) by {
        assert(processed(i.orders@[m].order_ticket, last));
    }
    assert forall|k1: int, a1: int, k2: int, a2: int|
        first_row_at(o, k1) && first_row_at(o, k2)
            && 0 <= a1 < row_deals(o.orders@[k1]).len() && 0 <= a2 < row_deals(o.orders@[k2]).len()
            && (#[trigger] row_deals(o.orders@[k1])[a1]).deal_ticket == (#[trigger] row_deals(o.orders@[k2])[a2]).deal_ticket
        implies row_deals(o.orders@[k1])[a1].same(row_deals(o.orders@[k2])[a2]) by {
        assert(binding_has_ticket(i, o.orders@[k1].queried_order_ticket));
        assert(binding_has_ticket(i, o.orders@[k2].queried_order_ticket));
        let m1 = choose|m: int| 0 <= m < i.orders@.len() && #[trigger] i.orders@[m].order_ticket == o.orders@[k1].queried_order_ticket;
        let m2 = choose|m: int| 0 <= m < i.orders@.len() && #[trigger] i.orders@[m].order_ticket == o.orders@[k2].queried_order_ticket;
        assert(processed(i.orders@[m1].order_ticket, last));
        assert(processed(i.orders@[m2].order_ticket, last));
        let d1 = row_deals(o.orders@[k1])[a1];
        let d2 = row_deals(o.orders@[k2])[a2];
        assert(deal_stored(all, d1));
        assert(deal_stored(all, d2));
        let p1 = choose|p: int| 0 <= p < all.len() && (#[trigger] all[p]).deal_ticket == d1.deal_ticket && all[p].same(d1);
        let p2 = choose|p: int| 0 <= p < all.len() && (#[trigger] all[p]).deal_ticket == d2.deal_ticket && all[p].same(d2);
        if p1 < p2 {
            assert(all[p1].deal_ticket != all[p2].deal_ticket);
        } else if p2 < p1 {
            assert(all[p2].deal_ticket != all[p1].deal_ticket);
        }
    }
}

/// The first queried row of ticket `t`, if the ticket was queried.
#[verifier::opaque]
pub open spec fn wiersz_biletu(o: PendingCancelObservationV1, t: u64) -> Option<PendingOrderEvidenceV1> {
    if exists|k: int| #[trigger] first_row_at(o, k) && o.orders@[k].queried_order_ticket == t {
        Some(o.orders@[choose|k: int| #[trigger] first_row_at(o, k) && o.orders@[k].queried_order_ticket == t])
    } else {
        None
    }
}

proof fn lemma_wiersz_biletu(o: PendingCancelObservationV1, k: int)
    requires
        first_row_at(o, k),
    ensures
        wiersz_biletu(o, o.orders@[k].queried_order_ticket) == Some(o.orders@[k]),
{
    reveal(wiersz_biletu);
    let t = o.orders@[k].queried_order_ticket;
    assert(first_row_at(o, k) && o.orders@[k].queried_order_ticket == t);
    let c = choose|c: int| #[trigger] first_row_at(o, c) && o.orders@[c].queried_order_ticket == t;
    if c < k {
        assert(o.orders@[c].queried_order_ticket != o.orders@[k].queried_order_ticket);
    } else if k < c {
        assert(o.orders@[k].queried_order_ticket != o.orders@[c].queried_order_ticket);
    }
}

/// The review reason of the reads of a registered order (none when the
/// order was not queried).
#[verifier::opaque]
pub open spec fn powod_wiazania(i: PendingCancelIntentV1, o: PendingCancelObservationV1, b: PendingOrderBindingV1) -> Option<PendingReviewReason> {
    match wiersz_biletu(o, b.order_ticket) {
        Some(row) => powod_kroku(i, o, b, row),
        None => None,
    }
}

/// The reads of a registered order prove it canceled.
#[verifier::opaque]
pub open spec fn wiazanie_anulowane(i: PendingCancelIntentV1, o: PendingCancelObservationV1, b: PendingOrderBindingV1) -> bool {
    match wiersz_biletu(o, b.order_ticket) {
        Some(row) => wiersz_daje_anulowanie(i, o, b, row),
        None => false,
    }
}

/// The units of the orders proved canceled once the walk reached `last`.
pub open spec fn suma_anulowanych(
    i: PendingCancelIntentV1,
    o: PendingCancelObservationV1,
    s: Seq<PendingOrderBindingV1>,
    last: Option<u64>,
) -> nat
    decreases s.len(),
{
    if s.len() == 0 {
        0
    } else {
        suma_anulowanych(i, o, s.drop_last(), last) + if processed(s.last().order_ticket, last)
            && wiazanie_anulowane(i, o, s.last()) {
            s.last().initial_units as nat
        } else {
            0nat
        }
    }
}

pub open spec fn suma_anulowanych_rowna(
    i: PendingCancelIntentV1,
    o: PendingCancelObservationV1,
    s: Seq<PendingOrderBindingV1>,
    m: u64,
) -> nat
    decreases s.len(),
{
    if s.len() == 0 {
        0
    } else {
        suma_anulowanych_rowna(i, o, s.drop_last(), m) + if s.last().order_ticket == m
            && wiazanie_anulowane(i, o, s.last()) {
            s.last().initial_units as nat
        } else {
            0nat
        }
    }
}

proof fn lemma_suma_anulowanych_krok(
    i: PendingCancelIntentV1,
    o: PendingCancelObservationV1,
    s: Seq<PendingOrderBindingV1>,
    last: Option<u64>,
    m: u64,
)
    requires
        !processed(m, last),
        forall|j: int| 0 <= j < s.len() && !processed(#[trigger] s[j].order_ticket, last)
            ==> s[j].order_ticket >= m,
    ensures
        suma_anulowanych(i, o, s, Some(m)) == suma_anulowanych(i, o, s, last) + suma_anulowanych_rowna(i, o, s, m),
    decreases s.len(),
{
    if s.len() > 0 {
        let t = s.drop_last();
        assert forall|j: int| 0 <= j < t.len() && !processed(#[trigger] t[j].order_ticket, last)
            implies t[j].order_ticket >= m by {
            assert(t[j] == s[j]);
        }
        lemma_suma_anulowanych_krok(i, o, t, last, m);
        assert(s[s.len() - 1] == s.last());
    }
}

proof fn lemma_suma_anulowanych_rowna(
    i: PendingCancelIntentV1,
    o: PendingCancelObservationV1,
    s: Seq<PendingOrderBindingV1>,
    k: int,
)
    requires
        tickets_unique(s),
        0 <= k < s.len(),
    ensures
        suma_anulowanych_rowna(i, o, s, s[k].order_ticket)
            == if wiazanie_anulowane(i, o, s[k]) { s[k].initial_units as nat } else { 0nat },
    decreases s.len(),
{
    let m = s[k].order_ticket;
    let t = s.drop_last();
    if k == s.len() - 1 {
        assert forall|j: int| 0 <= j < t.len() implies #[trigger] t[j].order_ticket != m by {
            assert(t[j] == s[j]);
        }
        lemma_suma_anulowanych_brak(i, o, t, m);
    } else {
        assert forall|a: int, c: int| 0 <= a < t.len() && 0 <= c < t.len() && a != c
            implies #[trigger] t[a].order_ticket != #[trigger] t[c].order_ticket by {
            assert(t[a] == s[a] && t[c] == s[c]);
        }
        assert(t[k] == s[k]);
        lemma_suma_anulowanych_rowna(i, o, t, k);
        assert(s.last().order_ticket != m);
    }
}

proof fn lemma_suma_anulowanych_brak(
    i: PendingCancelIntentV1,
    o: PendingCancelObservationV1,
    s: Seq<PendingOrderBindingV1>,
    m: u64,
)
    requires
        forall|j: int| 0 <= j < s.len() ==> #[trigger] s[j].order_ticket != m,
    ensures
        suma_anulowanych_rowna(i, o, s, m) == 0,
    decreases s.len(),
{
    if s.len() > 0 {
        let t = s.drop_last();
        assert forall|j: int| 0 <= j < t.len() implies #[trigger] t[j].order_ticket != m by {
            assert(t[j] == s[j]);
        }
        lemma_suma_anulowanych_brak(i, o, t, m);
        assert(s[s.len() - 1].order_ticket != m);
    }
}

proof fn lemma_suma_anulowanych_zero(i: PendingCancelIntentV1, o: PendingCancelObservationV1, s: Seq<PendingOrderBindingV1>)
    ensures
        suma_anulowanych(i, o, s, None) == 0,
    decreases s.len(),
{
    if s.len() > 0 {
        lemma_suma_anulowanych_zero(i, o, s.drop_last());
    }
}

/// The walk stops at this order: its reads owe review, or the units proved
/// canceled up to it overflow.
#[verifier::opaque]
pub open spec fn blad_wiazania(i: PendingCancelIntentV1, o: PendingCancelObservationV1, b: PendingOrderBindingV1) -> bool {
    powod_wiazania(i, o, b) is Some || suma_anulowanych(i, o, i.orders@, Some(b.order_ticket)) > u64::MAX
}

/// The review reason of the walk over the orders in ascending ticket order:
/// that of the first order it stops at.
#[verifier::opaque]
pub open spec fn powod_przejscia(i: PendingCancelIntentV1, o: PendingCancelObservationV1) -> Option<PendingReviewReason> {
    if exists|m: int| 0 <= m < i.orders@.len() && blad_wiazania(i, o, #[trigger] i.orders@[m]) {
        let m = choose|m: int| 0 <= m < i.orders@.len() && blad_wiazania(i, o, #[trigger] i.orders@[m])
            && forall|j: int| 0 <= j < i.orders@.len() && blad_wiazania(i, o, #[trigger] i.orders@[j])
                ==> i.orders@[j].order_ticket >= i.orders@[m].order_ticket;
        match powod_wiazania(i, o, i.orders@[m]) {
            Some(e) => Some(e),
            None => Some(PendingReviewReason::QuantityOverflow),
        }
    } else {
        None
    }
}

/// The review reason of an observation, in the order the checks are made:
/// a stale or unsupported observation, the queried rows, the current
/// orders, the related positions, a receipt cut under review, then the walk
/// over the orders.
pub open spec fn powod_przegladu(i: PendingCancelIntentV1, o: PendingCancelObservationV1) -> Option<PendingReviewReason> {
    if o.history_read_through_msc < i.registered_before_cancel_msc {
        Some(PendingReviewReason::StaleObservation)
    } else if !convention_supported(o.volume_convention) {
        Some(PendingReviewReason::UnsupportedVolumeConvention)
    } else if powod_wierszy(i, o) is Some {
        powod_wierszy(i, o)
    } else if powod_biezacych(i, o) is Some {
        powod_biezacych(i, o)
    } else if powod_pozycji(i, o) is Some {
        powod_pozycji(i, o)
    } else if o.receipt_cut == Some(PendingReceiptCutV1::RequiresReview) {
        Some(PendingReviewReason::ReceiptReview)
    } else {
        powod_przejscia(i, o)
    }
}

proof fn lemma_wiazanie_z_wiersza(i: PendingCancelIntentV1, o: PendingCancelObservationV1, bk: int, rk: int)
    requires
        0 <= bk < i.orders@.len(),
        first_row_at(o, rk),
        o.orders@[rk].queried_order_ticket == i.orders@[bk].order_ticket,
    ensures
        powod_wiazania(i, o, i.orders@[bk]) == powod_kroku(i, o, i.orders@[bk], o.orders@[rk]),
        wiazanie_anulowane(i, o, i.orders@[bk]) == wiersz_daje_anulowanie(i, o, i.orders@[bk], o.orders@[rk]),
{
    lemma_wiersz_biletu(o, rk);
    reveal(powod_wiazania);
    reveal(wiazanie_anulowane);
}

proof fn lemma_wiazanie_bez_wiersza(i: PendingCancelIntentV1, o: PendingCancelObservationV1, bk: int)
    requires
        0 <= bk < i.orders@.len(),
        forall|k: int| 0 <= k < o.orders@.len() ==> #[trigger] o.orders@[k].queried_order_ticket != i.orders@[bk].order_ticket,
    ensures
        powod_wiazania(i, o, i.orders@[bk]) is None,
        !wiazanie_anulowane(i, o, i.orders@[bk]),
{
    reveal(wiersz_biletu);
    reveal(powod_wiazania);
    reveal(wiazanie_anulowane);
}

/// No order the walk has passed by `last` stops it.
#[verifier::opaque]
pub open spec fn bez_bledu_do(i: PendingCancelIntentV1, o: PendingCancelObservationV1, last: Option<u64>) -> bool {
    forall|m: int| 0 <= m < i.orders@.len() && processed((#[trigger] i.orders@[m]).order_ticket, last)
        ==> !blad_wiazania(i, o, i.orders@[m])
}

proof fn lemma_bez_bledu_start(i: PendingCancelIntentV1, o: PendingCancelObservationV1)
    ensures
        bez_bledu_do(i, o, None),
{
    reveal(bez_bledu_do);
}

proof fn lemma_bez_bledu_krok(i: PendingCancelIntentV1, o: PendingCancelObservationV1, last: Option<u64>, bk: int)
    requires
        bez_bledu_do(i, o, last),
        0 <= bk < i.orders@.len(),
        powod_wiazania(i, o, i.orders@[bk]) is None,
        suma_anulowanych(i, o, i.orders@, Some(i.orders@[bk].order_ticket)) <= u64::MAX,
        forall|k: int| 0 <= k < i.orders@.len() && processed((#[trigger] i.orders@[k]).order_ticket, Some(i.orders@[bk].order_ticket))
            && !processed(i.orders@[k].order_ticket, last) ==> k == bk,
    ensures
        bez_bledu_do(i, o, Some(i.orders@[bk].order_ticket)),
{
    reveal(bez_bledu_do);
    reveal(blad_wiazania);
    assert forall|m: int| 0 <= m < i.orders@.len() && processed((#[trigger] i.orders@[m]).order_ticket, Some(i.orders@[bk].order_ticket))
        implies !blad_wiazania(i, o, i.orders@[m]) by {
        if !processed(i.orders@[m].order_ticket, last) {
            assert(m == bk);
        }
    }
}

proof fn lemma_bez_bledu_koniec(i: PendingCancelIntentV1, o: PendingCancelObservationV1, last: Option<u64>)
    requires
        bez_bledu_do(i, o, last),
        forall|j: int| 0 <= j < i.orders@.len() ==> processed((#[trigger] i.orders@[j]).order_ticket, last),
    ensures
        powod_przejscia(i, o) is None,
{
    reveal(bez_bledu_do);
    reveal(powod_przejscia);
    assert forall|m: int| 0 <= m < i.orders@.len() implies !blad_wiazania(i, o, #[trigger] i.orders@[m]) by {
        assert(processed(i.orders@[m].order_ticket, last));
    }
}

proof fn lemma_pierwszy_blad(i: PendingCancelIntentV1, o: PendingCancelObservationV1, bk: int, last: Option<u64>)
    requires
        tickets_unique(i.orders@),
        0 <= bk < i.orders@.len(),
        powod_wiazania(i, o, i.orders@[bk]) is Some
            || suma_anulowanych(i, o, i.orders@, Some(i.orders@[bk].order_ticket)) > u64::MAX,
        !processed(i.orders@[bk].order_ticket, last),
        bez_bledu_do(i, o, last),
        forall|j: int| 0 <= j < i.orders@.len() && !processed(#[trigger] i.orders@[j].order_ticket, last)
            ==> i.orders@[j].order_ticket >= i.orders@[bk].order_ticket,
    ensures
        powod_przejscia(i, o) == match powod_wiazania(i, o, i.orders@[bk]) {
            Some(e) => Some(e),
            None => Some(PendingReviewReason::QuantityOverflow),
        },
{
    reveal(bez_bledu_do);
    reveal(blad_wiazania);
    reveal(powod_przejscia);
    let s = i.orders@;
    assert forall|j: int| 0 <= j < s.len() && blad_wiazania(i, o, #[trigger] s[j])
        implies s[j].order_ticket >= s[bk].order_ticket by {
        if processed(s[j].order_ticket, last) {
            assert(!blad_wiazania(i, o, s[j]));
        }
    }
    assert(0 <= bk < s.len() && blad_wiazania(i, o, s[bk]));
    let m = choose|m: int| 0 <= m < s.len() && blad_wiazania(i, o, #[trigger] s[m])
        && forall|j: int| 0 <= j < s.len() && blad_wiazania(i, o, #[trigger] s[j])
            ==> s[j].order_ticket >= s[m].order_ticket;
    assert(s[bk].order_ticket >= s[m].order_ticket);
    assert(s[m].order_ticket >= s[bk].order_ticket);
    if m != bk {
        assert(s[m].order_ticket != s[bk].order_ticket);
    }
}

/// The complete evaluation of one observation against the registered batch.
fn evaluate_checked(i: &PendingCancelIntentV1, o: &PendingCancelObservationV1) -> (r: Result<PendingCancelStateV1, PendingReviewReason>)
    requires
        intent_valid(*i),
    ensures
        (r matches Ok(PendingCancelStateV1::VerifiedNoFill(_))) <==> no_fill_evidence(*i, *o),
        r matches Ok(PendingCancelStateV1::VerifiedNoFill(p)) ==> proof_matches(*i, *o, p),
        !(r matches Ok(PendingCancelStateV1::RequiresReview(_))),
        o.history_read_through_msc < i.registered_before_cancel_msc
            ==> r == Err::<PendingCancelStateV1, PendingReviewReason>(PendingReviewReason::StaleObservation),
        o.history_read_through_msc >= i.registered_before_cancel_msc && !convention_supported(o.volume_convention)
            ==> r == Err::<PendingCancelStateV1, PendingReviewReason>(PendingReviewReason::UnsupportedVolumeConvention),
        o.history_read_through_msc >= i.registered_before_cancel_msc && convention_supported(o.volume_convention)
            && global_reads_acceptable(*i, *o) && o.receipt_cut == Some(PendingReceiptCutV1::RequiresReview)
            ==> r == Err::<PendingCancelStateV1, PendingReviewReason>(PendingReviewReason::ReceiptReview),
        r is Ok && global_wait(*i, *o) is Some
            ==> r == Ok::<PendingCancelStateV1, PendingReviewReason>(PendingCancelStateV1::Waiting(global_wait(*i, *o)->0)),
        r is Err ==> review_owed(*i, *o) || sum_initial(i.orders@) > u64::MAX,
        review_owed(*i, *o) ==> r is Err,
        no_fill_reads(*i, *o) && sum_initial(i.orders@) > u64::MAX
            ==> r == Err::<PendingCancelStateV1, PendingReviewReason>(PendingReviewReason::QuantityOverflow),
        r is Err && !review_owed(*i, *o)
            ==> r == Err::<PendingCancelStateV1, PendingReviewReason>(PendingReviewReason::QuantityOverflow),
        r matches Err(e) ==> powod_przegladu(*i, *o) == Some(e),
        powod_przegladu(*i, *o) is Some ==> r is Err,
{
    let mut waiting: Option<PendingWaitReason> = if o.locally_published_complete {
        None
    } else {
        Some(PendingWaitReason::IncompletePublication)
    };
    if o.history_read_through_msc < i.registered_before_cancel_msc {
        return Err(PendingReviewReason::StaleObservation);
    }
    let convention_ok = match &o.volume_convention {
        HistoricalVolumeConventionV1::RemainingUnfilled { evidence_ref } => !pusty_po_przycieciu(evidence_ref.as_str()),
        _ => false,
    };
    if !convention_ok {
        return Err(PendingReviewReason::UnsupportedVolumeConvention);
    }
    let all_observed = rows_check(i, o)?;
    if !all_observed && waiting.is_none() {
        waiting = Some(PendingWaitReason::ReadUnavailable);
    }
    let w = current_check(i, o)?;
    if waiting.is_none() {
        waiting = w;
    }
    let w = related_check(i, o)?;
    if waiting.is_none() {
        waiting = w;
    }
    let receipt_ok = match o.receipt_cut {
        Some(PendingReceiptCutV1::Clear { required_owner_revision, consumed_owner_revision }) =>
            required_owner_revision > 0 && consumed_owner_revision >= required_owner_revision,
        _ => false,
    };
    if !receipt_ok {
        match o.receipt_cut {
            Some(PendingReceiptCutV1::RequiresReview) => {
                return Err(PendingReviewReason::ReceiptReview);
            },
            _ => {
                if waiting.is_none() {
                    waiting = Some(PendingWaitReason::ReceiptsNotConsumed);
                }
            },
        }
    }
    let ghost ev = no_fill_reads(*i, *o);
    let ghost orders = i.orders@;
    assert(global_wait(*i, *o) is Some ==> waiting == global_wait(*i, *o));
    let ghost first_wait = waiting;
    assert(waiting is None ==> (o.locally_published_complete && all_observed && current_orders_clear(*i, *o)
        && (o.related_positions matches EvidenceRead::Complete(ps) && ps@.len() == 0) && receipt_clear(o.receipt_cut)));
    assert(ev ==> waiting is None);

    let mut last: Option<u64> = None;
    let mut terminal: Vec<NoFillOrderV1> = Vec::new();
    let mut retired: u64 = 0;
    let mut all_deals: Vec<PendingDealV1> = Vec::new();
    let ghost mut clean = true;
    proof {
        lemma_upto_none(orders);
        lemma_suma_anulowanych_zero(*i, *o, orders);
        lemma_bez_bledu_start(*i, *o);
        assert(powod_przegladu(*i, *o) == powod_przejscia(*i, *o));
    }
    loop
        invariant
            intent_valid(*i),
            orders == i.orders@,
            o.history_read_through_msc >= i.registered_before_cancel_msc,
            convention_supported(o.volume_convention),
            ev == no_fill_reads(*i, *o),
            rows_in_scope(*i, *o),
            all_observed <==> every_binding_observed(*i, *o),
            waiting is None ==> (o.locally_published_complete && all_observed && current_orders_clear(*i, *o)
                && (o.related_positions matches EvidenceRead::Complete(ps) && ps@.len() == 0)
                && receipt_clear(o.receipt_cut)),
            ev ==> waiting is None && clean,
            !clean ==> waiting is Some,
            first_wait is Some ==> waiting == first_wait,
            o.receipt_cut != Some(PendingReceiptCutV1::RequiresReview),
            global_reads_acceptable(*i, *o),
            deal_tickets_unique(all_deals@),
            forall|p: int| 0 <= p < all_deals@.len() ==> deal_from_walked(*o, last, #[trigger] all_deals@[p]),
            forall|k: int, a: int| first_row_at(*o, k) && processed(o.orders@[k].queried_order_ticket, last)
                && 0 <= a < row_deals(o.orders@[k]).len() ==> deal_stored(all_deals@, #[trigger] row_deals(o.orders@[k])[a]),
            forall|k: int, m: int| first_row_at(*o, k) && processed(o.orders@[k].queried_order_ticket, last)
                && 0 <= m < orders.len() && (#[trigger] orders[m]).order_ticket == (#[trigger] o.orders@[k]).queried_order_ticket
                ==> !row_review(*i, *o, orders[m], o.orders@[k]),
            retired == suma_anulowanych(*i, *o, orders, last),
            powod_przegladu(*i, *o) == powod_przejscia(*i, *o),
            bez_bledu_do(*i, *o, last),
            retired <= sum_upto(orders, last),
            count_upto(orders, last) <= orders.len(),
            last is None ==> terminal@.len() == 0,
            forall|j: int| 0 <= j < terminal@.len() ==> processed((#[trigger] terminal@[j]).order_ticket, last),
            forall|j: int, k: int| 0 <= j < k < terminal@.len()
                ==> (#[trigger] terminal@[j]).order_ticket < (#[trigger] terminal@[k]).order_ticket,
            forall|j: int| 0 <= j < terminal@.len() ==> i.registered_before_cancel_msc
                <= (#[trigger] terminal@[j]).time_done_msc <= o.history_read_through_msc,
            forall|j: int| 0 <= j < terminal@.len() ==> czas_z_historii(*o, #[trigger] terminal@[j]),
            clean ==> terminal@.len() == count_upto(orders, last),
            clean ==> retired == sum_upto(orders, last),
            clean ==> forall|k: int| 0 <= k < orders.len() && processed((#[trigger] orders[k]).order_ticket, last)
                ==> binding_proved(*i, *o, orders[k]),
            clean ==> forall|k: int| 0 <= k < orders.len() && processed((#[trigger] orders[k]).order_ticket, last)
                ==> exists|j: int| 0 <= j < terminal@.len()
                    && (#[trigger] terminal@[j]).order_ticket == orders[k].order_ticket
                    && terminal@[j].initial_units == orders[k].initial_units
                    && terminal@[j].history_remaining_units == orders[k].initial_units,
        ensures
            forall|j: int| 0 <= j < orders.len() ==> processed((#[trigger] orders[j]).order_ticket, last),
            retired == suma_anulowanych(*i, *o, orders, last),
            powod_przegladu(*i, *o) == powod_przejscia(*i, *o),
            bez_bledu_do(*i, *o, last),
            waiting is None ==> (o.locally_published_complete && all_observed && current_orders_clear(*i, *o)
                && (o.related_positions matches EvidenceRead::Complete(ps) && ps@.len() == 0)
                && receipt_clear(o.receipt_cut)),
            ev ==> waiting is None && clean,
            !clean ==> waiting is Some,
            first_wait is Some ==> waiting == first_wait,
            o.receipt_cut != Some(PendingReceiptCutV1::RequiresReview),
            global_reads_acceptable(*i, *o),
            deal_tickets_unique(all_deals@),
            forall|k: int, a: int| first_row_at(*o, k) && processed(o.orders@[k].queried_order_ticket, last)
                && 0 <= a < row_deals(o.orders@[k]).len() ==> deal_stored(all_deals@, #[trigger] row_deals(o.orders@[k])[a]),
            forall|k: int, m: int| first_row_at(*o, k) && processed(o.orders@[k].queried_order_ticket, last)
                && 0 <= m < orders.len() && (#[trigger] orders[m]).order_ticket == (#[trigger] o.orders@[k]).queried_order_ticket
                ==> !row_review(*i, *o, orders[m], o.orders@[k]),
            forall|j: int, k: int| 0 <= j < k < terminal@.len()
                ==> (#[trigger] terminal@[j]).order_ticket < (#[trigger] terminal@[k]).order_ticket,
            forall|j: int| 0 <= j < terminal@.len() ==> i.registered_before_cancel_msc
                <= (#[trigger] terminal@[j]).time_done_msc <= o.history_read_through_msc,
            forall|j: int| 0 <= j < terminal@.len() ==> czas_z_historii(*o, #[trigger] terminal@[j]),
            clean ==> terminal@.len() == count_upto(orders, last),
            clean ==> retired == sum_upto(orders, last),
            clean ==> forall|k: int| 0 <= k < orders.len() && processed((#[trigger] orders[k]).order_ticket, last)
                ==> binding_proved(*i, *o, orders[k]),
            clean ==> forall|k: int| 0 <= k < orders.len() && processed((#[trigger] orders[k]).order_ticket, last)
                ==> exists|j: int| 0 <= j < terminal@.len()
                    && (#[trigger] terminal@[j]).order_ticket == orders[k].order_ticket
                    && terminal@[j].initial_units == orders[k].initial_units
                    && terminal@[j].history_remaining_units == orders[k].initial_units,
        decreases orders.len() - count_upto(orders, last),
    {
        let nb = next_binding(i, last);
        let bk = match nb {
            None => {
                break;
            },
            Some(bk) => bk,
        };
        let b = &i.orders[bk];
        let t = b.order_ticket;
        proof {
            lemma_step_general(orders, last, t);
            lemma_eq_single(orders, bk as int);
            lemma_upto_bounds(orders, Some(t));
            assert forall|k: int| 0 <= k < orders.len() && processed(orders[k].order_ticket, Some(t))
                && !processed(orders[k].order_ticket, last) implies k == bk by {
                assert(orders[k].order_ticket >= t);
                if k != bk {
                    assert(orders[k].order_ticket != orders[bk as int].order_ticket);
                }
            }
        }
        let ghost old_terminal = terminal@;
        let ghost old_clean = clean;
        let ghost old_last = last;
        match first_row(o, t, o.orders.len()) {
            None => {
                proof {
                    assert(!every_binding_observed(*i, *o)) by {
                        assert(!row_observed(*o, orders[bk as int].order_ticket));
                    }
                    clean = false;
                    lemma_wiazanie_bez_wiersza(*i, *o, bk as int);
                    lemma_suma_anulowanych_krok(*i, *o, orders, last, t);
                    lemma_suma_anulowanych_rowna(*i, *o, orders, bk as int);
                    assert(retired == suma_anulowanych(*i, *o, orders, Some(t)));
                    assert forall|p: int| 0 <= p < all_deals@.len() implies deal_from_walked(*o, Some(t), #[trigger] all_deals@[p]) by {
                        assert(deal_from_walked(*o, last, all_deals@[p]));
                        let (k, a) = choose|k: int, a: int| first_row_at(*o, k) && processed(o.orders@[k].queried_order_ticket, last)
                            && 0 <= a < row_deals(o.orders@[k]).len() && #[trigger] row_deals(o.orders@[k])[a] == all_deals@[p];
                        assert(processed(o.orders@[k].queried_order_ticket, Some(t)));
                    }
                }
            },
            Some(rk) => {
                proof {
                    if ev {
                        assert(binding_proved(*i, *o, orders[bk as int]));
                        let q = choose|q: int|
                            0 <= q < o.orders@.len() && (#[trigger] o.orders@[q]).queried_order_ticket == t
                                && row_clean(*i, *o, orders[bk as int], o.orders@[q]);
                        assert(o.orders@[q].same(o.orders@[rk as int]));
                        lemma_row_clean_same(*i, *o, orders[bk as int], o.orders@[q], o.orders@[rk as int]);
                    }
                }
                let ghost przed = all_deals@;
                let krok = binding_step(i, o, b, &o.orders[rk], &mut all_deals);
                let (w, nf) = match krok {
                    Ok(x) => x,
                    Err(e) => {
                        proof {
                            let kk = rk as int;
                            assert(first_row_at(*o, kk));
                            if row_review(*i, *o, orders[bk as int], o.orders@[kk]) {
                                assert(rows_review(*i, *o));
                            } else {
                                let row = o.orders@[kk];
                                assert(deal_conflict_with(przed, row));
                                let a = choose|a: int| #![trigger row_deals(row)[a]] 0 <= a < row_deals(row).len() && (
                                    (exists|p: int| 0 <= p < przed.len() && (#[trigger] przed[p]).deal_ticket == row_deals(row)[a].deal_ticket
                                        && !przed[p].same(row_deals(row)[a]))
                                    || (exists|c: int| 0 <= c < a && (#[trigger] row_deals(row)[c]).deal_ticket == row_deals(row)[a].deal_ticket
                                        && !row_deals(row)[c].same(row_deals(row)[a])));
                                if exists|p: int| 0 <= p < przed.len() && (#[trigger] przed[p]).deal_ticket == row_deals(row)[a].deal_ticket
                                    && !przed[p].same(row_deals(row)[a]) {
                                    let p = choose|p: int| 0 <= p < przed.len() && (#[trigger] przed[p]).deal_ticket == row_deals(row)[a].deal_ticket
                                        && !przed[p].same(row_deals(row)[a]);
                                    assert(deal_from_walked(*o, last, przed[p]));
                                    let (k1, a1) = choose|k: int, a1: int|
                                        first_row_at(*o, k) && processed(o.orders@[k].queried_order_ticket, last)
                                            && 0 <= a1 < row_deals(o.orders@[k]).len() && #[trigger] row_deals(o.orders@[k])[a1] == przed[p];
                                    assert(row_deals(o.orders@[k1])[a1].deal_ticket == row_deals(o.orders@[kk])[a].deal_ticket);
                                    assert(deals_conflict(*o));
                                } else {
                                    let c = choose|c: int| 0 <= c < a && (#[trigger] row_deals(row)[c]).deal_ticket == row_deals(row)[a].deal_ticket
                                        && !row_deals(row)[c].same(row_deals(row)[a]);
                                    assert(row_deals(o.orders@[kk])[c].deal_ticket == row_deals(o.orders@[kk])[a].deal_ticket);
                                    assert(deals_conflict(*o));
                                }
                            }
                        }
                        proof {
                            lemma_wiazanie_z_wiersza(*i, *o, bk as int, rk as int);
                            lemma_pierwszy_blad(*i, *o, bk as int, last);
                        }
                        return Err(e);
                    },
                };
                if waiting.is_none() {
                    waiting = w;
                }
                proof {
                    if w is Some {
                        clean = false;
                    } else {
                        assert(row_clean(*i, *o, orders[bk as int], o.orders@[rk as int]));
                        assert(binding_proved(*i, *o, orders[bk as int]));
                    }
                }
                proof {
                    let kk = rk as int;
                    assert forall|p: int| 0 <= p < all_deals@.len() implies deal_from_walked(*o, Some(t), #[trigger] all_deals@[p]) by {
                        if p < przed.len() {
                            assert(all_deals@.take(przed.len() as int)[p] == all_deals@[p]);
                            assert(deal_from_walked(*o, last, przed[p]));
                            let (k, a) = choose|k: int, a: int| first_row_at(*o, k) && processed(o.orders@[k].queried_order_ticket, last)
                                && 0 <= a < row_deals(o.orders@[k]).len() && #[trigger] row_deals(o.orders@[k])[a] == przed[p];
                            assert(processed(o.orders@[k].queried_order_ticket, Some(t)));
                            assert(row_deals(o.orders@[k])[a] == all_deals@[p]);
                        } else {
                            let c = choose|c: int| 0 <= c < row_deals(o.orders@[kk]).len() && #[trigger] all_deals@[p] == row_deals(o.orders@[kk])[c];
                            assert(first_row_at(*o, kk));
                            assert(processed(o.orders@[kk].queried_order_ticket, Some(t)));
                            assert(row_deals(o.orders@[kk])[c] == all_deals@[p]);
                        }
                    }
                }
                proof {
                    lemma_wiazanie_z_wiersza(*i, *o, bk as int, rk as int);
                    lemma_suma_anulowanych_krok(*i, *o, orders, last, t);
                    lemma_suma_anulowanych_rowna(*i, *o, orders, bk as int);
                    assert(nf is Some <==> wiazanie_anulowane(*i, *o, orders[bk as int]));
                }
                match nf {
                    Some(nf) => {
                        match retired.checked_add(nf.initial_units) {
                            Some(v) => {
                                retired = v;
                            },
                            None => {
                                proof {
                                    lemma_pierwszy_blad(*i, *o, bk as int, last);
                                }
                                return Err(PendingReviewReason::QuantityOverflow);
                            },
                        }
                        proof {
                            assert(first_row_at(*o, rk as int));
                            assert(czas_z_historii(*o, nf));
                        }
                        let ghost t0 = terminal@;
                        terminal.push(nf);
                        proof {
                            assert forall|j: int| 0 <= j < terminal@.len() implies czas_z_historii(*o, #[trigger] terminal@[j]) by {
                                if j < t0.len() {
                                    assert(terminal@[j] == t0[j]);
                                }
                            }
                        }
                    },
                    None => {},
                }
                assert(retired == suma_anulowanych(*i, *o, orders, Some(t)));
            },
        }
        proof {
            lemma_bez_bledu_krok(*i, *o, last, bk as int);
        }
        last = Some(t);
        proof {
            if clean {
                assert(old_clean);
                assert forall|k: int| 0 <= k < orders.len() && processed((#[trigger] orders[k]).order_ticket, last)
                    implies exists|j: int| 0 <= j < terminal@.len()
                        && (#[trigger] terminal@[j]).order_ticket == orders[k].order_ticket
                        && terminal@[j].initial_units == orders[k].initial_units
                        && terminal@[j].history_remaining_units == orders[k].initial_units by {
                    if k == bk {
                        let j = terminal@.len() - 1;
                        assert(terminal@[j].order_ticket == orders[k].order_ticket);
                    } else {
                        assert(processed(orders[k].order_ticket, old_last));
                        let j = choose|j: int| 0 <= j < old_terminal.len()
                            && (#[trigger] old_terminal[j]).order_ticket == orders[k].order_ticket
                            && old_terminal[j].initial_units == orders[k].initial_units
                            && old_terminal[j].history_remaining_units == orders[k].initial_units;
                        assert(terminal@[j] == old_terminal[j]);
                    }
                }
            }
        }
    }
    proof {
        lemma_no_review_owed(*i, *o, all_deals@, last);
        lemma_bez_bledu_koniec(*i, *o, last);
    }
    if waiting.is_some() {
        let w = match waiting {
            Some(w) => w,
            None => PendingWaitReason::NotObserved,
        };
        return Ok(PendingCancelStateV1::Waiting(w));
    }
    assert(clean);
    let l = match last {
        Some(l) => l,
        None => {
            assert(processed(orders[0].order_ticket, last));
            0
        },
    };
    proof {
        lemma_upto_all(orders, l);
    }
    if terminal.len() != i.orders.len() {
        return Err(PendingReviewReason::MalformedEvidence);
    }
    let proof_v = PendingNoFillProofV1 {
        schema: PendingProofSchema::v1(),
        key: klon_klucza(&i.key),
        revision: i.revision,
        observation_seq: o.observation_seq,
        terminal_orders: terminal,
        retired_order_units: retired,
    };
    assert(no_fill_evidence(*i, *o));
    Ok(PendingCancelStateV1::VerifiedNoFill(proof_v))
}


/// What an evaluation of one observation is owed: a verified no-fill state
/// exactly when the evidence proves it; review exactly when `review_owed`
/// (or when the units proved canceled overflow their sum), for the reason
/// `powod_przegladu` names; and, short of review, the waiting reason the
/// reads of the whole observation give first.
pub open spec fn evaluation_consistent(
    i: PendingCancelIntentV1,
    o: PendingCancelObservationV1,
    s: PendingCancelStateV1,
) -> bool {
    &&& (s is VerifiedNoFill) <==> no_fill_evidence(i, o)
    &&& (s matches PendingCancelStateV1::VerifiedNoFill(p) ==> proof_matches(i, o, p))
    &&& (o.history_read_through_msc < i.registered_before_cancel_msc
        ==> s == PendingCancelStateV1::RequiresReview(PendingReviewReason::StaleObservation))
    &&& (o.history_read_through_msc >= i.registered_before_cancel_msc && !convention_supported(o.volume_convention)
        ==> s == PendingCancelStateV1::RequiresReview(PendingReviewReason::UnsupportedVolumeConvention))
    &&& (review_owed(i, o) ==> s is RequiresReview)
    &&& (s is RequiresReview ==> review_owed(i, o) || sum_initial(i.orders@) > u64::MAX)
    &&& (s is RequiresReview && !review_owed(i, o)
        ==> s == PendingCancelStateV1::RequiresReview(PendingReviewReason::QuantityOverflow))
    &&& (no_fill_reads(i, o) && sum_initial(i.orders@) > u64::MAX
        ==> s == PendingCancelStateV1::RequiresReview(PendingReviewReason::QuantityOverflow))
    &&& (o.history_read_through_msc >= i.registered_before_cancel_msc && convention_supported(o.volume_convention)
        && global_reads_acceptable(i, o) && o.receipt_cut == Some(PendingReceiptCutV1::RequiresReview)
        ==> s == PendingCancelStateV1::RequiresReview(PendingReviewReason::ReceiptReview))
    &&& (!(s is RequiresReview) && global_wait(i, o) is Some
        ==> s == PendingCancelStateV1::Waiting(global_wait(i, o)->0))
    &&& (powod_przegladu(i, o) matches Some(e) ==> s == PendingCancelStateV1::RequiresReview(e))
    &&& (s is RequiresReview ==> powod_przegladu(i, o) is Some)
}

fn evaluate_no_fill(i: &PendingCancelIntentV1, o: &PendingCancelObservationV1) -> (r: PendingCancelStateV1)
    requires
        intent_valid(*i),
    ensures
        evaluation_consistent(*i, *o, r),
{
    match evaluate_checked(i, o) {
        Ok(s) => s,
        Err(reason) => PendingCancelStateV1::RequiresReview(reason),
    }
}

/// The review reason that an observation earns before any evidence is read,
/// in the order of precedence: session, owner, revision, supersession,
/// staleness, and a conflicting replay of the last sequence.
pub open spec fn rejection(
    i: PendingCancelIntentV1,
    last: Option<PendingCancelObservationV1>,
    c: PendingProofContext,
    o: PendingCancelObservationV1,
) -> Option<PendingReviewReason> {
    if !(c.session matches Some(s) && s.same(i.key.session)) || !o.identity_confirmed
        || !o.session_before.same(i.key.session) || !o.session_after.same(i.key.session) {
        Some(PendingReviewReason::SessionMismatch)
    } else if c.owner_engine@ != i.key.owner_engine@ || c.basket_id != i.key.basket_id {
        Some(PendingReviewReason::OwnerMismatch)
    } else if c.revision != i.revision || o.revision != i.revision {
        Some(PendingReviewReason::RevisionMismatch)
    } else if !c.operation_still_current || !o.key.same(i.key) {
        Some(PendingReviewReason::Superseded)
    } else if o.observation_seq <= i.registered_after_observation
        || (last matches Some(v) && o.observation_seq < v.observation_seq) {
        Some(PendingReviewReason::StaleObservation)
    } else if last matches Some(v) && o.observation_seq == v.observation_seq && !o.same(v) {
        Some(PendingReviewReason::ConflictingObservation)
    } else {
        None
    }
}

proof fn lemma_obserwacja_same_refl(v: PendingCancelObservationV1)
    ensures
        v.same(v),
{
    assert forall|k: int| 0 <= k < v.orders@.len() implies #[trigger] v.orders@[k].same(v.orders@[k]) by {
        lemma_evidence_same_refl(v.orders@[k]);
    }
    match v.current_orders {
        EvidenceRead::Complete(x) => {
            assert(records_same(x@, x@));
        },
        _ => {},
    }
}

/// A repeated observation after an accepted one: the exact replay is
/// accepted again (and so changes nothing), an older sequence number is
/// stale, and another observation under the same sequence number conflicts.
pub proof fn powtorzona_obserwacja(
    i: PendingCancelIntentV1,
    prior: Option<PendingCancelObservationV1>,
    c: PendingProofContext,
    v: PendingCancelObservationV1,
    o2: PendingCancelObservationV1,
)
    requires
        rejection(i, prior, c, v) is None,
        o2.identity_confirmed,
        o2.session_before == v.session_before,
        o2.session_after == v.session_after,
        o2.revision == v.revision,
        o2.key == v.key,
    ensures
        v.same(v),
        rejection(i, Some(v), c, v) is None,
        o2.observation_seq < v.observation_seq
            ==> rejection(i, Some(v), c, o2) == Some(PendingReviewReason::StaleObservation),
        o2.observation_seq == v.observation_seq && !o2.same(v)
            ==> rejection(i, Some(v), c, o2) == Some(PendingReviewReason::ConflictingObservation),
{
    lemma_obserwacja_same_refl(v);
}

/// RAM-only reducer. Review is sticky; there is no reset and no resume.
pub struct PendingCancelReducerV1 {
    intent: PendingCancelIntentV1,
    last: Option<PendingCancelObservationV1>,
    state: PendingCancelStateV1,
}

impl PendingCancelReducerV1 {
    pub closed spec fn intent_of(self) -> PendingCancelIntentV1 {
        self.intent
    }

    pub closed spec fn last_of(self) -> Option<PendingCancelObservationV1> {
        self.last
    }

    pub closed spec fn state_of(self) -> PendingCancelStateV1 {
        self.state
    }

    /// Internal consistency: a live reducer was registered with a valid intent,
    /// and the last accepted observation matches the current state.
    pub closed spec fn wf(self) -> bool {
        &&& (!(self.state is RequiresReview) ==> intent_valid(self.intent))
        &&& (self.last matches Some(v) ==> (!(self.state is RequiresReview)
            ==> evaluation_consistent(self.intent, v, self.state)))
    }

    pub fn new(intent: PendingCancelIntentV1, origin: PendingRegistrationOrigin) -> (r: PendingCancelReducerV1)
        ensures
            r.wf(),
            r.intent_of() == intent,
            r.last_of() is None,
            r.state_of() == (if origin == PendingRegistrationOrigin::RestoredUnverified {
                PendingCancelStateV1::RequiresReview(PendingReviewReason::ColdRestart)
            } else if !intent_valid(intent) {
                PendingCancelStateV1::RequiresReview(PendingReviewReason::InvalidIntent)
            } else {
                PendingCancelStateV1::Waiting(PendingWaitReason::NotObserved)
            }),
    {
        let state = if origin == PendingRegistrationOrigin::RestoredUnverified {
            PendingCancelStateV1::RequiresReview(PendingReviewReason::ColdRestart)
        } else if !valid_intent(&intent) {
            PendingCancelStateV1::RequiresReview(PendingReviewReason::InvalidIntent)
        } else {
            PendingCancelStateV1::Waiting(PendingWaitReason::NotObserved)
        };
        PendingCancelReducerV1 { intent, last: None, state }
    }

    pub fn state(&self) -> (r: &PendingCancelStateV1)
        ensures
            *r == self.state_of(),
    {
        &self.state
    }

    /// Feeds one observation. A reducer in review never moves again; an
    /// observation rejected by `rejection` puts it in review; an exact replay of
    /// the last accepted observation changes nothing; any other observation is
    /// evaluated and becomes the last one.
    pub fn observe(&mut self, current: &PendingProofContext, obs: PendingCancelObservationV1) -> (r: &PendingCancelStateV1)
        requires
            old(self).wf(),
        ensures
            final(self).wf(),
            *r == final(self).state_of(),
            final(self).intent_of() == old(self).intent_of(),
            old(self).state_of() is RequiresReview ==> *final(self) == *old(self),
            !(old(self).state_of() is RequiresReview) ==> match rejection(old(self).intent_of(), old(self).last_of(), *current, obs) {
                Some(reason) => final(self).state_of() == PendingCancelStateV1::RequiresReview(reason)
                    && final(self).last_of() == old(self).last_of(),
                None => if old(self).last_of() matches Some(v) && v.same(obs) {
                    *final(self) == *old(self)
                } else {
                    final(self).last_of() == Some(obs)
                        && evaluation_consistent(old(self).intent_of(), obs, final(self).state_of())
                },
            },
    {
        if self.state.is_review() {
            return &self.state;
        }
        let invalid = self.rejection_of(current, &obs);
        match invalid {
            Some(reason) => {
                self.state = PendingCancelStateV1::RequiresReview(reason);
            },
            None => {
                let replay = match &self.last {
                    Some(v) => v.rowna(&obs),
                    None => false,
                };
                if !replay {
                    let s = evaluate_no_fill(&self.intent, &obs);
                    self.state = s;
                    self.last = Some(obs);
                }
            },
        }
        &self.state
    }

    fn rejection_of(&self, current: &PendingProofContext, obs: &PendingCancelObservationV1) -> (r: Option<PendingReviewReason>)
        ensures
            r == rejection(self.intent, self.last, *current, *obs),
    {
        let i = &self.intent;
        let session_ok = match &current.session {
            Some(s) => s.rowna(&i.key.session),
            None => false,
        };
        if !session_ok || !obs.identity_confirmed || !obs.session_before.rowna(&i.key.session)
            || !obs.session_after.rowna(&i.key.session) {
            Some(PendingReviewReason::SessionMismatch)
        } else if current.owner_engine != i.key.owner_engine || current.basket_id != i.key.basket_id {
            Some(PendingReviewReason::OwnerMismatch)
        } else if current.revision != i.revision || obs.revision != i.revision {
            Some(PendingReviewReason::RevisionMismatch)
        } else if !current.operation_still_current || !obs.key.rowny(&i.key) {
            Some(PendingReviewReason::Superseded)
        } else {
            let older = match &self.last {
                Some(v) => obs.observation_seq < v.observation_seq,
                None => false,
            };
            if obs.observation_seq <= i.registered_after_observation || older {
                Some(PendingReviewReason::StaleObservation)
            } else {
                let conflict = match &self.last {
                    Some(v) => obs.observation_seq == v.observation_seq && !obs.rowna(v),
                    None => false,
                };
                if conflict {
                    Some(PendingReviewReason::ConflictingObservation)
                } else {
                    None
                }
            }
        }
    }
}

impl PendingCancelStateV1 {
    pub fn is_review(&self) -> (r: bool)
        ensures
            r == self is RequiresReview,
    {
        match self {
            PendingCancelStateV1::RequiresReview(_) => true,
            _ => false,
        }
    }
}

} // verus!
