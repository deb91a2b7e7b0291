//! The validated support/resistance warmup snapshot: its identity
//! vocabulary and the checks a snapshot must pass before any state is built
//! from it. MID prices and spreads are integer broker points.
use vstd::prelude::*;
use crate::tekst::{blank, pusty_po_przycieciu, rowne_teksty};

verus! {

/// Where warmup ticks came from.
#[derive(Debug, Clone, Copy, PartialEq, Eq, Structural)]
pub enum SrWarmupSourceV2 {
    FullBrokerTicks,
    ObservedBotTicks,
    BacktestTickData,
}

/// Explicit adapter identity, not inferred from prices or message publication time.
#[derive(Debug, Clone, PartialEq, Eq)]
pub struct SrWarmupContextV2 {
    pub account_scope: String,
    pub symbol: String,
    pub runtime_generation: String,
    pub source_kind: SrWarmupSourceV2,
    pub clock_domain: String,
    /// Transformation applied by THIS adapter, once.
    pub explicit_offset_ms: i64,
    pub price_normalization: String,
}

/// Outcome of applying a warmup snapshot.
#[derive(Debug, Clone, Copy, PartialEq, Eq, Structural)]
pub enum SrWarmupAppliedV2 {
    Inactive,
    Applied { dynamic_ready: bool, tick_count: u64 },
}


impl SrWarmupContextV2 {
    pub open spec fn same(self, o: SrWarmupContextV2) -> bool {
        &&& self.account_scope@ == o.account_scope@
        &&& self.symbol@ == o.symbol@
        &&& self.runtime_generation@ == o.runtime_generation@
        &&& self.source_kind == o.source_kind
        &&& self.clock_domain@ == o.clock_domain@
        &&& self.explicit_offset_ms == o.explicit_offset_ms
        &&& self.price_normalization@ == o.price_normalization@
    }

    pub fn rowny(&self, o: &SrWarmupContextV2) -> (r: bool)
        ensures
            r == self.same(*o),
    {
        rowne_teksty(self.account_scope.as_str(), o.account_scope.as_str())
            && rowne_teksty(self.symbol.as_str(), o.symbol.as_str())
            && rowne_teksty(self.runtime_generation.as_str(), o.runtime_generation.as_str())
            && self.source_kind == o.source_kind
            && rowne_teksty(self.clock_domain.as_str(), o.clock_domain.as_str())
            && self.explicit_offset_ms == o.explicit_offset_ms
            && rowne_teksty(self.price_normalization.as_str(), o.price_normalization.as_str())
    }
}

/// One minute of warmup ticks.
#[derive(Debug, Clone, Copy, PartialEq, Eq, Structural)]
pub struct SrWarmupMinuteV2 {
    pub bucket_open_ts: i64,
    pub first_tick_ts: i64,
    pub last_tick_ts: i64,
    pub high_mid: u64,
    pub low_mid: u64,
    pub close_mid: u64,
    pub last_spread: u64,
    pub tick_count: u64,
}

/// A state-only warmup snapshot.
#[derive(Debug, Clone)]
pub struct SrWarmupSnapshotV2 {
    pub version: u32,
    pub context: SrWarmupContextV2,
    /// SHA-256 of the canonical tick stream, in lower- or upper-case hex.
    pub source_hash: String,
    pub from_inclusive: i64,
    pub cutoff_exclusive: i64,
    /// A completed range scan, not a claim that a sampled feed saw every market tick.
    pub complete_query_coverage: bool,
    pub minutes: Vec<SrWarmupMinuteV2>,
}

/// Most minutes a snapshot may hold.
pub const SR_MAX_MINUTES: usize = 1_000_000;

pub open spec fn hex(c: char) -> bool {
    ('0' <= c <= '9') || ('a' <= c <= 'f') || ('A' <= c <= 'F')
}

/// Sixty-four hexadecimal digits.
pub open spec fn skrot_poprawny(h: Seq<char>) -> bool {
    h.len() == 64 && forall|k: int| 0 <= k < h.len() ==> hex(#[trigger] h[k])
}

/// Start of the minute a nonnegative time stamp falls in.
pub open spec fn minuta(ts: i64) -> int {
    (ts / 60_000) * 60_000
}

/// Minute `j` lies outside the causal range, is misaligned, empty, or not
/// after the minute before it.
pub open spec fn minuta_zla(ms: Seq<SrWarmupMinuteV2>, j: int, from: i64, cutoff: i64) -> bool {
    let m = ms[j];
    ||| m.tick_count == 0
    ||| m.first_tick_ts < from
    ||| m.last_tick_ts >= cutoff
    ||| m.first_tick_ts > m.last_tick_ts
    ||| m.bucket_open_ts != minuta(m.first_tick_ts)
    ||| m.bucket_open_ts != minuta(m.last_tick_ts)
    ||| (j > 0 && m.bucket_open_ts <= ms[j - 1].bucket_open_ts)
}

/// The minute's MID prices are not ordered low <= close <= high above zero.
pub open spec fn ceny_zle(m: SrWarmupMinuteV2) -> bool {
    m.low_mid == 0 || m.high_mid < m.low_mid || m.close_mid < m.low_mid || m.close_mid > m.high_mid
}

/// Ticks of the first `n` minutes.
pub open spec fn suma_tickow(ms: Seq<SrWarmupMinuteV2>, n: int) -> nat
    decreases n,
{
    if n <= 0 {
        0
    } else {
        suma_tickow(ms, n - 1) + ms[n - 1].tick_count as nat
    }
}

pub open spec fn minuta_odrzucona(ms: Seq<SrWarmupMinuteV2>, j: int, from: i64, cutoff: i64) -> bool {
    minuta_zla(ms, j, from, cutoff) || ceny_zle(ms[j]) || suma_tickow(ms, j + 1) > u64::MAX
}

/// The first rejected minute among the first `n`.
pub open spec fn pierwsza_odrzucona(ms: Seq<SrWarmupMinuteV2>, n: int, from: i64, cutoff: i64) -> Option<int>
    decreases n,
{
    if n <= 0 {
        None
    } else {
        match pierwsza_odrzucona(ms, n - 1, from, cutoff) {
            Some(j) => Some(j),
            None => if minuta_odrzucona(ms, n - 1, from, cutoff) { Some(n - 1) } else { None },
        }
    }
}

proof fn lemma_pierwsza_stala(ms: Seq<SrWarmupMinuteV2>, n: int, n2: int, from: i64, cutoff: i64)
    requires
        0 <= n <= n2,
        pierwsza_odrzucona(ms, n, from, cutoff) is Some,
    ensures
        pierwsza_odrzucona(ms, n2, from, cutoff) == pierwsza_odrzucona(ms, n, from, cutoff),
    decreases n2 - n,
{
    if n < n2 {
        lemma_pierwsza_stala(ms, n, n2 - 1, from, cutoff);
    }
}

proof fn lemma_brak_odrzuconej(ms: Seq<SrWarmupMinuteV2>, n: int, from: i64, cutoff: i64)
    requires
        pierwsza_odrzucona(ms, n, from, cutoff) is None,
    ensures
        forall|j: int| 0 <= j < n ==> !#[trigger] minuta_odrzucona(ms, j, from, cutoff),
    decreases n,
{
    if n > 0 {
        lemma_brak_odrzuconej(ms, n - 1, from, cutoff);
    }
}

/// A snapshot that passes the check has every minute priced above zero with
/// low <= close <= high, every minute non-empty, aligned to its minute and
/// inside the causal range, and the minutes in strictly increasing order.
pub proof fn przyjeta_migawka_ma_poprawne_minuty(s: SrWarmupSnapshotV2, expected: SrWarmupContextV2, cutoff: i64)
    requires
        blad_migawki(s, expected, cutoff) is None,
    ensures
        s.minutes@.len() <= SR_MAX_MINUTES,
        forall|j: int|
            0 <= j < s.minutes@.len() ==> {
                let m = #[trigger] s.minutes@[j];
                &&& 0 < m.low_mid
                &&& m.low_mid <= m.close_mid
                &&& m.close_mid <= m.high_mid
                &&& m.tick_count > 0
                &&& s.from_inclusive <= m.first_tick_ts
                &&& m.first_tick_ts <= m.last_tick_ts
                &&& m.last_tick_ts < cutoff
                &&& m.bucket_open_ts == (m.first_tick_ts / 60_000) * 60_000
                &&& m.bucket_open_ts == (m.last_tick_ts / 60_000) * 60_000
            },
        forall|j: int|
            0 < j < s.minutes@.len() ==> s.minutes@[j - 1].bucket_open_ts < (#[trigger] s.minutes@[j]).bucket_open_ts,
{
    let ms = s.minutes@;
    lemma_brak_odrzuconej(ms, ms.len() as int, s.from_inclusive, cutoff);
    assert forall|j: int| 0 <= j < ms.len() implies {
        let m = #[trigger] ms[j];
        &&& 0 < m.low_mid
        &&& m.low_mid <= m.close_mid
        &&& m.close_mid <= m.high_mid
        &&& m.tick_count > 0
        &&& s.from_inclusive <= m.first_tick_ts
        &&& m.first_tick_ts <= m.last_tick_ts
        &&& m.last_tick_ts < cutoff
        &&& m.bucket_open_ts == (m.first_tick_ts / 60_000) * 60_000
        &&& m.bucket_open_ts == (m.last_tick_ts / 60_000) * 60_000
        &&& (j > 0 ==> ms[j - 1].bucket_open_ts < m.bucket_open_ts)
    } by {
        assert(!minuta_odrzucona(ms, j, s.from_inclusive, cutoff));
        assert(!minuta_zla(ms, j, s.from_inclusive, cutoff));
    }
}

/// What a snapshot check answers: the first failed condition, in order.
pub open spec fn blad_migawki(s: SrWarmupSnapshotV2, expected: SrWarmupContextV2, cutoff: i64) -> Option<Seq<char>> {
    let ms = s.minutes@;
    if s.version != 2 {
        Some("unsupported SR snapshot version"@)
    } else if !s.context.same(expected) {
        Some("SR account/symbol/generation/source/clock/precision mismatch"@)
    } else if blank(expected.account_scope@) || blank(expected.symbol@) || blank(expected.runtime_generation@)
        || blank(expected.clock_domain@) || blank(expected.price_normalization@) {
        Some("missing SR identity/clock/precision context"@)
    } else if s.cutoff_exclusive != cutoff || s.from_inclusive < 0 || s.from_inclusive >= cutoff {
        Some("invalid SR causal range/cutoff"@)
    } else if !s.complete_query_coverage {
        Some("incomplete SR query coverage"@)
    } else if !skrot_poprawny(s.source_hash@) {
        Some("invalid SR canonical source hash"@)
    } else if ms.len() > SR_MAX_MINUTES {
        Some("SR snapshot exceeds bounded minute capacity"@)
    } else {
        match pierwsza_odrzucona(ms, ms.len() as int, s.from_inclusive, cutoff) {
            Some(j) => if minuta_zla(ms, j, s.from_inclusive, cutoff) {
                Some("invalid/future/out-of-order SR minute"@)
            } else if ceny_zle(ms[j]) {
                Some("invalid SR MID price/spread"@)
            } else {
                Some("SR tick count overflow"@)
            },
            None => None,
        }
    }
}

fn hex_exec(c: char) -> (r: bool)
    ensures
        r == hex(c),
{
    ('0' <= c && c <= '9') || ('a' <= c && c <= 'f') || ('A' <= c && c <= 'F')
}

fn skrot_poprawny_exec(h: &str) -> (r: bool)
    ensures
        r == skrot_poprawny(h@),
{
    let n = h.unicode_len();
    if n != 64 {
        return false;
    }
    let mut k: usize = 0;
    while k < n
        invariant
            n == h@.len(),
            k <= n,
            forall|j: int| 0 <= j < k ==> hex(#[trigger] h@[j]),
        decreases n - k,
    {
        if !hex_exec(h.get_char(k)) {
            return false;
        }
        k = k + 1;
    }
    true
}

impl SrWarmupSnapshotV2 {
    /// Checks a snapshot against the expected adapter identity and cutoff:
    /// version, identity, causal range, coverage, source hash, capacity, and
    /// minute by minute alignment, order, MID prices and the tick total.
    pub fn validate(&self, expected: &SrWarmupContextV2, cutoff: i64) -> (r: Result<(), String>)
        ensures
            match blad_migawki(*self, *expected, cutoff) {
                Some(e) => r matches Err(x) && x@ == e,
                None => r is Ok,
            },
    {
        if self.version != 2 {
            proof { reveal_strlit("unsupported SR snapshot version"); }
            return Err(String::from_str("unsupported SR snapshot version"));
        }
        if !self.context.rowny(expected) {
            proof { reveal_strlit("SR account/symbol/generation/source/clock/precision mismatch"); }
            return Err(String::from_str("SR account/symbol/generation/source/clock/precision mismatch"));
        }
        if pusty_po_przycieciu(expected.account_scope.as_str()) || pusty_po_przycieciu(expected.symbol.as_str())
            || pusty_po_przycieciu(expected.runtime_generation.as_str()) || pusty_po_przycieciu(expected.clock_domain.as_str())
            || pusty_po_przycieciu(expected.price_normalization.as_str()) {
            proof { reveal_strlit("missing SR identity/clock/precision context"); }
            return Err(String::from_str("missing SR identity/clock/precision context"));
        }
        if self.cutoff_exclusive != cutoff || self.from_inclusive < 0 || self.from_inclusive >= cutoff {
            proof { reveal_strlit("invalid SR causal range/cutoff"); }
            return Err(String::from_str("invalid SR causal range/cutoff"));
        }
        if !self.complete_query_coverage {
            proof { reveal_strlit("incomplete SR query coverage"); }
            return Err(String::from_str("incomplete SR query coverage"));
        }
        if !skrot_poprawny_exec(self.source_hash.as_str()) {
            proof { reveal_strlit("invalid SR canonical source hash"); }
            return Err(String::from_str("invalid SR canonical source hash"));
        }
        if self.minutes.len() > SR_MAX_MINUTES {
            proof { reveal_strlit("SR snapshot exceeds bounded minute capacity"); }
            return Err(String::from_str("SR snapshot exceeds bounded minute capacity"));
        }
        let ghost ms = self.minutes@;
        let from = self.from_inclusive;
        let mut previous: Option<i64> = None;
        let mut ticks: u64 = 0;
        let mut k: usize = 0;
        while k < self.minutes.len()
            invariant
                ms == self.minutes@,
                from == self.from_inclusive,
                0 <= from < cutoff,
                k <= ms.len(),
                pierwsza_odrzucona(ms, k as int, from, cutoff) is None,
                ticks == suma_tickow(ms, k as int),
                previous == (if k == 0 { None::<i64> } else { Some(ms[k - 1].bucket_open_ts) }),
                self.version == 2,
                self.context.same(*expected),
                !(blank(expected.account_scope@) || blank(expected.symbol@) || blank(expected.runtime_generation@)
                    || blank(expected.clock_domain@) || blank(expected.price_normalization@)),
                self.cutoff_exclusive == cutoff,
                self.complete_query_coverage,
                skrot_poprawny(self.source_hash@),
                ms.len() <= SR_MAX_MINUTES,
            decreases ms.len() - k,
        {
            let m = self.minutes[k];
            let zla = m.tick_count == 0 || m.first_tick_ts < from || m.last_tick_ts >= cutoff
                || m.first_tick_ts > m.last_tick_ts || m.bucket_open_ts != m.first_tick_ts / 60_000 * 60_000
                || m.bucket_open_ts != m.last_tick_ts / 60_000 * 60_000 || match previous {
                    Some(p) => m.bucket_open_ts <= p,
                    None => false,
                };
            if zla {
                proof {
                    assert(minuta_zla(ms, k as int, from, cutoff));
                    lemma_pierwsza_stala(ms, k + 1, ms.len() as int, from, cutoff);
                    reveal_strlit("invalid/future/out-of-order SR minute");
                }
                return Err(String::from_str("invalid/future/out-of-order SR minute"));
            }
            if m.low_mid == 0 || m.high_mid < m.low_mid || m.close_mid < m.low_mid || m.close_mid > m.high_mid {
                proof {
                    assert(!minuta_zla(ms, k as int, from, cutoff));
                    assert(ceny_zle(ms[k as int]));
                    lemma_pierwsza_stala(ms, k + 1, ms.len() as int, from, cutoff);
                    reveal_strlit("invalid SR MID price/spread");
                }
                return Err(String::from_str("invalid SR MID price/spread"));
            }
            match ticks.checked_add(m.tick_count) {
                Some(v) => {
                    ticks = v;
                },
                None => {
                    proof {
                        assert(!minuta_zla(ms, k as int, from, cutoff));
                        assert(suma_tickow(ms, k + 1) > u64::MAX);
                        lemma_pierwsza_stala(ms, k + 1, ms.len() as int, from, cutoff);
                        reveal_strlit("SR tick count overflow");
                    }
                    return Err(String::from_str("SR tick count overflow"));
                },
            }
            previous = Some(m.bucket_open_ts);
            k = k + 1;
        }
        Ok(())
    }
}


/// Whether the exact-tick warmup applies: exact ticks are configured, SR
/// trailing is enabled and the dynamic SR is active (the engine's own
/// reading of its SR state is handed in).
pub fn sr_warmup_exact_active(exact_ticks: bool, trail_sr_enabled: bool, sr_dynamic_active: bool) -> (r: bool)
    ensures
        r == (exact_ticks && trail_sr_enabled && sr_dynamic_active),
{
    exact_ticks && trail_sr_enabled && sr_dynamic_active
}

} // verus!
