//! Closed option sets of the strategy configuration, the default values of
//! its integer, flag and option fields, and the rules read from its entry and
//! session text fields.
use vstd::prelude::*;
use crate::tekst::{czesci, liczba_u32, liczba_i64, trimmed_text, podziel, przytnij,
    liczba_u32_z_tekstu, liczba_i64_z_tekstu};

verus! {

/// What the risk-free rule does to an open basket.
#[derive(Debug, Clone, Copy, PartialEq, Eq, Structural)]
pub enum RiskFreeMode {
    CloseAllKeepNearest,
    CloseAllKeepBest,
    CloseProfitableOnly,
    MoveSlToBeOnly,
    CloseEverything,
    Ignore,
}

/// What the daily trailing drawdown is a percentage of.
#[derive(Debug, Clone, Copy, PartialEq, Eq, Structural)]
pub enum DayTrailBasis {
    /// Legacy: allowable drawdown is a percentage of the entire equity peak.
    EquityPeak,
    /// Allowable drawdown is a percentage of profit earned above day start.
    ProfitPeak,
}

/// Take-profit of the runner left after risk-free.
#[derive(Debug, Clone, Copy, PartialEq, Eq, Structural)]
pub enum RiskFreeRunnerTarget {
    KeepTp,
    LastTp,
    NoTpTrailOnly,
    NextTp,
}

/// How a stop-loss update is applied.
#[derive(Debug, Clone, Copy, PartialEq, Eq, Structural)]
pub enum SppSlMode {
    Off,
    Stop,
    OnlyIfBetter,
    RunnersOnly,
    RunnersOnlyIfBetter,
    BankersOnly,
}

/// What an out-at-entry message closes.
#[derive(Debug, Clone, Copy, PartialEq, Eq, Structural)]
pub enum OutAtEntryMode {
    CloseAll,
    CloseLosersOnly,
    CloseFlatOnly,
    MoveSlToBe,
    Ignore,
}

/// Out-at-entry handling of positions under water.
#[derive(Debug, Clone, Copy, PartialEq, Eq, Structural)]
pub enum OaePodWoda {
    NicNieRob,
    Zamknij,
    DociagnijStop,
}

/// Reaction to a stop-loss hit message.
#[derive(Debug, Clone, Copy, PartialEq, Eq, Structural)]
pub enum SlHitMode {
    CancelPendings,
    CloseAll,
    VerifyByPrice,
    Ignore,
}

/// How long pending entries live.
#[derive(Debug, Clone, Copy, PartialEq, Eq, Structural)]
pub enum PendingLifetime {
    UntilTp1,
    UntilTp2,
    UntilTp3,
    Never,
}

/// How volume is distributed over the take-profits.
#[derive(Debug, Clone, Copy, PartialEq, Eq, Structural)]
pub enum TpSchedule {
    AllRunners,
    ScaleOutPct,
    OfficialPct,
    OfficialCounts,
    Ladder,
    AllAtTp1,
}

/// Trailing-stop algorithm.
#[derive(Debug, Clone, Copy, PartialEq, Eq, Structural)]
pub enum TrailMode {
    Gap,
    LockPct,
    Tiered,
    Atr,
    Chandelier,
    Off,
}

/// Positions that the support/resistance trail applies to.
#[derive(Debug, Clone, Copy, PartialEq, Eq, Structural)]
pub enum TrailSrScope {
    Runner,
    Tp3Up,
    All,
}

/// When the support/resistance trail becomes active.
#[derive(Debug, Clone, Copy, PartialEq, Eq, Structural)]
pub enum TrailSrActivation {
    Entry,
    Gain,
    Tp1,
    Tp2,
    Tp3,
}

/// Source of the adaptive entry state.
#[derive(Debug, Clone, Copy, PartialEq, Eq, Structural)]
pub enum EaStateSrc {
    FloatR,
    FloatPctEquity,
}

/// Whether the adaptive entry state may loosen inside a basket.
#[derive(Debug, Clone, Copy, PartialEq, Eq, Structural)]
pub enum EaRatchet {
    NieLuzujWKoszyku,
    Swobodny,
}

/// Daily state of the adaptive entry rule.
#[derive(Debug, Clone, Copy, PartialEq, Eq, Structural)]
pub enum EaStanDnia {
    Off,
    TylkoInkaso,
}

/// What a close-all message closes.
#[derive(Debug, Clone, Copy, PartialEq, Eq, Structural)]
pub enum CloseAllScope {
    Global,
    Basket,
}

/// How an entry zone is offset.
#[derive(Debug, Clone, Copy, PartialEq, Eq, Structural)]
pub enum ZoneOffsetMode {
    /// No offset (named `None` in the configuration files).
    NoOffset,
    Price,
    Directional,
}

/// What happens to a pending entry the price already crossed.
#[derive(Debug, Clone, Copy, PartialEq, Eq, Structural)]
pub enum PendingCrossPolicy {
    Market,
    Stop,
    Shift,
    Skip,
}

/// How market entries are sent.
#[derive(Debug, Clone, Copy, PartialEq, Eq, Structural)]
pub enum MarketEntryMode {
    GridAtOnce,
    Single,
    Laddered,
}

/// Stop of the runner left after risk-free.
#[derive(Debug, Clone, Copy, PartialEq, Eq, Structural)]
pub enum RiskFreeRunnerStop {
    Be,
    BeOwn,
    TrailGap,
    Off,
}

/// Account quantity that lot sizing is based on.
#[derive(Debug, Clone, Copy, PartialEq, Eq, Structural)]
pub enum PodstawaLota {
    Balance,
    Equity,
    MinOfBoth,
}

/// What the trend filter does to a counter-trend entry.
#[derive(Debug, Clone, Copy, PartialEq, Eq, Structural)]
pub enum TrendFilterMode {
    Block,
    Shrink,
}

/// Which pendings a cancellation reaches.
#[derive(Debug, Clone, Copy, PartialEq, Eq, Structural)]
pub enum PendingScope {
    SameBasket,
    AnyBasket,
}

/// Sides that are traded.
#[derive(Debug, Clone, Copy, PartialEq, Eq, Structural)]
pub enum SideFilter {
    Both,
    BuyOnly,
    SellOnly,
}

/// Period of the drawdown guard.
#[derive(Debug, Clone, Copy, PartialEq, Eq, Structural)]
pub enum DdGuardScope {
    Daily,
    Lifetime,
    LifetimePeakDailyReset,
}

/// What confirms a take-profit.
#[derive(Debug, Clone, Copy, PartialEq, Eq, Structural)]
pub enum TpSource {
    PriceOnly,
    SignalOnly,
    Either,
    SignalConfirmedByPrice,
    PriceFirstSignalWindow,
}

/// Price the regime filter measures.
#[derive(Debug, Clone, Copy, PartialEq, Eq, Structural)]
pub enum RegimeCena {
    Rynkowa,
    Wejscia,
    Obie,
}

/// Statistic of the regime filter.
#[derive(Debug, Clone, Copy, PartialEq, Eq, Structural)]
pub enum RegimeMiara {
    Srednia,
    Mediana,
    Kanal,
    Wykladnicza,
    Percentyl,
}

/// Regime filter behaviour over a data gap.
#[derive(Debug, Clone, Copy, PartialEq, Eq, Structural)]
pub enum RegimeGdyRozerwany {
    Milcz,
    KrotkieOkno,
    Miekko,
}

/// Regime filter direction.
#[derive(Debug, Clone, Copy, PartialEq, Eq, Structural)]
pub enum RegimeFilter {
    Off,
    TrendMa,
    CounterMa,
}

/// Volatility-based sizing.
#[derive(Debug, Clone, Copy, PartialEq, Eq, Structural)]
pub enum VolSizeMode {
    Off,
    Target,
    Percentile,
}

/// Rounding of banked volume.
#[derive(Debug, Clone, Copy, PartialEq, Eq, Structural)]
pub enum BankRounding {
    Nearest,
    Up,
    Down,
}

/// Which positions are banked first.
#[derive(Debug, Clone, Copy, PartialEq, Eq, Structural)]
pub enum BankFrom {
    Worst,
    Best,
}

/// Target of the last runner.
#[derive(Debug, Clone, Copy, PartialEq, Eq, Structural)]
pub enum LastRunner {
    Runner,
    NextTp,
    NoTp,
}

/// Smart stop-loss policy.
#[derive(Debug, Clone, Copy, PartialEq, Eq, Structural)]
pub enum SmartSlMode {
    Off,
    Ladder,
    BreakevenOnly,
    LadderWithBe,
}

/// What the trading-session gate applies to.
#[derive(Debug, Clone, Copy, PartialEq, Eq, Structural)]
pub enum SesjaBramka {
    Sygnal,
    Wypelnienie,
    Oba,
}

/// Target taken from an opposite signal.
#[derive(Debug, Clone, Copy, PartialEq, Eq, Structural)]
pub enum CelZPrzeciwnego {
    Off,
    BlizszaKrawedz,
    DalszaKrawedz,
    Srodek,
}

impl Default for DayTrailBasis {
    fn default() -> (r: DayTrailBasis)
        ensures
            r == DayTrailBasis::EquityPeak,
    {
        DayTrailBasis::EquityPeak
    }
}

/// A dead setting: a field that has no effect because its switch is off.
#[derive(Debug, Clone, PartialEq)]
pub struct MartweUstawienie {
    pub pole: &'static str,
    pub wlacznik: &'static str,
    pub opis: String,
}

// Default values of the configuration fields that a missing entry takes.

pub fn oae_pod_woda_domyslna() -> (r: OaePodWoda)
    ensures
        r == OaePodWoda::NicNieRob,
{
    OaePodWoda::NicNieRob
}

pub fn sr_tf_min_domyslne() -> (r: u32)
    ensures
        r == 1,
{
    1
}

pub fn sr_fractal_domyslny() -> (r: u32)
    ensures
        r == 3,
{
    3
}

pub fn sr_okno_h_domyslne() -> (r: u32)
    ensures
        r == 24,
{
    24
}

pub fn sr_atr_period_domyslny() -> (r: u32)
    ensures
        r == 14,
{
    14
}

pub fn trail_adaptive_runners_only_default() -> (r: bool)
    ensures
        r == true,
{
    true
}

pub fn trail_adaptive_min_samples_default() -> (r: u32)
    ensures
        r == 8,
{
    8
}

pub fn podstawa_lota_domyslna() -> (r: PodstawaLota)
    ensures
        r == PodstawaLota::Balance,
{
    PodstawaLota::Balance
}

pub fn default_ea_state_src() -> (r: EaStateSrc)
    ensures
        r == EaStateSrc::FloatR,
{
    EaStateSrc::FloatR
}

pub fn default_ea_state_ratchet() -> (r: EaRatchet)
    ensures
        r == EaRatchet::NieLuzujWKoszyku,
{
    EaRatchet::NieLuzujWKoszyku
}

pub fn default_ea_state_journal() -> (r: bool)
    ensures
        r == true,
{
    true
}

pub fn default_ea_stan_dnia() -> (r: EaStanDnia)
    ensures
        r == EaStanDnia::Off,
{
    EaStanDnia::Off
}

pub fn default_ea_stan_dnia_prog_sl() -> (r: u32)
    ensures
        r == 2,
{
    2
}

pub fn prawda() -> (r: bool)
    ensures
        r == true,
{
    true
}

pub fn trzy_u32() -> (r: u32)
    ensures
        r == 3,
{
    3
}

pub fn regime_cena_domyslna() -> (r: RegimeCena)
    ensures
        r == RegimeCena::Rynkowa,
{
    RegimeCena::Rynkowa
}

pub fn regime_miara_domyslna() -> (r: RegimeMiara)
    ensures
        r == RegimeMiara::Srednia,
{
    RegimeMiara::Srednia
}

pub fn regime_gdy_rozerwany_domyslny() -> (r: RegimeGdyRozerwany)
    ensures
        r == RegimeGdyRozerwany::Milcz,
{
    RegimeGdyRozerwany::Milcz
}

pub fn sesja_bramka_domyslna() -> (r: SesjaBramka)
    ensures
        r == SesjaBramka::Sygnal,
{
    SesjaBramka::Sygnal
}

pub fn default_dedup_pelny_status() -> (r: bool)
    ensures
        r == true,
{
    true
}

pub fn default_edycja_wykonuje_reszte_akcji() -> (r: bool)
    ensures
        r == false,
{
    false
}

pub fn default_dedup_klucz_z_wartoscia() -> (r: bool)
    ensures
        r == false,
{
    false
}

pub fn default_edycja_sieroty_nie_otwiera() -> (r: bool)
    ensures
        r == false,
{
    false
}

pub fn default_entry_idempotencja() -> (r: bool)
    ensures
        r == true,
{
    true
}

pub fn default_rf_wymaga_wykonania() -> (r: bool)
    ensures
        r == false,
{
    false
}

pub fn default_market_entry_units() -> (r: u32)
    ensures
        r == 0,
{
    0
}

pub fn default_market_hybrid_now_units() -> (r: u32)
    ensures
        r == 0,
{
    0
}

pub fn default_market_hybrid_pending_units() -> (r: u32)
    ensures
        r == 0,
{
    0
}

pub fn default_market_hybrid_tp_stage() -> (r: u8)
    ensures
        r == 0,
{
    0
}

pub fn default_market_unfilled_cancel_stage() -> (r: u8)
    ensures
        r == 0,
{
    0
}

pub fn default_pending_cancel_on_riskfree() -> (r: bool)
    ensures
        r == false,
{
    false
}

pub fn default_bank_all_at_stage() -> (r: u8)
    ensures
        r == 0,
{
    0
}

pub fn default_units_per_level() -> (r: bool)
    ensures
        r == true,
{
    true
}

pub fn default_units_per_level_zone() -> (r: bool)
    ensures
        r == true,
{
    true
}

pub fn default_trail_sr_enabled() -> (r: bool)
    ensures
        r == false,
{
    false
}

pub fn default_trail_sr_scope() -> (r: TrailSrScope)
    ensures
        r == TrailSrScope::Runner,
{
    TrailSrScope::Runner
}

pub fn default_trail_sr_activation() -> (r: TrailSrActivation)
    ensures
        r == TrailSrActivation::Tp2,
{
    TrailSrActivation::Tp2
}

pub fn default_close_all_scope() -> (r: CloseAllScope)
    ensures
        r == CloseAllScope::Global,
{
    CloseAllScope::Global
}

pub fn cel_z_przeciwnego_domyslny() -> (r: CelZPrzeciwnego)
    ensures
        r == CelZPrzeciwnego::Off,
{
    CelZPrzeciwnego::Off
}

/// Default export format name of a preset.
pub fn domyslny_format() -> (r: String)
    ensures
        r@ == "ATFX"@,
{
    String::from_str("ATFX")
}


/// The integer and text settings of the entry ladder, of the official counts
/// and of the session gate.
#[derive(Debug, Clone)]
pub struct UstawieniaWejsc {
    /// units of a market entry
    pub entry_units: u32,
    /// units of a limit entry; 0 = as a market entry
    pub entry_units_limit: u32,
    /// ladder layout: comma-separated unit counts per level
    pub entry_uklad: String,
    /// comma-separated official counts
    pub official_counts: String,
    /// trade only inside the session hours
    pub session_filter: bool,
    /// comma-separated hour ranges `a-b` (from a, before b) or single hours
    pub session_hours: String,
}

/// One ladder level as the layout gives it: the integer kept between 0 and 9.
pub open spec fn szczebel(v: i64) -> u32 {
    if v < 0 {
        0
    } else if v > 9 {
        9
    } else {
        v as u32
    }
}

/// The levels of the parts of a layout that read as integers, in order.
pub open spec fn szczeble(ps: Seq<Seq<char>>) -> Seq<u32>
    decreases ps.len(),
{
    if ps.len() == 0 {
        Seq::empty()
    } else {
        let p = szczeble(ps.drop_last());
        match liczba_i64(trimmed_text(ps.last())) {
            Some(v) => p.push(szczebel(v)),
            None => p,
        }
    }
}

/// The parts of a list that read as unsigned 32-bit integers, in order.
pub open spec fn liczby_czesci(ps: Seq<Seq<char>>) -> Seq<u32>
    decreases ps.len(),
{
    if ps.len() == 0 {
        Seq::empty()
    } else {
        let p = liczby_czesci(ps.drop_last());
        match liczba_u32(trimmed_text(ps.last())) {
            Some(v) => p.push(v),
            None => p,
        }
    }
}

/// Whether one part of the session hours admits an hour: a range `a-b`
/// admits a up to but not b, a single hour admits itself; an unreadable
/// start admits nothing.
pub open spec fn godzina_w_czesci(part: Seq<char>, hour: u32) -> bool {
    let ps = czesci(part, '-');
    let a = liczba_u32(trimmed_text(ps[0]));
    let b = if ps.len() > 1 { liczba_u32(trimmed_text(ps[1])) } else { None };
    match (a, b) {
        (Some(a), Some(b)) => a <= hour && hour < b,
        (Some(a), None) => hour == a,
        _ => false,
    }
}

impl UstawieniaWejsc {
    /// Units of one entry: a limit entry takes its own count when one is set.
    pub fn units_for(&self, is_limit: bool) -> (r: u32)
        ensures
            r == (if is_limit && self.entry_units_limit > 0 { self.entry_units_limit } else { self.entry_units }),
    {
        if is_limit && self.entry_units_limit > 0 {
            self.entry_units_limit
        } else {
            self.entry_units
        }
    }

    /// The ladder layout: every part that reads as an integer, kept between
    /// 0 and 9; a layout of nothing but zeros is no layout.
    pub fn uklad_drabinki(&self) -> (r: Vec<u32>)
        ensures
            ({
                let v = szczeble(czesci(self.entry_uklad@, ','));
                r@ == if forall|k: int| 0 <= k < v.len() ==> v[k] == 0 { Seq::<u32>::empty() } else { v }
            }),
    {
        let parts = podziel(self.entry_uklad.as_str(), ',');
        let ghost ps = czesci(self.entry_uklad@, ',');
        let mut v: Vec<u32> = Vec::new();
        let mut zera = true;
        let mut k: usize = 0;
        while k < parts.len()
            invariant
                k <= parts@.len(),
                parts@.len() == ps.len(),
                forall|j: int| 0 <= j < parts@.len() ==> (#[trigger] parts@[j])@ == ps[j],
                v@ == szczeble(ps.take(k as int)),
                zera == forall|j: int| 0 <= j < v@.len() ==> v@[j] == 0,
            decreases parts@.len() - k,
        {
            proof {
                assert(ps.take(k + 1).drop_last() =~= ps.take(k as int));
                assert(ps.take(k + 1).last() == ps[k as int]);
            }
            match liczba_i64_z_tekstu(przytnij(parts[k])) {
                Some(x) => {
                    let l: u32 = if x < 0 {
                        0
                    } else if x > 9 {
                        9
                    } else {
                        x as u32
                    };
                    let ghost przed = v@;
                    if l != 0 {
                        zera = false;
                    }
                    v.push(l);
                    proof {
                        assert(v@[przed.len() as int] == l);
                        assert forall|j: int| 0 <= j < przed.len() implies v@[j] == przed[j] by {}
                        if !zera && l == 0 {
                            let w = choose|j: int| 0 <= j < przed.len() && przed[j] != 0;
                            assert(v@[w] != 0);
                        }
                    }
                },
                None => {},
            }
            k = k + 1;
        }
        proof {
            assert(ps.take(parts@.len() as int) =~= ps);
        }
        if zera {
            return Vec::new();
        }
        v
    }

    /// The official counts: every part that reads as an unsigned integer.
    pub fn parse_counts(&self) -> (r: Vec<u32>)
        ensures
            r@ == liczby_czesci(czesci(self.official_counts@, ',')),
    {
        let parts = podziel(self.official_counts.as_str(), ',');
        let ghost ps = czesci(self.official_counts@, ',');
        let mut v: Vec<u32> = Vec::new();
        let mut k: usize = 0;
        while k < parts.len()
            invariant
                k <= parts@.len(),
                parts@.len() == ps.len(),
                forall|j: int| 0 <= j < parts@.len() ==> (#[trigger] parts@[j])@ == ps[j],
                v@ == liczby_czesci(ps.take(k as int)),
            decreases parts@.len() - k,
        {
            proof {
                assert(ps.take(k + 1).drop_last() =~= ps.take(k as int));
                assert(ps.take(k + 1).last() == ps[k as int]);
            }
            match liczba_u32_z_tekstu(przytnij(parts[k])) {
                Some(x) => {
                    v.push(x);
                },
                None => {},
            }
            k = k + 1;
        }
        proof {
            assert(ps.take(parts@.len() as int) =~= ps);
        }
        v
    }

    /// The session gate: every hour passes when it is off; otherwise the hour
    /// must be admitted by one part of the session hours.
    pub fn hours_ok(&self, hour: u32) -> (r: bool)
        ensures
            r == (!self.session_filter || exists|k: int|
                0 <= k < czesci(self.session_hours@, ',').len()
                    && godzina_w_czesci(#[trigger] czesci(self.session_hours@, ',')[k], hour)),
    {
        if !self.session_filter {
            return true;
        }
        let parts = podziel(self.session_hours.as_str(), ',');
        let ghost ps = czesci(self.session_hours@, ',');
        let mut k: usize = 0;
        while k < parts.len()
            invariant
                k <= parts@.len(),
                parts@.len() == ps.len(),
                forall|j: int| 0 <= j < parts@.len() ==> (#[trigger] parts@[j])@ == ps[j],
                forall|j: int| 0 <= j < k ==> !godzina_w_czesci(#[trigger] ps[j], hour),
                ps == czesci(self.session_hours@, ','),
                self.session_filter,
            decreases parts@.len() - k,
        {
            let g = podziel(parts[k], '-');
            proof {
                crate::tekst::lemma_czesci_niepuste(parts@[k as int]@, '-');
            }
            let a = liczba_u32_z_tekstu(przytnij(g[0]));
            let b = if g.len() > 1 {
                liczba_u32_z_tekstu(przytnij(g[1]))
            } else {
                None
            };
            let trafia = match (a, b) {
                (Some(a), Some(b)) => hour >= a && hour < b,
                (Some(a), None) => hour == a,
                _ => false,
            };
            if trafia {
                assert(godzina_w_czesci(czesci(self.session_hours@, ',')[k as int], hour));
                return true;
            }
            k = k + 1;
        }
        false
    }
}

} // verus!
