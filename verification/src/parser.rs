//! Message classifiers and field readers of the signal parser: regular
//! expression tests that decide what kind of channel message a text is, and
//! the prices and counts its capture groups carry (prices in thousandths).
use vstd::prelude::*;
use crate::tekst::{tysieczne, tysieczne_z_tekstu, liczba_u32, liczba_u32_z_tekstu, rowne_teksty, dlugosc_utf8, dluzszy_niz, czesci, podziel, liczba_tekstem, decimal_text, cyfra_tekstem, cyfra_exec};
use crate::broker::Side;

verus! {

/// Whether a regular expression finds a match somewhere in a text, as the
/// `regex` crate decides it; None when the pattern does not compile.
pub uninterp spec fn dopasowanie(wzorzec: Seq<char>, tekst: Seq<char>) -> Option<bool>;

/// Compiles the pattern with `regex::Regex::new` and tests the text with
/// `Regex::is_match`. The claim: the answer is `dopasowanie` of the pattern
/// and the text (a pure function of both), and None exactly when compiling
/// fails. Compiling and testing are one step here because a compiled regex
/// is only ever used for this one test.
#[verifier::external_body]
fn pasuje(wzorzec: &str, tekst: &str) -> (r: Option<bool>)
    ensures
        r == dopasowanie(wzorzec@, tekst@),
{
    match regex::Regex::new(wzorzec) {
        Ok(re) => Some(re.is_match(tekst)),
        Err(_) => None,
    }
}

/// The pattern compiles and matches the text.
pub open spec fn trafia(wzorzec: Seq<char>, tekst: Seq<char>) -> bool {
    dopasowanie(wzorzec, tekst) == Some(true)
}

fn trafia_exec(wzorzec: &str, tekst: &str) -> (r: bool)
    ensures
        r == trafia(wzorzec@, tekst@),
{
    match pasuje(wzorzec, tekst) {
        Some(b) => b,
        None => false,
    }
}

/// A stop-loss field.
pub open spec fn re_sl() -> Seq<char> {
    r"(?i)\bSL\s*[:@=]?\s*\b(\d{3,6}(?:[.,]\d{1,3})?)"@
}

/// A take-profit field with one price.
pub open spec fn re_tp() -> Seq<char> {
    r"(?i)\bA?TP\s*\d?\s*[:@=]?\s*\b(\d{3,6}(?:[.,]\d{1,3})?)"@
}

/// A take-profit field with a list of prices.
pub open spec fn re_tp_list() -> Seq<char> {
    r"(?i)\bA?TP\s*\d?\s*[:@=]?\s*((?:\b\d{3,6}(?:[.,]\d{1,3})?\b[ \t,/]{0,3})+)"@
}

pub open spec fn re_tp_hit2() -> Seq<char> {
    r"(?i)\bTP\s*(\d)\s*(?:AND|&|,|\+)\s*(\d)\s*HIT\b"@
}

pub open spec fn re_tp_hit_confirmed_indexed() -> Seq<char> {
    r"(?i)\bTP\s*\d\s*(?:AND\s+TP\s*\d\s*)?HIT\b|\bHIT\s+TP\s*\d\b"@
}

pub open spec fn re_level_hit() -> Seq<char> {
    r"(?i)\b(\d{3,6}(?:[.,]\d{1,3})?)\s*HIT\b"@
}

pub open spec fn re_at_tp_proximity() -> Seq<char> {
    r"(?i)\bAT\s+TP\s*\d\b"@
}

pub open spec fn re_pips_hit() -> Seq<char> {
    r"(?i)\b\d+\s*PIPS?\s*(?:HIT|DONE|SECURED)"@
}

pub open spec fn re_pips_running() -> Seq<char> {
    r"(?i)\b\d+(?:[.,]\d+)?\s*PIPS?\s+RUNNING\b"@
}

pub open spec fn re_recap_title() -> Seq<char> {
    r"(?i)\b(?:(?:DAILY|WEEKLY|FRIDAY|MONTHLY)\s+)?(?:TRADING\s+|TRADE\s+)?RECAP\b"@
}

pub open spec fn re_recap_total() -> Seq<char> {
    r"(?i)\bTOTAL\s+TRADES?\s*:"@
}

pub open spec fn re_recap_results() -> Seq<char> {
    r"(?i)\b(?:WINNING|LOSING)\s+TRADES?\s*:"@
}

pub open spec fn re_invalid_only() -> Seq<char> {
    r"(?im)^\W*INVALID\W*$"@
}

pub open spec fn re_invalid_linia() -> Seq<char> {
    r"(?im)^[^\n\d]{0,15}\bINVALID\b[^\n\d]{0,30}$"@
}

pub open spec fn re_no_longer_valid() -> Seq<char> {
    r"(?i)\bNO\s+LONGER\s+VALID\b"@
}

pub open spec fn re_wait_next() -> Seq<char> {
    r"(?i)\bWAIT\s+FOR\s+THE\s+NEXT\s+TRADE\b"@
}

pub open spec fn re_zone_failed() -> Seq<char> {
    r"(?i)\b(?:ZONE|SETUP)\s+FAILED\b"@
}

/// An entry needs a stop-loss field and a take-profit field, single or listed.
pub open spec fn wejscie_z(sl: bool, tp: bool, tp_lista: bool) -> bool {
    sl && (tp || tp_lista)
}

/// Whether a text with these fields looks like an entry.
pub fn wejscie_z_dopasowan(sl: bool, tp: bool, tp_lista: bool) -> (r: bool)
    ensures
        r == wejscie_z(sl, tp, tp_lista),
{
    sl && (tp || tp_lista)
}

/// A text that carries both a stop-loss and a take-profit field looks like an entry.
pub fn wyglada_na_wejscie(text: &str) -> (r: bool)
    ensures
        r == wejscie_z(trafia(re_sl(), text@), trafia(re_tp(), text@), trafia(re_tp_list(), text@)),
{
    let sl = trafia_exec(r"(?i)\bSL\s*[:@=]?\s*\b(\d{3,6}(?:[.,]\d{1,3})?)", text);
    let tp = trafia_exec(r"(?i)\bA?TP\s*\d?\s*[:@=]?\s*\b(\d{3,6}(?:[.,]\d{1,3})?)", text);
    let tp_lista = trafia_exec(r"(?i)\bA?TP\s*\d?\s*[:@=]?\s*((?:\b\d{3,6}(?:[.,]\d{1,3})?\b[ \t,/]{0,3})+)", text);
    wejscie_z_dopasowan(sl, tp, tp_lista)
}

/// "N pips hit/done/secured" without a take-profit index.
pub fn unindexed_pips_hit(text: &str) -> (r: bool)
    ensures
        r == trafia(re_pips_hit(), text@),
{
    trafia_exec(r"(?i)\b\d+\s*PIPS?\s*(?:HIT|DONE|SECURED)", text)
}

/// What a profit update message reports.
#[derive(Debug, Clone, Copy, PartialEq, Eq, Structural)]
pub enum ProfitUpdateKind {
    ConfirmedIndexedTp,
    ConfirmedPriceLevel,
    AtTpProximity,
    UnindexedPips,
    RunningPips,
    Other,
}

/// The first kind, in order of strength of evidence, whose pattern matched.
pub open spec fn rodzaj_z(
    tp_hit2: bool,
    tp_hit_indexed: bool,
    level_hit: bool,
    at_tp: bool,
    pips_hit: bool,
    pips_running: bool,
) -> ProfitUpdateKind {
    if tp_hit2 || tp_hit_indexed {
        ProfitUpdateKind::ConfirmedIndexedTp
    } else if level_hit {
        ProfitUpdateKind::ConfirmedPriceLevel
    } else if at_tp {
        ProfitUpdateKind::AtTpProximity
    } else if pips_hit {
        ProfitUpdateKind::UnindexedPips
    } else if pips_running {
        ProfitUpdateKind::RunningPips
    } else {
        ProfitUpdateKind::Other
    }
}

/// The kind of a profit update whose text gave these matches.
pub fn rodzaj_z_dopasowan(
    tp_hit2: bool,
    tp_hit_indexed: bool,
    level_hit: bool,
    at_tp: bool,
    pips_hit: bool,
    pips_running: bool,
) -> (r: ProfitUpdateKind)
    ensures
        r == rodzaj_z(tp_hit2, tp_hit_indexed, level_hit, at_tp, pips_hit, pips_running),
{
    if tp_hit2 || tp_hit_indexed {
        ProfitUpdateKind::ConfirmedIndexedTp
    } else if level_hit {
        ProfitUpdateKind::ConfirmedPriceLevel
    } else if at_tp {
        ProfitUpdateKind::AtTpProximity
    } else if pips_hit {
        ProfitUpdateKind::UnindexedPips
    } else if pips_running {
        ProfitUpdateKind::RunningPips
    } else {
        ProfitUpdateKind::Other
    }
}

/// The first kind, in order of strength of evidence, whose pattern the text matches.
pub open spec fn rodzaj_aktualizacji(t: Seq<char>) -> ProfitUpdateKind {
    rodzaj_z(
        trafia(re_tp_hit2(), t),
        trafia(re_tp_hit_confirmed_indexed(), t),
        trafia(re_level_hit(), t),
        trafia(re_at_tp_proximity(), t),
        trafia(re_pips_hit(), t),
        trafia(re_pips_running(), t),
    )
}

pub fn profit_update_kind(text: &str) -> (r: ProfitUpdateKind)
    ensures
        r == rodzaj_aktualizacji(text@),
{
    let tp_hit2 = trafia_exec(r"(?i)\bTP\s*(\d)\s*(?:AND|&|,|\+)\s*(\d)\s*HIT\b", text);
    let tp_hit_indexed = trafia_exec(r"(?i)\bTP\s*\d\s*(?:AND\s+TP\s*\d\s*)?HIT\b|\bHIT\s+TP\s*\d\b", text);
    let level_hit = trafia_exec(r"(?i)\b(\d{3,6}(?:[.,]\d{1,3})?)\s*HIT\b", text);
    let at_tp = trafia_exec(r"(?i)\bAT\s+TP\s*\d\b", text);
    let pips_hit = trafia_exec(r"(?i)\b\d+\s*PIPS?\s*(?:HIT|DONE|SECURED)", text);
    let pips_running = trafia_exec(r"(?i)\b\d+(?:[.,]\d+)?\s*PIPS?\s+RUNNING\b", text);
    rodzaj_z_dopasowan(tp_hit2, tp_hit_indexed, level_hit, at_tp, pips_hit, pips_running)
}

/// "At TP n" is price telemetry, not a confirmed hit.
pub fn at_tp_is_telemetry(text: &str) -> (r: bool)
    ensures
        r == (rodzaj_aktualizacji(text@) == ProfitUpdateKind::AtTpProximity),
{
    profit_update_kind(text) == ProfitUpdateKind::AtTpProximity
}

/// A recap needs a recap title, or a total line together with a win/loss line.
pub open spec fn podsumowanie_z(tytul: bool, suma: bool, wyniki: bool) -> bool {
    tytul || (suma && wyniki)
}

/// Whether a text with these lines is a recap of many trades.
pub fn podsumowanie_z_dopasowan(tytul: bool, suma: bool, wyniki: bool) -> (r: bool)
    ensures
        r == podsumowanie_z(tytul, suma, wyniki),
{
    tytul || (suma && wyniki)
}

/// A recap of many trades: a recap title, or a total line with a win/loss line.
pub fn podsumowanie_wielu_transakcji(text: &str) -> (r: bool)
    ensures
        r == podsumowanie_z(trafia(re_recap_title(), text@), trafia(re_recap_total(), text@), trafia(re_recap_results(), text@)),
{
    let tytul = trafia_exec(r"(?i)\b(?:(?:DAILY|WEEKLY|FRIDAY|MONTHLY)\s+)?(?:TRADING\s+|TRADE\s+)?RECAP\b", text);
    let suma = trafia_exec(r"(?i)\bTOTAL\s+TRADES?\s*:", text);
    let wyniki = trafia_exec(r"(?i)\b(?:WINNING|LOSING)\s+TRADES?\s*:", text);
    podsumowanie_z_dopasowan(tytul, suma, wyniki)
}

/// A setup is withdrawn by an "invalid" line, by "no longer valid" together
/// with "wait for the next trade", or by a failed zone or setup.
pub open spec fn uniewaznienie_z(
    invalid_only: bool,
    invalid_linia: bool,
    no_longer_valid: bool,
    wait_next: bool,
    zone_failed: bool,
) -> bool {
    invalid_only || invalid_linia || (no_longer_valid && wait_next) || zone_failed
}

/// Whether a text with these matches withdraws the setup.
pub fn uniewaznienie_z_dopasowan(
    invalid_only: bool,
    invalid_linia: bool,
    no_longer_valid: bool,
    wait_next: bool,
    zone_failed: bool,
) -> (r: bool)
    ensures
        r == uniewaznienie_z(invalid_only, invalid_linia, no_longer_valid, wait_next, zone_failed),
{
    invalid_only || invalid_linia || (no_longer_valid && wait_next) || zone_failed
}

/// The channel withdrew the setup.
pub fn is_invalidated(text: &str) -> (r: bool)
    ensures
        r == uniewaznienie_z(
            trafia(re_invalid_only(), text@),
            trafia(re_invalid_linia(), text@),
            trafia(re_no_longer_valid(), text@),
            trafia(re_wait_next(), text@),
            trafia(re_zone_failed(), text@),
        ),
{
    let invalid_only = trafia_exec(r"(?im)^\W*INVALID\W*$", text);
    let invalid_linia = trafia_exec(r"(?im)^[^\n\d]{0,15}\bINVALID\b[^\n\d]{0,30}$", text);
    let no_longer_valid = trafia_exec(r"(?i)\bNO\s+LONGER\s+VALID\b", text);
    let wait_next = trafia_exec(r"(?i)\bWAIT\s+FOR\s+THE\s+NEXT\s+TRADE\b", text);
    let zone_failed = trafia_exec(r"(?i)\b(?:ZONE|SETUP)\s+FAILED\b", text);
    uniewaznienie_z_dopasowan(invalid_only, invalid_linia, no_longer_valid, wait_next, zone_failed)
}


/// What `Regex::captures` finds of a pattern in a text, as the `regex` crate
/// decides it: None when the pattern does not compile, then None when there
/// is no match, else the texts of the capture groups of the first match
/// (group 0 the whole match), None for a group that took no part.
pub uninterp spec fn przechwyty(wzorzec: Seq<char>, tekst: Seq<char>) -> Option<Option<Seq<Option<Seq<char>>>>>;

pub open spec fn grupy(v: Seq<Option<String>>) -> Seq<Option<Seq<char>>> {
    v.map_values(|x: Option<String>| match x {
        Some(t) => Some(t@),
        None => None,
    })
}

/// Compiles the pattern with `regex::Regex::new` and takes the groups of the
/// first match with `Regex::captures`. The claim: the answer is `przechwyty`
/// of the pattern and the text (a pure function of both), and each group
/// that took part is a stretch of the text (`Match::as_str` is the matched
/// part of the haystack).
#[verifier::external_body]
fn przechwyc(wzorzec: &str, tekst: &str) -> (r: Option<Option<Vec<Option<String>>>>)
    ensures
        match r {
            None => przechwyty(wzorzec@, tekst@) is None,
            Some(None) => przechwyty(wzorzec@, tekst@) == Some(None::<Seq<Option<Seq<char>>>>),
            Some(Some(v)) => przechwyty(wzorzec@, tekst@) == Some(Some(grupy(v@))) && grupy_z_tekstu(grupy(v@), tekst@),
        },
{
    match regex::Regex::new(wzorzec) {
        Ok(re) => Some(re.captures(tekst).map(|c| c.iter().map(|m| m.map(|m| m.as_str().to_string())).collect())),
        Err(_) => None,
    }
}

/// The text of group `k` of the first match, if there is one.
pub open spec fn grupa_z(p: Option<Option<Seq<Option<Seq<char>>>>>, k: int) -> Option<Seq<char>> {
    match p {
        Some(Some(g)) => if 0 <= k < g.len() { g[k] } else { None },
        _ => None,
    }
}

fn grupa(wzorzec: &str, tekst: &str, k: usize) -> (r: Option<String>)
    ensures
        match r {
            Some(t) => grupa_z(przechwyty(wzorzec@, tekst@), k as int) == Some(t@),
            None => grupa_z(przechwyty(wzorzec@, tekst@), k as int) is None,
        },
{
    match przechwyc(wzorzec, tekst) {
        Some(Some(v)) => {
            if k < v.len() {
                match &v[k] {
                    Some(t) => Some(t.clone()),
                    None => None,
                }
            } else {
                None
            }
        },
        _ => None,
    }
}

/// The price in group `k` of the first match, in thousandths.
pub open spec fn cena_grupy(wzorzec: Seq<char>, tekst: Seq<char>, k: int) -> Option<u64> {
    match grupa_z(przechwyty(wzorzec, tekst), k) {
        Some(g) => tysieczne(g),
        None => None,
    }
}

fn cena_grupy_exec(wzorzec: &str, tekst: &str, k: usize) -> (r: Option<u64>)
    ensures
        r == cena_grupy(wzorzec@, tekst@, k as int),
{
    match grupa(wzorzec, tekst, k) {
        Some(g) => tysieczne_z_tekstu(g.as_str()),
        None => None,
    }
}

pub open spec fn re_range_hint() -> Seq<char> {
    r"\(\s*(\d{3,6}(?:[.,]\d{1,3})?)\s*(?i:TO)\s*(\d{3,6}(?:[.,]\d{1,3})?)\s*\)"@
}

pub open spec fn re_rf() -> Seq<char> {
    r"(?i)\bRISK\s*FREE\b\s*(?:AT\s*)?[@(]?\s*(\d{3,6}(?:[.,]\d{1,3})?)?"@
}

pub open spec fn re_setsl() -> Seq<char> {
    r"(?i)(?:MOVE|SET)\s+SL\s+(?:TO\s+)?(\d{3,6}(?:[.,]\d{1,3})?)"@
}

pub open spec fn re_be_at() -> Seq<char> {
    r"(?i)\bSL\b[^\n\d]{0,25}\bSET\b[^\n\d]{0,15}(\d{3,6}(?:[.,]\d{1,3})?)"@
}

pub open spec fn re_close_layers() -> Seq<char> {
    r"(?i)\bCLOSE\b[^\n]{0,40}?\bLAYERS?\b|\bCLOSE\s+PARTIALS?\b|(?m)^[\W_]*TAKE\s+PARTIALS?\b"@
}

pub open spec fn re_layer_level() -> Seq<char> {
    r"(?i)\bCLOSE\s+(\d{3,6}(?:[.,]\d{1,3})?)\s+LAYER\b"@
}

pub open spec fn re_layer_count() -> Seq<char> {
    r"(?i)\bCLOSE\b(?:\s+(?:ALL|OFF|THE|WORST|TOP|BOTH|SOME))*\s*(\d+)?\s*(?:\w+\s+){0,2}?LAYERS?\b"@
}

pub open spec fn re_layer_optional() -> Seq<char> {
    r"(?i)\bYOU\s+CAN\b|\bIF\s+YOU\b|\bOR\s+(?:YOU\s+CAN\s+)?HOLD\b"@
}

/// A gold price worth reading as a level: from 1000 up to (not including) 10000.
pub open spec fn poziom_sensowny(v: u64) -> bool {
    1_000_000 <= v < 10_000_000
}

/// The level of an "N hit" message, in thousandths, when it is a sensible price.
/// The level a hit names: the price of the captured group, when it reads
/// as a price and is a sensible gold level.
pub open spec fn poziom_z(g: Option<Seq<char>>) -> Option<u64> {
    match g {
        Some(x) => match tysieczne(x) {
            Some(v) => if poziom_sensowny(v) { Some(v) } else { None },
            None => None,
        },
        None => None,
    }
}

pub open spec fn poziom_trafienia(t: Seq<char>) -> Option<u64> {
    poziom_z(grupa_z(przechwyty(re_level_hit(), t), 1))
}

/// The level a hit names, from the group a "level hit" match captured.
pub fn poziom_z_grupy(g: Option<&str>) -> (r: Option<u64>)
    ensures
        r == poziom_z(match g { Some(x) => Some(x@), None => None }),
{
    match g {
        Some(x) => match tysieczne_z_tekstu(x) {
            Some(v) => if 1_000_000 <= v && v < 10_000_000 { Some(v) } else { None },
            None => None,
        },
        None => None,
    }
}

pub fn hit_level(text: &str) -> (r: Option<u64>)
    ensures
        r == poziom_trafienia(text@),
{
    let g = grupa(r"(?i)\b(\d{3,6}(?:[.,]\d{1,3})?)\s*HIT\b", text, 1);
    match g {
        Some(x) => poziom_z_grupy(Some(x.as_str())),
        None => poziom_z_grupy(None),
    }
}

/// The prices of a candidate list, each once, in the order first seen.
pub open spec fn bez_powtorzen(k: Seq<Option<u64>>) -> Seq<u64>
    decreases k.len(),
{
    if k.len() == 0 {
        Seq::empty()
    } else {
        let p = bez_powtorzen(k.drop_last());
        match k.last() {
            Some(x) => if p.contains(x) { p } else { p.push(x) },
            None => p,
        }
    }
}

/// Keeps every price of the candidates once, in the order first seen.
pub fn wskazowki_z(kandydaci: &[Option<u64>]) -> (r: Vec<u64>)
    ensures
        r@ == bez_powtorzen(kandydaci@),
{
    let mut v: Vec<u64> = Vec::new();
    let mut k: usize = 0;
    while k < kandydaci.len()
        invariant
            k <= kandydaci@.len(),
            v@ == bez_powtorzen(kandydaci@.take(k as int)),
        decreases kandydaci@.len() - k,
    {
        proof {
            assert(kandydaci@.take(k + 1).drop_last() =~= kandydaci@.take(k as int));
            assert(kandydaci@.take(k + 1).last() == kandydaci@[k as int]);
        }
        match kandydaci[k] {
            Some(x) => {
                let mut jest = false;
                let mut j: usize = 0;
                while j < v.len()
                    invariant
                        j <= v@.len(),
                        jest <==> exists|q: int| 0 <= q < j && v@[q] == x,
                    decreases v@.len() - j,
                {
                    if v[j] == x {
                        jest = true;
                    }
                    j = j + 1;
                }
                if !jest {
                    v.push(x);
                }
            },
            None => {},
        }
        k = k + 1;
    }
    proof {
        assert(kandydaci@.take(kandydaci@.len() as int) =~= kandydaci@);
    }
    v
}

/// The candidate prices of a basket's message, in the order they are read:
/// a bracketed range, a risk-free price, a moved stop, a hit level and a
/// stop set at a price.
pub open spec fn kandydaci_koszyka(t: Seq<char>) -> Seq<Option<u64>> {
    seq![
        cena_grupy(re_range_hint(), t, 1),
        cena_grupy(re_range_hint(), t, 2),
        cena_grupy(re_rf(), t, 1),
        cena_grupy(re_setsl(), t, 1),
        poziom_trafienia(t),
        cena_grupy(re_be_at(), t, 1),
    ]
}

/// The price levels a message mentions that may name a basket, in
/// thousandths, each once, in the order first seen.
pub fn basket_hints(text: &str) -> (r: Vec<u64>)
    ensures
        r@ == bez_powtorzen(kandydaci_koszyka(text@)),
{
    let range = r"\(\s*(\d{3,6}(?:[.,]\d{1,3})?)\s*(?i:TO)\s*(\d{3,6}(?:[.,]\d{1,3})?)\s*\)";
    let k: Vec<Option<u64>> = vec![
        cena_grupy_exec(range, text, 1),
        cena_grupy_exec(range, text, 2),
        cena_grupy_exec(r"(?i)\bRISK\s*FREE\b\s*(?:AT\s*)?[@(]?\s*(\d{3,6}(?:[.,]\d{1,3})?)?", text, 1),
        cena_grupy_exec(r"(?i)(?:MOVE|SET)\s+SL\s+(?:TO\s+)?(\d{3,6}(?:[.,]\d{1,3})?)", text, 1),
        hit_level(text),
        cena_grupy_exec(r"(?i)\bSL\b[^\n\d]{0,25}\bSET\b[^\n\d]{0,15}(\d{3,6}(?:[.,]\d{1,3})?)", text, 1),
    ];
    proof {
        assert(k@ =~= kandydaci_koszyka(text@));
    }
    wskazowki_z(k.as_slice())
}

/// An instruction to close layers: how many (when no level is named), at
/// which level (in thousandths), and whether it is only a suggestion.
#[derive(Debug, Clone, Copy, PartialEq, Eq, Structural)]
pub struct LayerClose {
    pub count: Option<u32>,
    pub level: Option<u64>,
    pub optional: bool,
}

pub open spec fn warstwy_z(zamknij: bool, poziom: Option<u64>, ile: Option<u32>, opcjonalnie: bool) -> Option<LayerClose> {
    if !zamknij {
        None
    } else {
        Some(LayerClose { count: if poziom is Some { None } else { ile }, level: poziom, optional: opcjonalnie })
    }
}

/// The instruction that a close message with these readings gives: none
/// without a close phrase; a named level makes the count irrelevant.
pub fn warstwy_z_dopasowan(zamknij: bool, poziom: Option<u64>, ile: Option<u32>, opcjonalnie: bool) -> (r: Option<LayerClose>)
    ensures
        r == warstwy_z(zamknij, poziom, ile, opcjonalnie),
{
    if !zamknij {
        return None;
    }
    Some(LayerClose {
        count: match poziom {
            Some(_) => None,
            None => ile,
        },
        level: poziom,
        optional: opcjonalnie,
    })
}

/// The count of layers a close message names.
pub open spec fn ile_warstw(t: Seq<char>) -> Option<u32> {
    match grupa_z(przechwyty(re_layer_count(), t), 1) {
        Some(g) => liczba_u32(g),
        None => None,
    }
}

/// Reads an instruction to close layers from a message.
pub fn close_layers(text: &str) -> (r: Option<LayerClose>)
    ensures
        r == warstwy_z(
            trafia(re_close_layers(), text@),
            cena_grupy(re_layer_level(), text@, 1),
            ile_warstw(text@),
            trafia(re_layer_optional(), text@),
        ),
{
    let zamknij = trafia_exec(
        r"(?i)\bCLOSE\b[^\n]{0,40}?\bLAYERS?\b|\bCLOSE\s+PARTIALS?\b|(?m)^[\W_]*TAKE\s+PARTIALS?\b",
        text,
    );
    let poziom = cena_grupy_exec(r"(?i)\bCLOSE\s+(\d{3,6}(?:[.,]\d{1,3})?)\s+LAYER\b", text, 1);
    let ile = match grupa(r"(?i)\bCLOSE\b(?:\s+(?:ALL|OFF|THE|WORST|TOP|BOTH|SOME))*\s*(\d+)?\s*(?:\w+\s+){0,2}?LAYERS?\b", text, 1) {
        Some(g) => liczba_u32_z_tekstu(g.as_str()),
        None => None,
    };
    let opcjonalnie = trafia_exec(r"(?i)\bYOU\s+CAN\b|\bIF\s+YOU\b|\bOR\s+(?:YOU\s+CAN\s+)?HOLD\b", text);
    warstwy_z_dopasowan(zamknij, poziom, ile, opcjonalnie)
}


/// What `Regex::captures_iter` finds of a pattern in a text, as the `regex`
/// crate decides it: None when the pattern does not compile, else the groups
/// of every non-overlapping match in order, as `przechwyty` gives them.
pub uninterp spec fn wszystkie_przechwyty(wzorzec: Seq<char>, tekst: Seq<char>) -> Option<Seq<Seq<Option<Seq<char>>>>>;

pub open spec fn wszystkie_grupy(v: Seq<Vec<Option<String>>>) -> Seq<Seq<Option<Seq<char>>>> {
    v.map_values(|g: Vec<Option<String>>| grupy(g@))
}

/// Compiles the pattern with `regex::Regex::new` and collects the groups of
/// every match with `Regex::captures_iter`. The claim: the answer is
/// `wszystkie_przechwyty` of the pattern and the text, and each group that
/// took part in a match is a stretch of the text.
#[verifier::external_body]
fn przechwyc_wszystkie(wzorzec: &str, tekst: &str) -> (r: Option<Vec<Vec<Option<String>>>>)
    ensures
        match r {
            None => wszystkie_przechwyty(wzorzec@, tekst@) is None,
            Some(v) => wszystkie_przechwyty(wzorzec@, tekst@) == Some(wszystkie_grupy(v@)) && forall|j: int|
                0 <= j < v@.len() ==> grupy_z_tekstu(#[trigger] wszystkie_grupy(v@)[j], tekst@),
        },
{
    match regex::Regex::new(wzorzec) {
        Ok(re) => Some(re.captures_iter(tekst).map(|c| c.iter().map(|m| m.map(|m| m.as_str().to_string())).collect()).collect()),
        Err(_) => None,
    }
}

pub open spec fn re_hr_linia_loty() -> Seq<char> {
    r"(?im)^[\W_]*HIGH\s+RISK\b([^\n\d]{0,45})$"@
}

/// The text starts with "trad", letter case aside.
pub open spec fn zaczyna_trad(t: Seq<char>) -> bool {
    &&& t.len() >= 4
    &&& (t[0] == 'T' || t[0] == 't')
    &&& (t[1] == 'R' || t[1] == 'r')
    &&& (t[2] == 'A' || t[2] == 'a')
    &&& (t[3] == 'D' || t[3] == 'd')
}

/// One "high risk" line whose tail does not go on with "trad(e)".
pub open spec fn linia_hr_z_lotami(m: Seq<Option<Seq<char>>>) -> bool {
    m.len() > 1 && (m[1] matches Some(ogon) && !zaczyna_trad(crate::tekst::bez_wiodacych(ogon)))
}

/// A "high risk" line that is not "high risk trade": a note on lot size.
pub open spec fn hr_linia_loty_spec(t: Seq<char>) -> bool {
    match wszystkie_przechwyty(re_hr_linia_loty(), t) {
        Some(ms) => jest_linia_hr_z_lotami(ms),
        None => false,
    }
}

pub open spec fn jest_linia_hr_z_lotami(ms: Seq<Seq<Option<Seq<char>>>>) -> bool {
    exists|k: int| 0 <= k < ms.len() && linia_hr_z_lotami(#[trigger] ms[k])
}

fn zaczyna_trad_exec(t: &str) -> (r: bool)
    ensures
        r == zaczyna_trad(t@),
{
    if t.unicode_len() < 4 {
        return false;
    }
    let a = t.get_char(0);
    let b = t.get_char(1);
    let c = t.get_char(2);
    let d = t.get_char(3);
    (a == 'T' || a == 't') && (b == 'R' || b == 'r') && (c == 'A' || c == 'a') && (d == 'D' || d == 'd')
}

/// Whether a message has a "high risk" line that speaks of lot size rather
/// than of a high-risk trade.
/// Whether some of the "high risk" lines a match list captured is a note on
/// lot size.
pub fn linia_hr_z_dopasowan(ms: &Vec<Vec<Option<String>>>) -> (r: bool)
    ensures
        r == jest_linia_hr_z_lotami(wszystkie_grupy(ms@)),
{
    let ghost w = wszystkie_grupy(ms@);
    let mut k: usize = 0;
    while k < ms.len()
        invariant
            k <= ms@.len(),
            w == wszystkie_grupy(ms@),
            forall|j: int| 0 <= j < k ==> !linia_hr_z_lotami(#[trigger] w[j]),
        decreases ms@.len() - k,
    {
        let m = &ms[k];
        proof {
            assert(w[k as int] == grupy(m@));
        }
        if m.len() > 1 {
            match &m[1] {
                Some(ogon) => {
                    let o = crate::tekst::przytnij_z_lewej(ogon.as_str());
                    if !zaczyna_trad_exec(o) {
                        proof {
                            assert(w.len() == ms@.len());
                            assert(linia_hr_z_lotami(w[k as int]));
                        }
                        return true;
                    }
                },
                None => {},
            }
        }
        k = k + 1;
    }
    false
}

pub fn hr_linia_loty(text: &str) -> (r: bool)
    ensures
        r == hr_linia_loty_spec(text@),
{
    match przechwyc_wszystkie(r"(?im)^[\W_]*HIGH\s+RISK\b([^\n\d]{0,45})$", text) {
        Some(v) => linia_hr_z_dopasowan(&v),
        None => false,
    }
}


/// What `Regex::find` makes of a text, as the `regex` crate decides it:
/// None when the pattern does not compile, then None when there is no
/// match, else the text before the first match, the match and the text
/// after it.
pub uninterp spec fn okolice_dopasowania(wzorzec: Seq<char>, tekst: Seq<char>) -> Option<Option<(Seq<char>, Seq<char>, Seq<char>)>>;

/// Compiles the pattern with `regex::Regex::new`, finds the first match
/// with `Regex::find` and cuts the text at the match's ends. The claim: the
/// answer is `okolice_dopasowania` of the pattern and the text.
#[verifier::external_body]
fn okolice(wzorzec: &str, tekst: &str) -> (r: Option<Option<(String, String, String)>>)
    ensures
        match r {
            None => okolice_dopasowania(wzorzec@, tekst@) is None,
            Some(None) => okolice_dopasowania(wzorzec@, tekst@) == Some(None::<(Seq<char>, Seq<char>, Seq<char>)>),
            Some(Some(o)) => okolice_dopasowania(wzorzec@, tekst@) == Some(Some((o.0@, o.1@, o.2@)))
                && o.0@ + o.1@ + o.2@ == tekst@,
        },
{
    match regex::Regex::new(wzorzec) {
        Ok(re) => Some(re.find(tekst).map(|m| (tekst[..m.start()].to_string(), m.as_str().to_string(), tekst[m.end()..].to_string()))),
        Err(_) => None,
    }
}

/// Whether `char::is_alphabetic` holds of a character (the Unicode
/// Alphabetic property).
pub uninterp spec fn litera(c: char) -> bool;

/// Whether `char::is_alphanumeric` holds of a character.
pub uninterp spec fn litera_lub_cyfra(c: char) -> bool;

/// Calls `char::is_alphabetic`. The claim: the answer is `litera` of the character.
#[verifier::external_body]
fn czy_litera(c: char) -> (r: bool)
    ensures
        r == litera(c),
{
    c.is_alphabetic()
}

/// Calls `char::is_alphanumeric`. The claim: the answer is `litera_lub_cyfra`
/// of the character.
#[verifier::external_body]
fn czy_litera_lub_cyfra(c: char) -> (r: bool)
    ensures
        r == litera_lub_cyfra(c),
{
    c.is_alphanumeric()
}

pub open spec fn re_zen_wejscie() -> Seq<char> {
    r"(?i)\bXAUUSD\s+(?:BUY|SELL)\s+\d{3,6}(?:[.,]\d{1,3})?(?:\s*(?:[/_]|[-–—]{1,2})\s*\d{3,6}(?:[.,]\d{1,3})?)?"@
}

pub open spec fn re_zen_zona() -> Seq<char> {
    r"(?i)\b(?:ZONE|REGION)S?\b"@
}

/// The letters of a text, in order.
pub open spec fn litery(p: Seq<char>) -> Seq<char>
    decreases p.len(),
{
    if p.len() == 0 {
        Seq::empty()
    } else if litera(p.last()) {
        litery(p.drop_last()).push(p.last())
    } else {
        litery(p.drop_last())
    }
}

/// The last character of a text that is a letter, a digit or a colon.
pub open spec fn ostatni_znaczacy(p: Seq<char>) -> Option<char>
    decreases p.len(),
{
    if p.len() == 0 {
        None
    } else if litera_lub_cyfra(p.last()) || p.last() == ':' {
        Some(p.last())
    } else {
        ostatni_znaczacy(p.drop_last())
    }
}

/// The letters spell "highrisk", ASCII letter case aside.
pub open spec fn to_highrisk(l: Seq<char>) -> bool {
    &&& l.len() == 8
    &&& (l[0] == 'H' || l[0] == 'h') && (l[1] == 'I' || l[1] == 'i') && (l[2] == 'G' || l[2] == 'g')
    &&& (l[3] == 'H' || l[3] == 'h') && (l[4] == 'R' || l[4] == 'r') && (l[5] == 'I' || l[5] == 'i')
    &&& (l[6] == 'S' || l[6] == 's') && (l[7] == 'K' || l[7] == 'k')
}

/// The text before a zone-style entry head announces a zone: it has
/// letters, they are not just "high risk", and it ends in a colon or names
/// a zone or region.
pub open spec fn zapowiedz_przed(p: Seq<char>) -> bool {
    litery(p).len() > 0 && !to_highrisk(litery(p))
        && (ostatni_znaczacy(p) == Some(':') || trafia(re_zen_zona(), p))
}

/// A zone announcement: an "XAUUSD buy/sell <price>" line preceded by some
/// words other than just "high risk", which end with a colon or name a
/// zone or region.
pub open spec fn zapowiedz_strefy_spec(t: Seq<char>) -> bool {
    match okolice_dopasowania(re_zen_wejscie(), t) {
        Some(Some((p, _, _))) => zapowiedz_przed(p),
        _ => false,
    }
}

/// Whether the text before a zone-style entry head announces a zone.
pub fn zapowiedz_z_tekstu_przed(p: &str) -> (r: bool)
    ensures
        r == zapowiedz_przed(p@),
{
    let n = p.unicode_len();
    let mut l: Vec<char> = Vec::new();
    let mut ostatni: Option<char> = None;
    let mut k: usize = 0;
    while k < n
        invariant
            n == p@.len(),
            k <= n,
            l@ == litery(p@.take(k as int)),
            ostatni == ostatni_znaczacy(p@.take(k as int)),
        decreases n - k,
    {
        let c = p.get_char(k);
        proof {
            assert(p@.take(k + 1).drop_last() =~= p@.take(k as int));
            assert(p@.take(k + 1).last() == c);
        }
        if czy_litera(c) {
            l.push(c);
        }
        if czy_litera_lub_cyfra(c) || c == ':' {
            ostatni = Some(c);
        }
        k = k + 1;
    }
    proof {
        assert(p@.take(n as int) =~= p@);
    }
    if l.len() == 0 {
        return false;
    }
    let highrisk = l.len() == 8 && (l[0] == 'H' || l[0] == 'h') && (l[1] == 'I' || l[1] == 'i')
        && (l[2] == 'G' || l[2] == 'g') && (l[3] == 'H' || l[3] == 'h') && (l[4] == 'R' || l[4] == 'r')
        && (l[5] == 'I' || l[5] == 'i') && (l[6] == 'S' || l[6] == 's') && (l[7] == 'K' || l[7] == 'k');
    if highrisk {
        return false;
    }
    let dwukropek = match ostatni {
        Some(c) => c == ':',
        None => false,
    };
    dwukropek || trafia_exec(r"(?i)\b(?:ZONE|REGION)S?\b", p)
}

/// Whether a message announces a zone instead of giving an entry.
pub fn zapowiedz_strefy(text: &str) -> (r: bool)
    ensures
        r == zapowiedz_strefy_spec(text@),
{
    match okolice(
        r"(?i)\bXAUUSD\s+(?:BUY|SELL)\s+\d{3,6}(?:[.,]\d{1,3})?(?:\s*(?:[/_]|[-–—]{1,2})\s*\d{3,6}(?:[.,]\d{1,3})?)?",
        text,
    ) {
        Some(Some(o)) => zapowiedz_z_tekstu_przed(o.0.as_str()),
        _ => false,
    }
}


/// What `str::to_uppercase` makes of a text (Unicode upper-case mapping).
pub uninterp spec fn wielkie(s: Seq<char>) -> Seq<char>;

/// Calls `str::to_uppercase`. The claim: the answer is `wielkie` of the text.
#[verifier::external_body]
fn na_wielkie(s: &str) -> (r: String)
    ensures
        r@ == wielkie(s@),
{
    s.to_uppercase()
}

/// The text starts with the given prefix.
pub open spec fn zaczyna_sie(t: Seq<char>, p: Seq<char>) -> bool {
    t.len() >= p.len() && t.take(p.len() as int) == p
}

fn zaczyna_sie_exec(t: &str, p: &str) -> (r: bool)
    ensures
        r == zaczyna_sie(t@, p@),
{
    let n = p.unicode_len();
    if t.unicode_len() < n {
        return false;
    }
    let mut k: usize = 0;
    while k < n
        invariant
            n == p@.len(),
            n <= t@.len(),
            k <= n,
            forall|j: int| 0 <= j < k ==> t@[j] == p@[j],
        decreases n - k,
    {
        if t.get_char(k) != p.get_char(k) {
            proof {
                assert(t@.take(n as int)[k as int] != p@[k as int]);
            }
            return false;
        }
        k = k + 1;
    }
    assert(t@.take(n as int) =~= p@);
    true
}

/// "buy", ASCII letter case aside.
pub open spec fn to_buy(g: Seq<char>) -> bool {
    g.len() == 3 && (g[0] == 'B' || g[0] == 'b') && (g[1] == 'U' || g[1] == 'u') && (g[2] == 'Y' || g[2] == 'y')
}

fn to_buy_exec(g: &str) -> (r: bool)
    ensures
        r == to_buy(g@),
{
    if g.unicode_len() != 3 {
        return false;
    }
    let a = g.get_char(0);
    let b = g.get_char(1);
    let c = g.get_char(2);
    (a == 'B' || a == 'b') && (b == 'U' || b == 'u') && (c == 'Y' || c == 'y')
}

/// The side a captured "buy"/"sell" names.
pub open spec fn strona_z(g: Seq<char>) -> Side {
    if to_buy(g) { Side::Buy } else { Side::Sell }
}

/// "sell", letter case aside (the long s folds to s as well).
pub open spec fn to_sell(g: Seq<char>) -> bool {
    g.len() == 4 && (g[0] == 'S' || g[0] == 's' || g[0] == '\u{17F}') && (g[1] == 'E' || g[1] == 'e') && (g[2] == 'L' || g[2] == 'l')
        && (g[3] == 'L' || g[3] == 'l')
}

/// A captured direction word: "buy" or "sell", letter case aside. The
/// direction groups of the entry forms are `(BUY|SELL)` under case-insensitive
/// matching, so every group they capture is one.
pub open spec fn kierunek(g: Seq<char>) -> bool {
    to_buy(g) || to_sell(g)
}

fn kierunek_exec(g: &str) -> (r: bool)
    ensures
        r == kierunek(g@),
{
    if to_buy_exec(g) {
        return true;
    }
    if g.unicode_len() != 4 {
        return false;
    }
    let a = g.get_char(0);
    let b = g.get_char(1);
    let c = g.get_char(2);
    let d = g.get_char(3);
    (a == 'S' || a == 's' || a == '\u{17F}') && (b == 'E' || b == 'e') && (c == 'L' || c == 'l') && (d == 'L' || d == 'l')
}

/// A head whose direction group `x` names a side; none where it names none.
pub open spec fn jesli_kierunek(x: Seq<char>, h: (Side, bool, bool, u64, u64)) -> Option<(Side, bool, bool, u64, u64)> {
    if kierunek(x) { Some(h) } else { None }
}

/// `s` stands in `t` as a contiguous stretch.
pub open spec fn wycinek(s: Seq<char>, t: Seq<char>) -> bool {
    exists|a: int| 0 <= a && a + s.len() <= t.len() && #[trigger] t.subrange(a, a + s.len()) == s
}

/// Every group that took part in a match is a stretch of the text.
pub open spec fn grupy_z_tekstu(g: Seq<Option<Seq<char>>>, t: Seq<char>) -> bool {
    forall|k: int| 0 <= k < g.len() && (#[trigger] g[k]) is Some ==> wycinek(g[k]->0, t)
}

/// The text names the side in words: it holds "buy" for a buy and "sell"
/// for a sell, letter case aside.
pub open spec fn slowo_strony(t: Seq<char>, s: Side) -> bool {
    match s {
        Side::Buy => exists|i: int| 0 <= i && i + 3 <= t.len() && to_buy(#[trigger] t.subrange(i, i + 3)),
        Side::Sell => exists|i: int| 0 <= i && i + 4 <= t.len() && to_sell(#[trigger] t.subrange(i, i + 4)),
    }
}

proof fn lemma_kierunek_w_tekscie(g: Seq<Option<Seq<char>>>, t: Seq<char>, k: int, x: Seq<char>)
    requires
        grupy_z_tekstu(g, t),
        g_z(g, k) == Some(x),
    ensures
        kierunek(x) ==> slowo_strony(t, strona_z(x)),
{
    assert(g[k] is Some);
    assert(wycinek(x, t));
    let a = choose|a: int| 0 <= a && a + x.len() <= t.len() && #[trigger] t.subrange(a, a + x.len()) == x;
    if to_buy(x) {
        assert(to_buy(t.subrange(a, a + 3)));
    } else if to_sell(x) {
        assert(to_sell(t.subrange(a, a + 4)));
    }
}

/// Group `k` of a match.
pub open spec fn g_z(g: Seq<Option<Seq<char>>>, k: int) -> Option<Seq<char>> {
    if 0 <= k < g.len() { g[k] } else { None }
}

/// The price in group `k` of a match, in thousandths.
pub open spec fn cena_g(g: Seq<Option<Seq<char>>>, k: int) -> Option<u64> {
    match g_z(g, k) {
        Some(t) => tysieczne(t),
        None => None,
    }
}

fn g_exec(g: &Vec<Option<String>>, k: usize) -> (r: Option<&String>)
    ensures
        match r {
            Some(t) => g_z(grupy(g@), k as int) == Some(t@),
            None => g_z(grupy(g@), k as int) is None,
        },
{
    if k < g.len() {
        match &g[k] {
            Some(t) => Some(t),
            None => None,
        }
    } else {
        None
    }
}

fn cena_g_exec(g: &Vec<Option<String>>, k: usize) -> (r: Option<u64>)
    ensures
        r == cena_g(grupy(g@), k as int),
{
    match g_exec(g, k) {
        Some(t) => tysieczne_z_tekstu(t.as_str()),
        None => None,
    }
}

pub open spec fn najmniejsza(v: Seq<u64>) -> u64
    decreases v.len(),
{
    if v.len() <= 1 {
        if v.len() == 1 { v[0] } else { 0 }
    } else {
        let m = najmniejsza(v.drop_last());
        if v.last() < m { v.last() } else { m }
    }
}

pub open spec fn najwieksza(v: Seq<u64>) -> u64
    decreases v.len(),
{
    if v.len() <= 1 {
        if v.len() == 1 { v[0] } else { 0 }
    } else {
        let m = najwieksza(v.drop_last());
        if v.last() > m { v.last() } else { m }
    }
}


pub open spec fn re_px_zlecenie_linia() -> Seq<char> {
    r"(?im)^[\W_]*\b(BUY|SELL)\s+(STOPS?|LIMITS?)\s*(?:GOLD|XAUUSD|XAU)?\s*@?\s*(\d{3,6}(?:[.,]\d{1,3})?)\s*$"@
}

/// A captured order kind names a stop order.
pub open spec fn stop_z(g: Seq<char>) -> bool {
    zaczyna_sie(wielkie(g), "STOP"@)
}

/// An order line with its side, kind and price readable.
pub open spec fn linia_czytelna(e: Seq<Option<Seq<char>>>) -> bool {
    g_z(e, 1) is Some && kierunek(g_z(e, 1)->0) && g_z(e, 2) is Some && cena_g(e, 3) is Some
}

/// Order line `k` agrees with the first one in side and kind.
pub open spec fn linia_zgodna(ms: Seq<Seq<Option<Seq<char>>>>, k: int) -> bool {
    &&& linia_czytelna(ms[k])
    &&& strona_z(g_z(ms[k], 1)->0) == strona_z(g_z(ms[0], 1)->0)
    &&& stop_z(g_z(ms[k], 2)->0) == stop_z(g_z(ms[0], 2)->0)
}

pub open spec fn ceny_linii(ms: Seq<Seq<Option<Seq<char>>>>) -> Seq<u64> {
    ms.map_values(|e: Seq<Option<Seq<char>>>| cena_g(e, 3)->0)
}

/// Several order lines of one side and kind: the side, whether they are stop
/// orders, and the lowest and highest price (thousandths).
pub open spec fn wiele_zlecen(ms: Seq<Seq<Option<Seq<char>>>>) -> Option<(Side, bool, u64, u64)> {
    if ms.len() >= 2 && forall|k: int| 0 <= k < ms.len() ==> #[trigger] linia_zgodna(ms, k) {
        Some((strona_z(g_z(ms[0], 1)->0), stop_z(g_z(ms[0], 2)->0), najmniejsza(ceny_linii(ms)), najwieksza(ceny_linii(ms))))
    } else {
        None
    }
}

fn wiele_zlecen_exec(ms: &Vec<Vec<Option<String>>>) -> (r: Option<(Side, bool, u64, u64)>)
    ensures
        r == wiele_zlecen(wszystkie_grupy(ms@)),
{
    let ghost w = wszystkie_grupy(ms@);
    if ms.len() < 2 {
        return None;
    }
    let mut strona0 = Side::Buy;
    let mut stop0 = false;
    let mut lo: u64 = 0;
    let mut hi: u64 = 0;
    let mut k: usize = 0;
    while k < ms.len()
        invariant
            k <= ms@.len(),
            ms@.len() >= 2,
            w == wszystkie_grupy(ms@),
            w.len() == ms@.len(),
            forall|j: int| 0 <= j < k ==> #[trigger] linia_zgodna(w, j),
            k > 0 ==> strona0 == strona_z(g_z(w[0], 1)->0) && stop0 == stop_z(g_z(w[0], 2)->0),
            k > 0 ==> lo == najmniejsza(ceny_linii(w).take(k as int)) && hi == najwieksza(ceny_linii(w).take(k as int)),
        decreases ms@.len() - k,
    {
        let e = &ms[k];
        proof {
            assert(w[k as int] == grupy(e@));
        }
        let g1 = match g_exec(e, 1) {
            Some(t) => t,
            None => {
                assert(!linia_zgodna(w, k as int));
                return None;
            },
        };
        if !kierunek_exec(g1.as_str()) {
            assert(!linia_zgodna(w, k as int));
            return None;
        }
        let g2 = match g_exec(e, 2) {
            Some(t) => t,
            None => {
                assert(!linia_zgodna(w, k as int));
                return None;
            },
        };
        let cena = match cena_g_exec(e, 3) {
            Some(c) => c,
            None => {
                assert(!linia_zgodna(w, k as int));
                return None;
            },
        };
        let strona = if to_buy_exec(g1.as_str()) { Side::Buy } else { Side::Sell };
        let wielkie_g2 = na_wielkie(g2.as_str());
        let stop = zaczyna_sie_exec(wielkie_g2.as_str(), "STOP");
        proof {
            reveal_strlit("STOP");
        }
        let ghost c = ceny_linii(w);
        proof {
            assert(c.take(k + 1).drop_last() =~= c.take(k as int));
            assert(c[k as int] == cena);
            assert(c.take(k + 1).last() == cena);
        }
        if k == 0 {
            strona0 = strona;
            stop0 = stop;
            lo = cena;
            hi = cena;
            proof {
                assert(c.take(1) =~= seq![cena]);
            }
        } else {
            if strona != strona0 || stop != stop0 {
                assert(!linia_zgodna(w, k as int));
                return None;
            }
            if cena < lo {
                lo = cena;
            }
            if cena > hi {
                hi = cena;
            }
        }
        proof {
            assert(linia_zgodna(w, k as int));
        }
        k = k + 1;
    }
    proof {
        assert(ceny_linii(w).take(ms@.len() as int) =~= ceny_linii(w));
    }
    Some((strona0, stop0, lo, hi))
}


pub open spec fn re_twp_wejscie() -> Seq<char> {
    r"(?im)\b(BUY|SELL)\s+MARKET\s+ORDER\s*@\s*(\d{3,6}(?:[.,]\d{1,3})?)"@
}

pub open spec fn re_entry_zone() -> Seq<char> {
    r"(?i)\b(BUY|SELL)\s*(LIMITS?|STOPS?)?\s*(?:GOLD|XAUUSD|XAU)?\s*(LIMITS?|STOPS?)?\s*@?\s*(\d{3,6}(?:[.,]\d{1,3})?)\s*(?:[/_]|[-–—]{1,2}|\bTO\b)\s*(\d{3,6}(?:[.,]\d{1,3})?)"@
}

pub open spec fn re_entry_single() -> Seq<char> {
    r"(?i)\b(BUY|SELL)\s*(LIMITS?|STOPS?)?\s*(?:GOLD|XAUUSD|XAU)\s*(LIMITS?|STOPS?)?\s*@?\s*(\d{3,6}(?:[.,]\d{1,3})?)"@
}

pub open spec fn re_entry_order() -> Seq<char> {
    r"(?i)\b(BUY|SELL)\s*(LIMITS?|STOPS?)\s*(?:GOLD|XAUUSD|XAU)?\s*@?\s*(\d{3,6}(?:[.,]\d{1,3})?)"@
}

pub open spec fn re_danger_kier() -> Seq<char> {
    r"(?im)^[^\n]{0,40}?\b(?:XAU\s*[IU]SD|GOLD)\s*(BUY|SELL)\s*NOW\b"@
}

pub open spec fn re_danger_strefa() -> Seq<char> {
    r"(?m)^\s*(\d{3,6}(?:[.,]\d{1,3})?)\s*[-\u{2013}\u{2014}/]\s*(\d{3,6}(?:[.,]\d{1,3})?)\s*$"@
}

pub open spec fn re_zen_wejscie_1() -> Seq<char> {
    r"(?i)\bXAUUSD\s+(BUY|SELL)\s+(\d{3,6}(?:[.,]\d{1,3})?)"@
}

pub open spec fn re_storm_wejscie() -> Seq<char> {
    r"(?i)\bGOLD\s+(BUY|SELL)\s+ZONE\s+(\d{3,6}(?:[.,]\d{1,3})?)\s*[-–—]\s*(\d{3,6}(?:[.,]\d{1,3})?)"@
}

/// The order kind of a match: group `i`, else group `j`, in upper case.
pub open spec fn rodzaj_g(g: Seq<Option<Seq<char>>>, i: int, j: int) -> Seq<char> {
    match g_z(g, i) {
        Some(t) => wielkie(t),
        None => match g_z(g, j) {
            Some(t) => wielkie(t),
            None => Seq::empty(),
        },
    }
}

/// An entry head: side, limit and stop flags of the kind, and the two ends.
pub open spec fn glowa_z(s: Side, rodzaj: Seq<char>, a: u64, b: u64) -> (Side, bool, bool, u64, u64) {
    (s, zaczyna_sie(rodzaj, "LIMIT"@), zaczyna_sie(rodzaj, "STOP"@), a, b)
}

pub open spec fn min_u(a: u64, b: u64) -> u64 {
    if a < b { a } else { b }
}

pub open spec fn max_u(a: u64, b: u64) -> u64 {
    if a > b { a } else { b }
}

/// The head of an entry message, from the first of its forms that matches:
/// a market order, several order lines, a zone, a single price with the
/// symbol, an order with its kind, a "gold buy now" with a range line, an
/// "XAUUSD buy" price, a "gold buy zone" range. A price that cannot be read
/// ends the reading.
pub open spec fn glowa(t: Seq<char>) -> Option<(Side, bool, bool, u64, u64)> {
    match przechwyty(re_twp_wejscie(), t) {
        Some(Some(g)) => match (g_z(g, 1), cena_g(g, 2)) {
            (Some(x), Some(p)) => jesli_kierunek(x, glowa_z(strona_z(x), Seq::empty(), p, p)),
            _ => None,
        },
        _ => glowa_od_wielu(t),
    }
}

/// Several order lines of one side and kind, in the whole text.
pub open spec fn wiele_w_tekscie(t: Seq<char>) -> Option<(Side, bool, u64, u64)> {
    match wszystkie_przechwyty(re_px_zlecenie_linia(), t) {
        Some(ms) => wiele_zlecen(ms),
        None => None,
    }
}

pub open spec fn glowa_od_wielu(t: Seq<char>) -> Option<(Side, bool, bool, u64, u64)> {
    match wiele_w_tekscie(t) {
        Some(w) => Some((w.0, !w.1, w.1, w.2, w.3)),
        None => match przechwyty(re_entry_zone(), t) {
            Some(Some(g)) => match (g_z(g, 1), cena_g(g, 4), cena_g(g, 5)) {
                (Some(x), Some(a), Some(b)) => jesli_kierunek(x, glowa_z(strona_z(x), rodzaj_g(g, 2, 3), a, b)),
                _ => None,
            },
            _ => glowa_od_pojedynczej(t),
        },
    }
}

pub open spec fn glowa_od_pojedynczej(t: Seq<char>) -> Option<(Side, bool, bool, u64, u64)> {
    match przechwyty(re_entry_single(), t) {
        Some(Some(g)) => match (g_z(g, 1), cena_g(g, 4)) {
            (Some(x), Some(p)) => jesli_kierunek(x, glowa_z(strona_z(x), rodzaj_g(g, 2, 3), p, p)),
            _ => None,
        },
        _ => match przechwyty(re_entry_order(), t) {
            Some(Some(g)) => match (g_z(g, 1), cena_g(g, 3)) {
                (Some(x), Some(p)) => jesli_kierunek(x, glowa_z(strona_z(x), rodzaj_g(g, 2, 2), p, p)),
                _ => None,
            },
            _ => glowa_od_niebezpiecznej(t),
        },
    }
}

pub open spec fn glowa_od_niebezpiecznej(t: Seq<char>) -> Option<(Side, bool, bool, u64, u64)> {
    match przechwyty(re_danger_kier(), t) {
        Some(Some(k)) => match (g_z(k, 1), przechwyty(re_danger_strefa(), t)) {
            (Some(x), Some(Some(z))) => match (cena_g(z, 1), cena_g(z, 2)) {
                (Some(a), Some(b)) => jesli_kierunek(x, glowa_z(strona_z(x), Seq::empty(), min_u(a, b), max_u(a, b))),
                _ => None,
            },
            _ => None,
        },
        _ => match przechwyty(re_zen_wejscie_1(), t) {
            Some(Some(g)) => match (g_z(g, 1), cena_g(g, 2)) {
                (Some(x), Some(p)) => jesli_kierunek(x, glowa_z(strona_z(x), Seq::empty(), p, p)),
                _ => None,
            },
            _ => match przechwyty(re_storm_wejscie(), t) {
                Some(Some(g)) => match (g_z(g, 1), cena_g(g, 2), cena_g(g, 3)) {
                    (Some(x), Some(a), Some(b)) => jesli_kierunek(x, glowa_z(strona_z(x), "LIMITS"@, min_u(a, b), max_u(a, b))),
                    _ => None,
                },
                _ => None,
            },
        },
    }
}

fn rodzaj_exec(g: &Vec<Option<String>>, i: usize, j: usize) -> (r: String)
    ensures
        r@ == rodzaj_g(grupy(g@), i as int, j as int),
{
    match g_exec(g, i) {
        Some(t) => na_wielkie(t.as_str()),
        None => match g_exec(g, j) {
            Some(t) => na_wielkie(t.as_str()),
            None => String::new(),
        },
    }
}

fn glowa_z_exec(s: Side, rodzaj: &str, a: u64, b: u64) -> (r: (Side, bool, bool, u64, u64))
    ensures
        r == glowa_z(s, rodzaj@, a, b),
{
    let l = zaczyna_sie_exec(rodzaj, "LIMIT");
    let st = zaczyna_sie_exec(rodzaj, "STOP");
    proof {
        reveal_strlit("LIMIT");
        reveal_strlit("STOP");
    }
    (s, l, st, a, b)
}

/// The head `h` read from a match whose direction group (group 1 of `g`, a
/// match found in `text`) is `x`.
fn glowa_kierunku(g: &Vec<Option<String>>, text: &str, x: &String, h: (Side, bool, bool, u64, u64)) -> (r: Option<(Side, bool, bool, u64, u64)>)
    requires
        grupy_z_tekstu(grupy(g@), text@),
        g_z(grupy(g@), 1) == Some(x@),
        h.0 == strona_z(x@),
    ensures
        r == jesli_kierunek(x@, h),
        r matches Some(hh) ==> slowo_strony(text@, hh.0),
{
    proof {
        lemma_kierunek_w_tekscie(grupy(g@), text@, 1, x@);
    }
    if kierunek_exec(x.as_str()) { Some(h) } else { None }
}

fn strona_exec(g: &String) -> (r: Side)
    ensures
        r == strona_z(g@),
{
    if to_buy_exec(g.as_str()) { Side::Buy } else { Side::Sell }
}

/// Reads the head of an entry message (see `glowa`). The side of a head is
/// a direction word of the text: a text that names only one side in words
/// gives a head of that side or none.
pub fn glowa_wejscia(text: &str) -> (r: Option<(Side, bool, bool, u64, u64)>)
    ensures
        r == glowa(text@),
        r matches Some(h) ==> slowo_strony(text@, h.0),
        match r {
            Some(h) => (!slowo_strony(text@, Side::Sell) ==> h.0 == Side::Buy) && (!slowo_strony(text@, Side::Buy)
                ==> h.0 == Side::Sell),
            None => true,
        },
{
    proof {
        reveal_strlit("");
        assert(""@ =~= Seq::<char>::empty());
    }
    match przechwyc(r"(?im)\b(BUY|SELL)\s+MARKET\s+ORDER\s*@\s*(\d{3,6}(?:[.,]\d{1,3})?)", text) {
        Some(Some(g)) => {
            return match (g_exec(&g, 1), cena_g_exec(&g, 2)) {
                (Some(x), Some(p)) => glowa_kierunku(&g, text, x, glowa_z_exec(strona_exec(x), "", p, p)),
                _ => None,
            };
        },
        _ => {},
    }
    let wiele = match przechwyc_wszystkie(
        r"(?im)^[\W_]*\b(BUY|SELL)\s+(STOPS?|LIMITS?)\s*(?:GOLD|XAUUSD|XAU)?\s*@?\s*(\d{3,6}(?:[.,]\d{1,3})?)\s*$",
        text,
    ) {
        Some(ms) => {
            let w = wiele_zlecen_exec(&ms);
            proof {
                if w is Some {
                    let lw = wszystkie_grupy(ms@);
                    assert(linia_zgodna(lw, 0));
                    assert(grupy_z_tekstu(lw[0], text@));
                    lemma_kierunek_w_tekscie(lw[0], text@, 1, g_z(lw[0], 1)->0);
                }
            }
            w
        },
        None => None,
    };
    match wiele {
        Some(w) => {
            return Some((w.0, !w.1, w.1, w.2, w.3));
        },
        None => {},
    }
    match przechwyc(
        r"(?i)\b(BUY|SELL)\s*(LIMITS?|STOPS?)?\s*(?:GOLD|XAUUSD|XAU)?\s*(LIMITS?|STOPS?)?\s*@?\s*(\d{3,6}(?:[.,]\d{1,3})?)\s*(?:[/_]|[-–—]{1,2}|\bTO\b)\s*(\d{3,6}(?:[.,]\d{1,3})?)",
        text,
    ) {
        Some(Some(g)) => {
            return match (g_exec(&g, 1), cena_g_exec(&g, 4), cena_g_exec(&g, 5)) {
                (Some(x), Some(a), Some(b)) => {
                    let k = rodzaj_exec(&g, 2, 3);
                    glowa_kierunku(&g, text, x, glowa_z_exec(strona_exec(x), k.as_str(), a, b))
                },
                _ => None,
            };
        },
        _ => {},
    }
    match przechwyc(
        r"(?i)\b(BUY|SELL)\s*(LIMITS?|STOPS?)?\s*(?:GOLD|XAUUSD|XAU)\s*(LIMITS?|STOPS?)?\s*@?\s*(\d{3,6}(?:[.,]\d{1,3})?)",
        text,
    ) {
        Some(Some(g)) => {
            return match (g_exec(&g, 1), cena_g_exec(&g, 4)) {
                (Some(x), Some(p)) => {
                    let k = rodzaj_exec(&g, 2, 3);
                    glowa_kierunku(&g, text, x, glowa_z_exec(strona_exec(x), k.as_str(), p, p))
                },
                _ => None,
            };
        },
        _ => {},
    }
    match przechwyc(r"(?i)\b(BUY|SELL)\s*(LIMITS?|STOPS?)\s*(?:GOLD|XAUUSD|XAU)?\s*@?\s*(\d{3,6}(?:[.,]\d{1,3})?)", text) {
        Some(Some(g)) => {
            return match (g_exec(&g, 1), cena_g_exec(&g, 3)) {
                (Some(x), Some(p)) => {
                    let k = rodzaj_exec(&g, 2, 2);
                    glowa_kierunku(&g, text, x, glowa_z_exec(strona_exec(x), k.as_str(), p, p))
                },
                _ => None,
            };
        },
        _ => {},
    }
    match przechwyc(r"(?im)^[^\n]{0,40}?\b(?:XAU\s*[IU]SD|GOLD)\s*(BUY|SELL)\s*NOW\b", text) {
        Some(Some(k)) => {
            let x = match g_exec(&k, 1) {
                Some(x) => x,
                None => {
                    return None;
                },
            };
            return match przechwyc(r"(?m)^\s*(\d{3,6}(?:[.,]\d{1,3})?)\s*[-\u{2013}\u{2014}/]\s*(\d{3,6}(?:[.,]\d{1,3})?)\s*$", text) {
                Some(Some(z)) => match (cena_g_exec(&z, 1), cena_g_exec(&z, 2)) {
                    (Some(a), Some(b)) => {
                        let lo = if a < b { a } else { b };
                        let hi = if a > b { a } else { b };
                        glowa_kierunku(&k, text, x, glowa_z_exec(strona_exec(x), "", lo, hi))
                    },
                    _ => None,
                },
                _ => None,
            };
        },
        _ => {},
    }
    match przechwyc(r"(?i)\bXAUUSD\s+(BUY|SELL)\s+(\d{3,6}(?:[.,]\d{1,3})?)", text) {
        Some(Some(g)) => {
            return match (g_exec(&g, 1), cena_g_exec(&g, 2)) {
                (Some(x), Some(p)) => glowa_kierunku(&g, text, x, glowa_z_exec(strona_exec(x), "", p, p)),
                _ => None,
            };
        },
        _ => {},
    }
    match przechwyc(r"(?i)\bGOLD\s+(BUY|SELL)\s+ZONE\s+(\d{3,6}(?:[.,]\d{1,3})?)\s*[-–—]\s*(\d{3,6}(?:[.,]\d{1,3})?)", text) {
        Some(Some(g)) => {
            return match (g_exec(&g, 1), cena_g_exec(&g, 2), cena_g_exec(&g, 3)) {
                (Some(x), Some(a), Some(b)) => {
                    let lo = if a < b { a } else { b };
                    let hi = if a > b { a } else { b };
                    glowa_kierunku(&g, text, x, glowa_z_exec(strona_exec(x), "LIMITS", lo, hi))
                },
                _ => None,
            };
        },
        _ => {},
    }
    None
}


pub open spec fn re_twp_tp() -> Seq<char> {
    r"(?i)\bTARGET\s+PROFIT\s*\d?\s*[:@=]?\s*(\d{3,6}(?:[.,]\d{1,3})?)"@
}

pub open spec fn re_nums() -> Seq<char> {
    r"\d{3,6}(?:[.,]\d{1,3})?"@
}

pub open spec fn re_twp_sl() -> Seq<char> {
    r"(?i)\bSTOP\s*LOSS\s*[:@=]?\s*(\d{3,6}(?:[.,]\d{1,3})?)"@
}

pub open spec fn re_tp_open() -> Seq<char> {
    r"(?i)\bTP\s*\d?\s*(?:OPEN|[:@=]\s*HOLD)\b"@
}

pub open spec fn re_px_tp_open() -> Seq<char> {
    r"(?i)\bTP\b[^\n]*?\bOPEN\b"@
}

pub open spec fn re_hr() -> Seq<char> {
    r"(?i)HIGH\s+RISK\s+TRADE"@
}

pub open spec fn re_hr_linia() -> Seq<char> {
    r"(?im)^[\W_]*HIGH\s*RISK[\W_]*$"@
}

pub open spec fn re_mnba() -> Seq<char> {
    r"(?i)MAY\s+NOT\s+BE\s+AROUND"@
}

pub open spec fn re_fe() -> Seq<char> {
    r"(?i)FIRST\s+ENTRY\s+CAN\s+BE"@
}

pub open spec fn re_warstwy() -> Seq<char> {
    r"(?i)(?:ADDING|SUBTRACTING)\s+(\d+(?:[.,]\d+)?)\s*PIPS?\s+(?:TO|FROM)\s+EACH\s+LIMIT\s+ORDER"@
}

/// The prices of "target profit" fields, in order.
pub open spec fn tp_celow(t: Seq<char>) -> Seq<Option<u64>> {
    match wszystkie_przechwyty(re_twp_tp(), t) {
        Some(ms) => ms.map_values(|e: Seq<Option<Seq<char>>>| cena_g(e, 1)),
        None => Seq::empty(),
    }
}

/// The prices in the list of one take-profit field.
pub open spec fn liczby_grupy(e: Seq<Option<Seq<char>>>) -> Seq<Option<u64>> {
    match g_z(e, 1) {
        Some(x) => match wszystkie_przechwyty(re_nums(), x) {
            Some(ns) => ns.map_values(|n: Seq<Option<Seq<char>>>| cena_g(n, 0)),
            None => Seq::empty(),
        },
        None => Seq::empty(),
    }
}

pub open spec fn liczby_list(ms: Seq<Seq<Option<Seq<char>>>>) -> Seq<Option<u64>>
    decreases ms.len(),
{
    if ms.len() == 0 {
        Seq::empty()
    } else {
        liczby_list(ms.drop_last()) + liczby_grupy(ms.last())
    }
}

/// The take-profit candidates of a message: the "target profit" fields,
/// then the prices listed after each "TP".
pub open spec fn kandydaci_tp(t: Seq<char>) -> Seq<Option<u64>> {
    tp_celow(t) + match wszystkie_przechwyty(re_tp_list(), t) {
        Some(ms) => liczby_list(ms),
        None => Seq::empty(),
    }
}

/// The stop-loss price of a message: an "SL" field, else a "stop loss" field.
pub open spec fn sl_z(t: Seq<char>) -> Option<u64> {
    match przechwyty(re_sl(), t) {
        Some(Some(g)) => cena_g(g, 1),
        _ => match przechwyty(re_twp_sl(), t) {
            Some(Some(g)) => cena_g(g, 1),
            _ => None,
        },
    }
}

/// The fields an entry message carries, prices in thousandths: the head,
/// the take-profit candidates (each once, in the order first seen), the
/// stop-loss, the flags, and the text of a layer offset in pips.
#[derive(Debug, Clone, PartialEq, Eq)]
pub struct PolaWejscia {
    pub side: Side,
    pub is_limit: bool,
    pub is_stop: bool,
    pub a: u64,
    pub b: u64,
    pub tps: Vec<u64>,
    pub sl: Option<u64>,
    pub tp_open: bool,
    pub warstwy_pipsy: Option<String>,
    pub tag_high_risk: bool,
    pub tag_may_not_be_around: bool,
    pub tag_first_entry: bool,
}

/// A zone announcement that is no market order gives no entry.
pub open spec fn zapowiedz_bez_wejscia(t: Seq<char>) -> bool {
    zapowiedz_strefy_spec(t) && !trafia(re_twp_wejscie(), t)
}

fn cena_grupy_vec(ms: &Vec<Vec<Option<String>>>, k: usize, g: usize) -> (r: Option<u64>)
    requires
        k < ms@.len(),
    ensures
        r == cena_g(wszystkie_grupy(ms@)[k as int], g as int),
{
    cena_g_exec(&ms[k], g)
}

fn kandydaci_tp_exec(text: &str) -> (r: Vec<Option<u64>>)
    ensures
        r@ == kandydaci_tp(text@),
{
    let mut v: Vec<Option<u64>> = Vec::new();
    match przechwyc_wszystkie(r"(?i)\bTARGET\s+PROFIT\s*\d?\s*[:@=]?\s*(\d{3,6}(?:[.,]\d{1,3})?)", text) {
        Some(ms) => {
            let ghost w = wszystkie_grupy(ms@);
            let mut k: usize = 0;
            while k < ms.len()
                invariant
                    k <= ms@.len(),
                    w == wszystkie_grupy(ms@),
                    v@ == w.take(k as int).map_values(|e: Seq<Option<Seq<char>>>| cena_g(e, 1)),
                decreases ms@.len() - k,
            {
                let c = cena_grupy_vec(&ms, k, 1);
                v.push(c);
                proof {
                    assert(w.take(k + 1).map_values(|e: Seq<Option<Seq<char>>>| cena_g(e, 1))
                        =~= w.take(k as int).map_values(|e: Seq<Option<Seq<char>>>| cena_g(e, 1)).push(c));
                }
                k = k + 1;
            }
            proof {
                assert(w.take(ms@.len() as int) =~= w);
            }
        },
        None => {},
    }
    let ghost pierwsze = v@;
    assert(pierwsze == tp_celow(text@));
    match przechwyc_wszystkie(r"(?i)\bA?TP\s*\d?\s*[:@=]?\s*((?:\b\d{3,6}(?:[.,]\d{1,3})?\b[ \t,/]{0,3})+)", text) {
        Some(ms) => {
            let ghost w = wszystkie_grupy(ms@);
            let mut k: usize = 0;
            while k < ms.len()
                invariant
                    k <= ms@.len(),
                    w == wszystkie_grupy(ms@),
                    v@ == pierwsze + liczby_list(w.take(k as int)),
                decreases ms@.len() - k,
            {
                let ghost przed = v@;
                proof {
                    assert(w.take(k + 1).drop_last() =~= w.take(k as int));
                    assert(w[k as int] == grupy(ms@[k as int]@));
                }
                match g_exec(&ms[k], 1) {
                    Some(x) => {
                        match przechwyc_wszystkie(r"\d{3,6}(?:[.,]\d{1,3})?", x.as_str()) {
                            Some(ns) => {
                                let ghost wn = wszystkie_grupy(ns@);
                                let mut j: usize = 0;
                                while j < ns.len()
                                    invariant
                                        j <= ns@.len(),
                                        wn == wszystkie_grupy(ns@),
                                        v@ == przed + wn.take(j as int).map_values(|n: Seq<Option<Seq<char>>>| cena_g(n, 0)),
                                    decreases ns@.len() - j,
                                {
                                    let c = cena_grupy_vec(&ns, j, 0);
                                    v.push(c);
                                    proof {
                                        assert(wn.take(j + 1).map_values(|n: Seq<Option<Seq<char>>>| cena_g(n, 0))
                                            =~= wn.take(j as int).map_values(|n: Seq<Option<Seq<char>>>| cena_g(n, 0)).push(c));
                                    }
                                    j = j + 1;
                                }
                                proof {
                                    assert(wn.take(ns@.len() as int) =~= wn);
                                }
                            },
                            None => {},
                        }
                    },
                    None => {},
                }
                proof {
                    assert(v@ =~= pierwsze + liczby_list(w.take(k + 1)));
                }
                k = k + 1;
            }
            proof {
                assert(w.take(ms@.len() as int) =~= w);
            }
        },
        None => {
            assert(v@ =~= pierwsze + Seq::<Option<u64>>::empty());
        },
    }
    v
}

fn sl_exec(text: &str) -> (r: Option<u64>)
    ensures
        r == sl_z(text@),
{
    match przechwyc(r"(?i)\bSL\s*[:@=]?\s*\b(\d{3,6}(?:[.,]\d{1,3})?)", text) {
        Some(Some(g)) => cena_g_exec(&g, 1),
        _ => match przechwyc(r"(?i)\bSTOP\s*LOSS\s*[:@=]?\s*(\d{3,6}(?:[.,]\d{1,3})?)", text) {
            Some(Some(g)) => cena_g_exec(&g, 1),
            _ => None,
        },
    }
}

/// Reads the fields of an entry message; the price geometry built from them
/// (range repair, take-profit side filter and order, stop-loss repair) is
/// floating-point work of the application.
pub fn pola_wejscia(text: &str) -> (r: Option<PolaWejscia>)
    ensures
        zapowiedz_bez_wejscia(text@) ==> r is None,
        !zapowiedz_bez_wejscia(text@) ==> (r is None <==> glowa(text@) is None),
        r matches Some(p) ==> {
            &&& glowa(text@) == Some((p.side, p.is_limit, p.is_stop, p.a, p.b))
            &&& slowo_strony(text@, p.side)
            &&& p.tps@ == bez_powtorzen(kandydaci_tp(text@))
            &&& p.sl == sl_z(text@)
            &&& p.tp_open == (trafia(re_tp_open(), text@) || trafia(re_px_tp_open(), text@))
            &&& p.tag_high_risk == (trafia(re_hr(), text@) || trafia(re_hr_linia(), text@) || hr_linia_loty_spec(text@))
            &&& p.tag_may_not_be_around == trafia(re_mnba(), text@)
            &&& p.tag_first_entry == trafia(re_fe(), text@)
            &&& match p.warstwy_pipsy {
                Some(w) => grupa_z(przechwyty(re_warstwy(), text@), 1) == Some(w@),
                None => grupa_z(przechwyty(re_warstwy(), text@), 1) is None,
            }
        },
{
    if zapowiedz_strefy(text) && !trafia_exec(r"(?im)\b(BUY|SELL)\s+MARKET\s+ORDER\s*@\s*(\d{3,6}(?:[.,]\d{1,3})?)", text) {
        return None;
    }
    let (side, is_limit, is_stop, a, b) = match glowa_wejscia(text) {
        Some(h) => h,
        None => {
            return None;
        },
    };
    let kand = kandydaci_tp_exec(text);
    let tps = wskazowki_z(kand.as_slice());
    let sl = sl_exec(text);
    let tp_open = trafia_exec(r"(?i)\bTP\s*\d?\s*(?:OPEN|[:@=]\s*HOLD)\b", text) || trafia_exec(r"(?i)\bTP\b[^\n]*?\bOPEN\b", text);
    let tag_high_risk = trafia_exec(r"(?i)HIGH\s+RISK\s+TRADE", text) || trafia_exec(r"(?im)^[\W_]*HIGH\s*RISK[\W_]*$", text)
        || hr_linia_loty(text);
    let tag_may_not_be_around = trafia_exec(r"(?i)MAY\s+NOT\s+BE\s+AROUND", text);
    let tag_first_entry = trafia_exec(r"(?i)FIRST\s+ENTRY\s+CAN\s+BE", text);
    let warstwy_pipsy = grupa(r"(?i)(?:ADDING|SUBTRACTING)\s+(\d+(?:[.,]\d+)?)\s*PIPS?\s+(?:TO|FROM)\s+EACH\s+LIMIT\s+ORDER", text, 1);
    Some(PolaWejscia {
        side,
        is_limit,
        is_stop,
        a,
        b,
        tps,
        sl,
        tp_open,
        warstwy_pipsy,
        tag_high_risk,
        tag_may_not_be_around,
        tag_first_entry,
    })
}


pub open spec fn re_be() -> Seq<char> {
    r"(?i)\bSL\s+IS\s+SET\s+TO\s+BE\b|\bBREAK\s*EVEN\b|\bSET\s+BE\b"@
}

pub open spec fn re_be_luz() -> Seq<char> {
    r"(?i)\b(?:MOVE|SET|MOVING|SETTING|PUT)\b[^\n\d]{0,20}\bSL\b[^\n\d]{0,20}\bTO\b[^\n\d]{0,10}\bBE\b"@
}

pub open spec fn re_cancel() -> Seq<char> {
    r"(?i)\bCANCEL\b|\bDELETE\b.*\bLIMIT"@
}

pub open spec fn re_close() -> Seq<char> {
    r"(?i)\bCLOSE\s+(?:ALL|EVERYTHING|THE\s+REST)\b"@
}

pub open spec fn re_corr() -> Seq<char> {
    r"(?i)USE\s+(\d{3,6}(?:[.,]\d{1,3})?)\s+AS\s+TP\s*(\d)"@
}

pub open spec fn re_corr2() -> Seq<char> {
    r"(?i)TP\s*(\d)\s*(?:IS\s+)?(?:ADJUSTED|MOVED|CHANGED|SET)\s+TO\s+(\d{3,6}(?:[.,]\d{1,3})?)"@
}

pub open spec fn re_corr3() -> Seq<char> {
    r"(?i)\bTP\s*(\d)\s+SHOULD\s+BE\s+(\d{3,6}(?:[.,]\d{1,3})?)"@
}

pub open spec fn re_market_open() -> Seq<char> {
    r"(?i)\b(BUY|SELL)\s+NOW\b"@
}

pub open spec fn re_nlv_podmiot() -> Seq<char> {
    r"(?i)\b(?:ZONE|SETUP|TRADE|ENTRY|LIMITS?)\b[^\n]{0,20}?\bIS\s+NO\s+LONGER\s+VALID\b"@
}

pub open spec fn re_nova_sl_at() -> Seq<char> {
    r"(?i)\b(?:BE|SL)\s*(?:TO\s*)?@\s*(\d{3,6}(?:[.,]\d{1,3})?)"@
}

pub open spec fn re_nova_sl_strata() -> Seq<char> {
    r"(?im)\bSL\s*-\s*\d{1,3}\b"@
}

pub open spec fn re_oae() -> Seq<char> {
    r"(?i)\bOUT\s+AT\s+(?:ENTRY|BE)\b"@
}

pub open spec fn re_oae_luz() -> Seq<char> {
    r"(?i)\bOUT\b[\s.,:;!—–-]{1,4}\bAT\s+(?:ENTRY|BE)\b"@
}

pub open spec fn re_px_be() -> Seq<char> {
    r"(?i)\bPUT\s+(?:THE\s+)?(?:BE|BREAK\s*EVEN)\b|\bBE\s+NOW\b|\bBE\s+FOR\s+SAFETY\b|\bBREAK\s*EVEN\s+ACTIVE\b"@
}

pub open spec fn re_px_be_odmowa() -> Seq<char> {
    r"(?i)\b(?:AT|TO)\s+BE\s+NOW\b"@
}

pub open spec fn re_px_cut_loss() -> Seq<char> {
    r"(?i)\bCUT\s+(?:THE\s+)?LOSS(?:ES)?\b"@
}

pub open spec fn re_px_tp_kotwica() -> Seq<char> {
    r"(?im)^\s*TP\s*[1-8]\b([\s:=@-]*\d{3,6})?"@
}

pub open spec fn re_px_tp_numer() -> Seq<char> {
    r"(?i)\bTP\s*([1-8])\b([\s:=@-]*\d{3,6})?"@
}

pub open spec fn re_px_tp_rewizja() -> Seq<char> {
    r"(?i)\b(?:UPDATED?|APPROACHING|WRONG|EDIT)\b"@
}

pub open spec fn re_retrospekcja() -> Seq<char> {
    r"(?i)\b(?:IF|FOR)\s+ANYONE\s+(?:THAT\s+|STILL\s+|WHO\s+)?(?:TOOK|HELD|HOLDS|HOLDING)\b"@
}

pub open spec fn re_rf_intencja() -> Seq<char> {
    r"(?i)\b(?:WILL|LOOK\s+TO|TRY(?:ING)?\s+TO|IF\s+POSSIBLE|LOOKING|SCOPE\s+FOR)\b"@
}

pub open spec fn re_rf_typo() -> Seq<char> {
    r"(?i)\bRISK\s*(?:FREE{2,}|FEEE|FRE)\b\s*(?:AT\s*)?[@(]?\s*(\d{3,6}(?:[.,]\d{1,3})?)?"@
}

pub open spec fn re_sl_hit() -> Seq<char> {
    r"(?i)\bSL\s*HIT\b|\bSTOP\s*(?:LOSS)?\s*HIT\b"@
}

pub open spec fn re_spp() -> Seq<char> {
    r"(?i)SECURING\s+PARTIAL"@
}

pub open spec fn re_spp_luz() -> Seq<char> {
    r"(?i)\bCLOSING\s+PARTIAL\s+PROFITS?\b"@
}

pub open spec fn re_spp_targets() -> Seq<char> {
    r"(?i)TARGETS?\s*[;:,]?\s*((?:\s*\d{3,6}(?:[.,]\d{1,3})?)+)"@
}

pub open spec fn re_storm_be() -> Seq<char> {
    r"(?i)\bIF\s+HOLD\s+SET\s+BE\b|\bHOLD\s+RISK\s+WITH\s+BREAK\s*EVEN\b"@
}

pub open spec fn re_tp_hit() -> Seq<char> {
    r"(?i)\bTP\s*(\d)?\s*HIT\b|\bAT\s+TP\s*(\d)\b|\bHIT\s+TP\s*(\d)?\b"@
}

pub open spec fn re_tp_hit_apo() -> Seq<char> {
    r"(?i)\bTP['’]S\s+HIT\b"@
}


/// Options of the signal reader. The confidence threshold of the geometric
/// reading is a floating-point setting of the application, which hands the
/// verdict in `Geometria`.
#[derive(Debug, Clone, Copy, PartialEq, Eq, Structural)]
pub struct OpcjeParsera {
    pub geometryczny: bool,
    pub rf_wymaga_wykonania: bool,
    pub partials_jako_komenda: bool,
    pub luz_interpunkcyjny: bool,
    pub recap_guard: bool,
}

/// What the price geometry decided about a message: whether the entry
/// reader gives an entry, whether the "area before @" reader does, and
/// whether a geometric reading exists with enough confidence.
#[derive(Debug, Clone, Copy, PartialEq, Eq, Structural)]
pub struct Geometria {
    pub wejscie: bool,
    pub wejscie_obszar: bool,
    pub odczyt_pewny: bool,
}

/// A signal read from a message; prices in thousandths. An entry carries
/// no fields here: its prices come from the price geometry. The targets of
/// a partial-securing signal are every price listed after "targets".
#[allow(inconsistent_fields)]
#[derive(Debug, Clone, PartialEq, Eq)]
pub enum Sygnal {
    Entry,
    TpHit { index: Option<usize> },
    SlHit,
    RiskFree { level: Option<u64> },
    SecuringPartial { targets: Vec<u64>, sl: Option<u64>, spp_be_level: Option<u64> },
    OutAtEntry,
    CloseAll,
    TakePartials,
    Cancel,
    TpCorrection { index: usize, value: u64 },
    SetSl { value: u64 },
    BreakEven,
    MarketOpen { side: Side },
    Info,
}

/// The mathematical value of a signal.
#[allow(inconsistent_fields)]
pub enum SygnalW {
    Entry,
    TpHit { index: Option<usize> },
    SlHit,
    RiskFree { level: Option<u64> },
    SecuringPartial { targets: Seq<u64>, sl: Option<u64>, spp_be_level: Option<u64> },
    OutAtEntry,
    CloseAll,
    TakePartials,
    Cancel,
    TpCorrection { index: usize, value: u64 },
    SetSl { value: u64 },
    BreakEven,
    MarketOpen { side: Side },
    Info,
}

impl View for Sygnal {
    type V = SygnalW;

    open spec fn view(&self) -> SygnalW {
        match self {
            Sygnal::Entry => SygnalW::Entry,
            Sygnal::TpHit { index } => SygnalW::TpHit { index: *index },
            Sygnal::SlHit => SygnalW::SlHit,
            Sygnal::RiskFree { level } => SygnalW::RiskFree { level: *level },
            Sygnal::SecuringPartial { targets, sl, spp_be_level } => SygnalW::SecuringPartial {
                targets: targets@,
                sl: *sl,
                spp_be_level: *spp_be_level,
            },
            Sygnal::OutAtEntry => SygnalW::OutAtEntry,
            Sygnal::CloseAll => SygnalW::CloseAll,
            Sygnal::TakePartials => SygnalW::TakePartials,
            Sygnal::Cancel => SygnalW::Cancel,
            Sygnal::TpCorrection { index, value } => SygnalW::TpCorrection { index: *index, value: *value },
            Sygnal::SetSl { value } => SygnalW::SetSl { value: *value },
            Sygnal::BreakEven => SygnalW::BreakEven,
            Sygnal::MarketOpen { side } => SygnalW::MarketOpen { side: *side },
            Sygnal::Info => SygnalW::Info,
        }
    }
}

pub open spec fn widok(v: Seq<Sygnal>) -> Seq<SygnalW> {
    v.map_values(|s: Sygnal| s@)
}

fn dodaj(out: &mut Vec<Sygnal>, s: Sygnal)
    ensures
        widok(final(out)@) == widok(old(out)@).push(s@),
{
    let ghost s0 = s@;
    out.push(s);
    proof {
        assert(widok(out@) =~= widok(old(out)@).push(s0));
    }
}

fn dolacz(out: &mut Vec<Sygnal>, inne: Vec<Sygnal>)
    ensures
        widok(final(out)@) == widok(old(out)@) + widok(inne@),
{
    let mut inne = inne;
    let ghost w = widok(inne@);
    out.append(&mut inne);
    proof {
        assert(widok(out@) =~= widok(old(out)@) + w);
    }
}

/// The value of a one-digit group: an ASCII digit, as `usize` parsing reads it.
pub open spec fn cyfra_z(g: Option<Seq<char>>) -> Option<usize> {
    match g {
        Some(x) => if x.len() == 1 && '0' <= x[0] && x[0] <= '9' {
            Some(((x[0] as u32) - 48) as usize)
        } else {
            None
        },
        None => None,
    }
}

fn cyfra_grupy(g: &Vec<Option<String>>, k: usize) -> (r: Option<usize>)
    ensures
        r == cyfra_z(g_z(grupy(g@), k as int)),
{
    match g_exec(g, k) {
        Some(x) => {
            let s = x.as_str();
            if s.unicode_len() == 1 {
                let c = s.get_char(0);
                if '0' <= c && c <= '9' {
                    Some(((c as u32) - 48) as usize)
                } else {
                    None
                }
            } else {
                None
            }
        },
        None => None,
    }
}

pub open spec fn jesli_trafienie(d: Option<usize>) -> Seq<SygnalW> {
    match d {
        Some(i) => seq![SygnalW::TpHit { index: Some(i) }],
        None => Seq::empty(),
    }
}

/// The first of groups 1, 2, 3 that took part in a match.
pub open spec fn pierwsza_z(g: Seq<Option<Seq<char>>>) -> Option<Seq<char>> {
    match g_z(g, 1) {
        Some(x) => Some(x),
        None => match g_z(g, 2) {
            Some(x) => Some(x),
            None => g_z(g, 3),
        },
    }
}

/// Take-profit hits: two numbered together, one numbered or not, pips or
/// a price level hit, or (loosely) "TP's hit".
pub open spec fn trafienia_tp(t: Seq<char>, o: OpcjeParsera) -> Seq<SygnalW> {
    match przechwyty(re_tp_hit2(), t) {
        Some(Some(c)) => jesli_trafienie(cyfra_z(g_z(c, 1))) + jesli_trafienie(cyfra_z(g_z(c, 2))),
        _ => match przechwyty(re_tp_hit(), t) {
            Some(Some(c)) => seq![SygnalW::TpHit { index: cyfra_z(pierwsza_z(c)) }],
            _ => if trafia(re_pips_hit(), t) || trafia(re_level_hit(), t)
                || (o.luz_interpunkcyjny && trafia(re_tp_hit_apo(), t)) {
                seq![SygnalW::TpHit { index: None }]
            } else {
                Seq::empty()
            },
        },
    }
}

fn trafienia_tp_exec(text: &str, o: OpcjeParsera) -> (r: Vec<Sygnal>)
    ensures
        widok(r@) == trafienia_tp(text@, o),
{
    let mut v: Vec<Sygnal> = Vec::new();
    match przechwyc(r"(?i)\bTP\s*(\d)\s*(?:AND|&|,|\+)\s*(\d)\s*HIT\b", text) {
        Some(Some(c)) => {
            match cyfra_grupy(&c, 1) {
                Some(i) => dodaj(&mut v, Sygnal::TpHit { index: Some(i) }),
                None => {},
            }
            match cyfra_grupy(&c, 2) {
                Some(i) => dodaj(&mut v, Sygnal::TpHit { index: Some(i) }),
                None => {},
            }
            assert(widok(v@) =~= trafienia_tp(text@, o));
            return v;
        },
        _ => {},
    }
    match przechwyc(r"(?i)\bTP\s*(\d)?\s*HIT\b|\bAT\s+TP\s*(\d)\b|\bHIT\s+TP\s*(\d)?\b", text) {
        Some(Some(c)) => {
            let d = match g_exec(&c, 1) {
                Some(_) => cyfra_grupy(&c, 1),
                None => match g_exec(&c, 2) {
                    Some(_) => cyfra_grupy(&c, 2),
                    None => cyfra_grupy(&c, 3),
                },
            };
            dodaj(&mut v, Sygnal::TpHit { index: d });
            assert(widok(v@) =~= trafienia_tp(text@, o));
            return v;
        },
        _ => {},
    }
    if trafia_exec(r"(?i)\b\d+\s*PIPS?\s*(?:HIT|DONE|SECURED)", text) || trafia_exec(r"(?i)\b(\d{3,6}(?:[.,]\d{1,3})?)\s*HIT\b", text)
        || (o.luz_interpunkcyjny && trafia_exec(r"(?i)\bTP['’]S\s+HIT\b", text)) {
        dodaj(&mut v, Sygnal::TpHit { index: None });
    }
    assert(widok(v@) =~= trafienia_tp(text@, o));
    v
}

/// The position just after the last line break before `k` (0 if none).
pub open spec fn ostatni_nl(p: Seq<char>, k: int) -> int
    decreases k,
{
    if k <= 0 {
        0
    } else if p[k - 1] == '\n' {
        k
    } else {
        ostatni_nl(p, k - 1)
    }
}

/// The position of the first line break at or after `k` (the length if none).
pub open spec fn pierwszy_nl(p: Seq<char>, k: int) -> int
    decreases p.len() - k,
{
    if k >= p.len() || k < 0 {
        p.len() as int
    } else if p[k] == '\n' {
        k
    } else {
        pierwszy_nl(p, k + 1)
    }
}

proof fn lemma_ostatni_nl(p: Seq<char>, k: int)
    requires
        0 <= k <= p.len(),
    ensures
        0 <= ostatni_nl(p, k) <= k,
    decreases k,
{
    if k > 0 && p[k - 1] != '\n' {
        lemma_ostatni_nl(p, k - 1);
    }
}

proof fn lemma_pierwszy_nl(p: Seq<char>, k: int)
    requires
        0 <= k <= p.len(),
    ensures
        k <= pierwszy_nl(p, k) <= p.len(),
    decreases p.len() - k,
{
    if k < p.len() && p[k] != '\n' {
        lemma_pierwszy_nl(p, k + 1);
    }
}

fn ostatni_nl_exec(p: &str) -> (r: usize)
    ensures
        r == ostatni_nl(p@, p@.len() as int),
        r <= p@.len(),
{
    let n = p.unicode_len();
    let mut k: usize = n;
    while k > 0 && p.get_char(k - 1) != '\n'
        invariant
            n == p@.len(),
            k <= n,
            ostatni_nl(p@, k as int) == ostatni_nl(p@, n as int),
        decreases k,
    {
        k = k - 1;
    }
    k
}

fn pierwszy_nl_exec(p: &str) -> (r: usize)
    ensures
        r == pierwszy_nl(p@, 0),
        r <= p@.len(),
{
    let n = p.unicode_len();
    let mut k: usize = 0;
    while k < n && p.get_char(k) != '\n'
        invariant
            n == p@.len(),
            k <= n,
            pierwszy_nl(p@, k as int) == pierwszy_nl(p@, 0),
        decreases n - k,
    {
        k = k + 1;
    }
    k
}

/// The line that holds the first match of a pattern.
pub open spec fn linia_dopasowania(t: Seq<char>, o: Option<Option<(Seq<char>, Seq<char>, Seq<char>)>>) -> Seq<char> {
    match o {
        Some(Some((p, m, a))) => p.subrange(ostatni_nl(p, p.len() as int), p.len() as int) + m
            + a.subrange(0, pierwszy_nl(a, 0)),
        _ => t.subrange(0, pierwszy_nl(t, 0)),
    }
}

fn linia_dopasowania_exec<'a>(wzorzec: &str, text: &'a str) -> (r: &'a str)
    ensures
        r@ == linia_dopasowania(text@, okolice_dopasowania(wzorzec@, text@)),
{
    match okolice(wzorzec, text) {
        Some(Some(o)) => {
            let od = ostatni_nl_exec(o.0.as_str());
            let dokad = pierwszy_nl_exec(o.2.as_str());
            let n = text.unicode_len();
            let p_len = o.0.as_str().unicode_len();
            let m_len = o.1.as_str().unicode_len();
            proof {
                assert(text@.len() == o.0@.len() + o.1@.len() + o.2@.len()) by {
                    assert((o.0@ + o.1@ + o.2@).len() == o.0@.len() + o.1@.len() + o.2@.len());
                }
            }
            let r = text.substring_char(od, p_len + m_len + dokad);
            proof {
                assert(r@ =~= o.0@.subrange(od as int, p_len as int) + o.1@ + o.2@.subrange(0, dokad as int));
            }
            r
        },
        _ => {
            let dokad = pierwszy_nl_exec(text);
            text.substring_char(0, dokad)
        },
    }
}

/// The risk-free match: the strict pattern, else (loosely) the misspelt one.
pub open spec fn rf_traf(t: Seq<char>, o: OpcjeParsera) -> Option<(Seq<Option<Seq<char>>>, Seq<char>)> {
    match przechwyty(re_rf(), t) {
        Some(Some(c)) => Some((c, re_rf())),
        _ => if o.luz_interpunkcyjny {
            match przechwyty(re_rf_typo(), t) {
                Some(Some(c)) => Some((c, re_rf_typo())),
                _ => None,
            }
        } else {
            None
        },
    }
}

/// A risk-free signal, unless options ask for execution and the line only
/// announces the intention without a level.
pub open spec fn ryzyko(t: Seq<char>, o: OpcjeParsera) -> Seq<SygnalW> {
    match rf_traf(t, o) {
        Some((c, w)) => {
            let level = cena_g(c, 1);
            if o.rf_wymaga_wykonania && level is None
                && trafia(re_rf_intencja(), linia_dopasowania(t, okolice_dopasowania(w, t))) {
                Seq::empty()
            } else {
                seq![SygnalW::RiskFree { level }]
            }
        },
        None => Seq::empty(),
    }
}

fn ryzyko_exec(text: &str, o: OpcjeParsera) -> (r: Vec<Sygnal>)
    ensures
        widok(r@) == ryzyko(text@, o),
{
    let mut v: Vec<Sygnal> = Vec::new();
    let (c, typo) = match przechwyc(r"(?i)\bRISK\s*FREE\b\s*(?:AT\s*)?[@(]?\s*(\d{3,6}(?:[.,]\d{1,3})?)?", text) {
        Some(Some(c)) => (c, false),
        _ => {
            if !o.luz_interpunkcyjny {
                assert(widok(v@) =~= ryzyko(text@, o));
                return v;
            }
            match przechwyc(r"(?i)\bRISK\s*(?:FREE{2,}|FEEE|FRE)\b\s*(?:AT\s*)?[@(]?\s*(\d{3,6}(?:[.,]\d{1,3})?)?", text) {
                Some(Some(c)) => (c, true),
                _ => {
                    assert(widok(v@) =~= ryzyko(text@, o));
                    return v;
                },
            }
        },
    };
    let level = cena_g_exec(&c, 1);
    let intencja = if o.rf_wymaga_wykonania && level.is_none() {
        let linia = if typo {
            linia_dopasowania_exec(r"(?i)\bRISK\s*(?:FREE{2,}|FEEE|FRE)\b\s*(?:AT\s*)?[@(]?\s*(\d{3,6}(?:[.,]\d{1,3})?)?", text)
        } else {
            linia_dopasowania_exec(r"(?i)\bRISK\s*FREE\b\s*(?:AT\s*)?[@(]?\s*(\d{3,6}(?:[.,]\d{1,3})?)?", text)
        };
        trafia_exec(r"(?i)\b(?:WILL|LOOK\s+TO|TRY(?:ING)?\s+TO|IF\s+POSSIBLE|LOOKING|SCOPE\s+FOR)\b", linia)
    } else {
        false
    };
    if !intencja {
        dodaj(&mut v, Sygnal::RiskFree { level });
    }
    assert(widok(v@) =~= ryzyko(text@, o));
    v
}

/// The prices of a list of matches, those that read as prices.
pub open spec fn same_ceny(ns: Seq<Seq<Option<Seq<char>>>>) -> Seq<u64>
    decreases ns.len(),
{
    if ns.len() == 0 {
        Seq::empty()
    } else {
        let w = same_ceny(ns.drop_last());
        match cena_g(ns.last(), 0) {
            Some(v) => w.push(v),
            None => w,
        }
    }
}

/// Every price listed after "targets".
pub open spec fn liczby_celow(t: Seq<char>) -> Seq<u64> {
    match przechwyty(re_spp_targets(), t) {
        Some(Some(c)) => match g_z(c, 1) {
            Some(x) => match wszystkie_przechwyty(re_nums(), x) {
                Some(ns) => same_ceny(ns),
                None => Seq::empty(),
            },
            None => Seq::empty(),
        },
        _ => Seq::empty(),
    }
}

fn liczby_celow_exec(text: &str) -> (r: Vec<u64>)
    ensures
        r@ == liczby_celow(text@),
{
    let mut v: Vec<u64> = Vec::new();
    let c = match przechwyc(r"(?i)TARGETS?\s*[;:,]?\s*((?:\s*\d{3,6}(?:[.,]\d{1,3})?)+)", text) {
        Some(Some(c)) => c,
        _ => {
            return v;
        },
    };
    let x = match g_exec(&c, 1) {
        Some(x) => x,
        None => {
            return v;
        },
    };
    let ns = match przechwyc_wszystkie(r"\d{3,6}(?:[.,]\d{1,3})?", x.as_str()) {
        Some(ns) => ns,
        None => {
            return v;
        },
    };
    let ghost w = wszystkie_grupy(ns@);
    let mut k: usize = 0;
    while k < ns.len()
        invariant
            k <= ns@.len(),
            w == wszystkie_grupy(ns@),
            v@ == same_ceny(w.take(k as int)),
        decreases ns@.len() - k,
    {
        proof {
            assert(w.take(k + 1).drop_last() =~= w.take(k as int));
        }
        match cena_grupy_vec(&ns, k, 0) {
            Some(p) => v.push(p),
            None => {},
        }
        k = k + 1;
    }
    proof {
        assert(w.take(ns@.len() as int) =~= w);
    }
    v
}

/// A partial-securing signal.
pub open spec fn zabezpieczenie(t: Seq<char>, o: OpcjeParsera) -> Seq<SygnalW> {
    if trafia(re_spp(), t) || (o.luz_interpunkcyjny && trafia(re_spp_luz(), t) && trafia(re_spp_targets(), t)) {
        seq![SygnalW::SecuringPartial {
            targets: liczby_celow(t),
            sl: sl_z(t),
            spp_be_level: cena_grupy(re_be_at(), t, 1),
        }]
    } else {
        Seq::empty()
    }
}

fn zabezpieczenie_exec(text: &str, o: OpcjeParsera) -> (r: Vec<Sygnal>)
    ensures
        widok(r@) == zabezpieczenie(text@, o),
{
    let mut v: Vec<Sygnal> = Vec::new();
    if trafia_exec(r"(?i)SECURING\s+PARTIAL", text)
        || (o.luz_interpunkcyjny && trafia_exec(r"(?i)\bCLOSING\s+PARTIAL\s+PROFITS?\b", text) && trafia_exec(r"(?i)TARGETS?\s*[;:,]?\s*((?:\s*\d{3,6}(?:[.,]\d{1,3})?)+)", text)) {
        let spp_be_level = cena_grupy_exec(r"(?i)\bSL\b[^\n\d]{0,25}\bSET\b[^\n\d]{0,15}(\d{3,6}(?:[.,]\d{1,3})?)", text, 1);
        let targets = liczby_celow_exec(text);
        let sl = sl_exec(text);
        dodaj(&mut v, Sygnal::SecuringPartial { targets, sl, spp_be_level });
    }
    assert(widok(v@) =~= zabezpieczenie(text@, o));
    v
}

pub open spec fn korekta_z(i: Option<usize>, v: Option<u64>) -> Seq<SygnalW> {
    match (i, v) {
        (Some(i), Some(v)) => seq![SygnalW::TpCorrection { index: i, value: v }],
        _ => Seq::empty(),
    }
}

/// A corrected take-profit: "use P as TP n", "TP n moved to P", or
/// (loosely) "TP n should be P".
pub open spec fn korekty(t: Seq<char>, o: OpcjeParsera) -> Seq<SygnalW> {
    match przechwyty(re_corr(), t) {
        Some(Some(c)) => korekta_z(cyfra_z(g_z(c, 2)), cena_g(c, 1)),
        _ => match przechwyty(re_corr2(), t) {
            Some(Some(c)) => korekta_z(cyfra_z(g_z(c, 1)), cena_g(c, 2)),
            _ => if o.luz_interpunkcyjny {
                match przechwyty(re_corr3(), t) {
                    Some(Some(c)) => korekta_z(cyfra_z(g_z(c, 1)), cena_g(c, 2)),
                    _ => Seq::empty(),
                }
            } else {
                Seq::empty()
            },
        },
    }
}

fn korekta_exec(v: &mut Vec<Sygnal>, i: Option<usize>, p: Option<u64>)
    ensures
        widok(final(v)@) == widok(old(v)@) + korekta_z(i, p),
{
    match (i, p) {
        (Some(i), Some(p)) => dodaj(v, Sygnal::TpCorrection { index: i, value: p }),
        _ => {
            assert(widok(v@) =~= widok(v@) + Seq::<SygnalW>::empty());
        },
    }
}

fn korekty_exec(text: &str, o: OpcjeParsera) -> (r: Vec<Sygnal>)
    ensures
        widok(r@) == korekty(text@, o),
{
    let mut v: Vec<Sygnal> = Vec::new();
    match przechwyc(r"(?i)USE\s+(\d{3,6}(?:[.,]\d{1,3})?)\s+AS\s+TP\s*(\d)", text) {
        Some(Some(c)) => {
            korekta_exec(&mut v, cyfra_grupy(&c, 2), cena_g_exec(&c, 1));
            assert(widok(v@) =~= korekty(text@, o));
            return v;
        },
        _ => {},
    }
    match przechwyc(r"(?i)TP\s*(\d)\s*(?:IS\s+)?(?:ADJUSTED|MOVED|CHANGED|SET)\s+TO\s+(\d{3,6}(?:[.,]\d{1,3})?)", text) {
        Some(Some(c)) => {
            korekta_exec(&mut v, cyfra_grupy(&c, 1), cena_g_exec(&c, 2));
            assert(widok(v@) =~= korekty(text@, o));
            return v;
        },
        _ => {},
    }
    if o.luz_interpunkcyjny {
        match przechwyc(r"(?i)\bTP\s*(\d)\s+SHOULD\s+BE\s+(\d{3,6}(?:[.,]\d{1,3})?)", text) {
            Some(Some(c)) => {
                korekta_exec(&mut v, cyfra_grupy(&c, 1), cena_g_exec(&c, 2));
            },
            _ => {},
        }
    }
    assert(widok(v@) =~= korekty(text@, o));
    v
}

pub open spec fn jesli_sl(p: Option<u64>) -> Seq<SygnalW> {
    match p {
        Some(v) => seq![SygnalW::SetSl { value: v }],
        None => Seq::empty(),
    }
}

/// A new stop-loss: "move SL to P", else "SL @ P".
pub open spec fn ustaw_sl(t: Seq<char>) -> Seq<SygnalW> {
    match przechwyty(re_setsl(), t) {
        Some(Some(c)) => jesli_sl(cena_g(c, 1)),
        _ => match przechwyty(re_nova_sl_at(), t) {
            Some(Some(c)) => jesli_sl(cena_g(c, 1)),
            _ => Seq::empty(),
        },
    }
}

fn ustaw_sl_exec(text: &str) -> (r: Vec<Sygnal>)
    ensures
        widok(r@) == ustaw_sl(text@),
{
    let mut v: Vec<Sygnal> = Vec::new();
    let p = match przechwyc(r"(?i)(?:MOVE|SET)\s+SL\s+(?:TO\s+)?(\d{3,6}(?:[.,]\d{1,3})?)", text) {
        Some(Some(c)) => cena_g_exec(&c, 1),
        _ => match przechwyc(r"(?i)\b(?:BE|SL)\s*(?:TO\s*)?@\s*(\d{3,6}(?:[.,]\d{1,3})?)", text) {
            Some(Some(c)) => cena_g_exec(&c, 1),
            _ => None,
        },
    };
    match p {
        Some(x) => dodaj(&mut v, Sygnal::SetSl { value: x }),
        None => {},
    }
    assert(widok(v@) =~= ustaw_sl(text@));
    v
}

/// A close-layers instruction that is not optional.
pub open spec fn partials_obowiazkowe(t: Seq<char>) -> bool {
    match warstwy_z(
        trafia(re_close_layers(), t),
        cena_grupy(re_layer_level(), t, 1),
        ile_warstw(t),
        trafia(re_layer_optional(), t),
    ) {
        Some(l) => !l.optional,
        None => false,
    }
}

pub open spec fn uniewazniony(t: Seq<char>) -> bool {
    uniewaznienie_z(
        trafia(re_invalid_only(), t),
        trafia(re_invalid_linia(), t),
        trafia(re_no_longer_valid(), t),
        trafia(re_wait_next(), t),
        trafia(re_zone_failed(), t),
    )
}

pub open spec fn jesli(b: bool, s: SygnalW) -> Seq<SygnalW> {
    if b { seq![s] } else { Seq::empty() }
}

/// Out at entry, close all, take partials, cancel.
pub open spec fn polecenia(t: Seq<char>, o: OpcjeParsera) -> Seq<SygnalW> {
    jesli(trafia(re_oae(), t) || (o.luz_interpunkcyjny && trafia(re_oae_luz(), t)), SygnalW::OutAtEntry)
        + jesli(trafia(re_close(), t) && !trafia(re_close_layers(), t), SygnalW::CloseAll)
        + jesli(o.partials_jako_komenda && partials_obowiazkowe(t), SygnalW::TakePartials)
        + jesli(trafia(re_cancel(), t) || uniewazniony(t) || (o.luz_interpunkcyjny && trafia(re_nlv_podmiot(), t)), SygnalW::Cancel)
}

fn polecenia_exec(text: &str, o: OpcjeParsera) -> (r: Vec<Sygnal>)
    ensures
        widok(r@) == polecenia(text@, o),
{
    let mut v: Vec<Sygnal> = Vec::new();
    let b1 = trafia_exec(r"(?i)\bOUT\s+AT\s+(?:ENTRY|BE)\b", text) || (o.luz_interpunkcyjny && trafia_exec(r"(?i)\bOUT\b[\s.,:;!—–-]{1,4}\bAT\s+(?:ENTRY|BE)\b", text));
    if b1 {
        dodaj(&mut v, Sygnal::OutAtEntry);
    }
    let ghost w1 = widok(v@);
    assert(w1 =~= jesli(trafia(re_oae(), text@) || (o.luz_interpunkcyjny && trafia(re_oae_luz(), text@)), SygnalW::OutAtEntry));
    let b2 = trafia_exec(r"(?i)\bCLOSE\s+(?:ALL|EVERYTHING|THE\s+REST)\b", text) && !trafia_exec(r"(?i)\bCLOSE\b[^\n]{0,40}?\bLAYERS?\b|\bCLOSE\s+PARTIALS?\b|(?m)^[\W_]*TAKE\s+PARTIALS?\b", text);
    if b2 {
        dodaj(&mut v, Sygnal::CloseAll);
    }
    let ghost w2 = widok(v@);
    assert(w2 =~= w1 + jesli(trafia(re_close(), text@) && !trafia(re_close_layers(), text@), SygnalW::CloseAll));
    let b3 = o.partials_jako_komenda && match close_layers(text) {
        Some(l) => !l.optional,
        None => false,
    };
    if b3 {
        dodaj(&mut v, Sygnal::TakePartials);
    }
    let ghost w3 = widok(v@);
    assert(w3 =~= w2 + jesli(o.partials_jako_komenda && partials_obowiazkowe(text@), SygnalW::TakePartials));
    let b4 = trafia_exec(r"(?i)\bCANCEL\b|\bDELETE\b.*\bLIMIT", text) || is_invalidated(text)
        || (o.luz_interpunkcyjny && trafia_exec(r"(?i)\b(?:ZONE|SETUP|TRADE|ENTRY|LIMITS?)\b[^\n]{0,20}?\bIS\s+NO\s+LONGER\s+VALID\b", text));
    if b4 {
        dodaj(&mut v, Sygnal::Cancel);
    }
    assert(widok(v@) =~= w3 + jesli(trafia(re_cancel(), text@) || uniewazniony(text@) || (o.luz_interpunkcyjny && trafia(re_nlv_podmiot(), text@)), SygnalW::Cancel));
    v
}

/// The take-profit numbers of bare "TP n" lines (those without a price),
/// each once, in the order first seen.
pub open spec fn numery_tp(ms: Seq<Seq<Option<Seq<char>>>>) -> Seq<usize>
    decreases ms.len(),
{
    if ms.len() == 0 {
        Seq::empty()
    } else {
        let w = numery_tp(ms.drop_last());
        let c = ms.last();
        if g_z(c, 2) is Some {
            w
        } else {
            match cyfra_z(g_z(c, 1)) {
                Some(i) => if w.contains(i) { w } else { w.push(i) },
                None => w,
            }
        }
    }
}

/// Some "TP n" line opens a line without a price.
pub open spec fn kotwica_bez_ceny(t: Seq<char>) -> bool {
    match wszystkie_przechwyty(re_px_tp_kotwica(), t) {
        Some(ms) => exists|k: int| 0 <= k < ms.len() && g_z(#[trigger] ms[k], 1) is None,
        None => false,
    }
}

/// Numbered take-profit hits read from a bare list of "TP n" lines, when
/// nothing else was read.
pub open spec fn numerowane(t: Seq<char>, w: Seq<SygnalW>) -> Seq<SygnalW> {
    if w.len() == 0 && !trafia(re_sl(), t) && !trafia(re_px_tp_rewizja(), t) && kotwica_bez_ceny(t) {
        match wszystkie_przechwyty(re_px_tp_numer(), t) {
            Some(ms) => numery_tp(ms).map_values(|i: usize| SygnalW::TpHit { index: Some(i) }),
            None => Seq::empty(),
        }
    } else {
        Seq::empty()
    }
}

fn zawiera_numer(v: &Vec<usize>, x: usize) -> (r: bool)
    ensures
        r == v@.contains(x),
{
    let mut k: usize = 0;
    while k < v.len()
        invariant
            k <= v@.len(),
            forall|j: int| 0 <= j < k ==> v@[j] != x,
        decreases v@.len() - k,
    {
        if v[k] == x {
            assert(v@[k as int] == x);
            return true;
        }
        k = k + 1;
    }
    false
}

fn kotwica_bez_ceny_exec(text: &str) -> (r: bool)
    ensures
        r == kotwica_bez_ceny(text@),
{
    let ms = match przechwyc_wszystkie(r"(?im)^\s*TP\s*[1-8]\b([\s:=@-]*\d{3,6})?", text) {
        Some(ms) => ms,
        None => {
            return false;
        },
    };
    let ghost w = wszystkie_grupy(ms@);
    let mut k: usize = 0;
    while k < ms.len()
        invariant
            k <= ms@.len(),
            w == wszystkie_grupy(ms@),
            wszystkie_przechwyty(re_px_tp_kotwica(), text@) == Some(w),
            forall|j: int| 0 <= j < k ==> g_z(#[trigger] w[j], 1) is Some,
        decreases ms@.len() - k,
    {
        proof {
            assert(w[k as int] == grupy(ms@[k as int]@));
        }
        match g_exec(&ms[k], 1) {
            None => {
                proof {
                    assert(wszystkie_przechwyty(re_px_tp_kotwica(), text@) == Some(w));
                    assert(0 <= k < w.len() && g_z(w[k as int], 1) is None);
                    assert(exists|j: int| 0 <= j < w.len() && g_z(#[trigger] w[j], 1) is None);
                }
                return true;
            },
            Some(_) => {},
        }
        k = k + 1;
    }
    false
}

fn numerowane_exec(text: &str, pusto: bool) -> (r: Vec<Sygnal>)
    ensures
        forall|w: Seq<SygnalW>| (w.len() == 0) == pusto ==> widok(r@) == #[trigger] numerowane(text@, w),
{
    let mut v: Vec<Sygnal> = Vec::new();
    if !(pusto && !trafia_exec(r"(?i)\bSL\s*[:@=]?\s*\b(\d{3,6}(?:[.,]\d{1,3})?)", text) && !trafia_exec(r"(?i)\b(?:UPDATED?|APPROACHING|WRONG|EDIT)\b", text) && kotwica_bez_ceny_exec(text)) {
        assert(widok(v@) =~= Seq::<SygnalW>::empty());
        return v;
    }
    let ms = match przechwyc_wszystkie(r"(?i)\bTP\s*([1-8])\b([\s:=@-]*\d{3,6})?", text) {
        Some(ms) => ms,
        None => {
            assert(widok(v@) =~= Seq::<SygnalW>::empty());
            return v;
        },
    };
    let ghost w = wszystkie_grupy(ms@);
    let mut nums: Vec<usize> = Vec::new();
    let mut k: usize = 0;
    while k < ms.len()
        invariant
            k <= ms@.len(),
            w == wszystkie_grupy(ms@),
            nums@ == numery_tp(w.take(k as int)),
            widok(v@) == nums@.map_values(|i: usize| SygnalW::TpHit { index: Some(i) }),
        decreases ms@.len() - k,
    {
        proof {
            assert(w.take(k + 1).drop_last() =~= w.take(k as int));
            assert(w[k as int] == grupy(ms@[k as int]@));
            assert(w.take(k + 1).last() == w[k as int]);
        }
        let ma_cene = match g_exec(&ms[k], 2) {
            Some(_) => true,
            None => false,
        };
        if !ma_cene {
            match cyfra_grupy(&ms[k], 1) {
                Some(i) => {
                    if !zawiera_numer(&nums, i) {
                        let ghost n0 = nums@;
                        nums.push(i);
                        dodaj(&mut v, Sygnal::TpHit { index: Some(i) });
                        proof {
                            assert(nums@.map_values(|i: usize| SygnalW::TpHit { index: Some(i) })
                                =~= n0.map_values(|i: usize| SygnalW::TpHit { index: Some(i) }).push(SygnalW::TpHit { index: Some(i) }));
                        }
                    }
                },
                None => {},
            }
        }
        k = k + 1;
    }
    proof {
        assert(w.take(ms@.len() as int) =~= w);
    }
    v
}

pub open spec fn ma_be_lub_sl(w: Seq<SygnalW>) -> bool {
    exists|i: int| 0 <= i < w.len() && (#[trigger] w[i] is BreakEven || w[i] is SetSl)
}

pub open spec fn ma_trafienie(w: Seq<SygnalW>) -> bool {
    exists|i: int| 0 <= i < w.len() && (#[trigger] w[i] is TpHit || w[i] is SlHit)
}

pub open spec fn ma_wejscie(w: Seq<SygnalW>) -> bool {
    exists|i: int| 0 <= i < w.len() && #[trigger] w[i] is Entry
}

fn szukaj(v: &Vec<Sygnal>, rodzaj: u8) -> (r: bool)
    requires
        rodzaj < 3,
    ensures
        rodzaj == 0 ==> r == ma_be_lub_sl(widok(v@)),
        rodzaj == 1 ==> r == ma_trafienie(widok(v@)),
        rodzaj == 2 ==> r == ma_wejscie(widok(v@)),
{
    let ghost w = widok(v@);
    let mut k: usize = 0;
    while k < v.len()
        invariant
            k <= v@.len(),
            w == widok(v@),
            rodzaj < 3,
            rodzaj == 0 ==> forall|j: int| 0 <= j < k ==> !(#[trigger] w[j] is BreakEven || w[j] is SetSl),
            rodzaj == 1 ==> forall|j: int| 0 <= j < k ==> !(#[trigger] w[j] is TpHit || w[j] is SlHit),
            rodzaj == 2 ==> forall|j: int| 0 <= j < k ==> !(#[trigger] w[j] is Entry),
        decreases v@.len() - k,
    {
        assert(w[k as int] == v@[k as int]@);
        let jest = match &v[k] {
            Sygnal::BreakEven | Sygnal::SetSl { .. } => rodzaj == 0,
            Sygnal::TpHit { .. } | Sygnal::SlHit => rodzaj == 1,
            Sygnal::Entry => rodzaj == 2,
            _ => false,
        };
        if jest {
            return true;
        }
        k = k + 1;
    }
    false
}

/// Break-even signals: at most one, and none beside a break-even or a new
/// stop-loss already read.
pub open spec fn be_kroki(t: Seq<char>, o: OpcjeParsera, w: Seq<SygnalW>) -> Seq<SygnalW> {
    let w1 = if trafia(re_px_be(), t) && !trafia(re_px_be_odmowa(), t) && !ma_be_lub_sl(w) {
        w.push(SygnalW::BreakEven)
    } else {
        w
    };
    let w2 = if trafia(re_storm_be(), t) && !ma_be_lub_sl(w1) { w1.push(SygnalW::BreakEven) } else { w1 };
    if o.luz_interpunkcyjny && trafia(re_be_luz(), t) && !ma_be_lub_sl(w2) {
        w2.push(SygnalW::BreakEven)
    } else {
        w2
    }
}

/// The entry, a market-open call, and the fallback when nothing was read.
pub open spec fn koncowka(t: Seq<char>, o: OpcjeParsera, g: Geometria, w: Seq<SygnalW>) -> Seq<SygnalW> {
    let w1 = if !ma_trafienie(w) && (g.wejscie || (o.luz_interpunkcyjny && g.wejscie_obszar)) {
        w.push(SygnalW::Entry)
    } else {
        w
    };
    let w2 = if !ma_wejscie(w1) && !trafia(re_tp(), t) && !trafia(re_sl(), t) {
        match przechwyty(re_market_open(), t) {
            Some(Some(c)) => match g_z(c, 1) {
                Some(x) => w1.push(SygnalW::MarketOpen { side: strona_z(x) }),
                None => w1,
            },
            _ => w1,
        }
    } else {
        w1
    };
    if w2.len() == 0 {
        if trafia(re_be(), t) {
            seq![SygnalW::BreakEven]
        } else if o.geometryczny && g.odczyt_pewny {
            seq![SygnalW::Entry]
        } else {
            seq![SygnalW::Info]
        }
    } else {
        w2
    }
}

/// The hits, risk-free, partial-securing, correction, stop-loss and command
/// signals of a message, in that order.
pub open spec fn pierwsze(t: Seq<char>, o: OpcjeParsera) -> Seq<SygnalW> {
    jesli(trafia(re_sl_hit(), t) || trafia(re_nova_sl_strata(), t) || trafia(re_px_cut_loss(), t), SygnalW::SlHit)
        + trafienia_tp(t, o) + ryzyko(t, o) + zabezpieczenie(t, o) + korekty(t, o) + ustaw_sl(t) + polecenia(t, o)
}

fn pierwsze_exec(text: &str, o: OpcjeParsera) -> (r: Vec<Sygnal>)
    ensures
        widok(r@) == pierwsze(text@, o),
{
    let mut out: Vec<Sygnal> = Vec::new();
    if trafia_exec(r"(?i)\bSL\s*HIT\b|\bSTOP\s*(?:LOSS)?\s*HIT\b", text) || trafia_exec(r"(?im)\bSL\s*-\s*\d{1,3}\b", text) || trafia_exec(r"(?i)\bCUT\s+(?:THE\s+)?LOSS(?:ES)?\b", text) {
        dodaj(&mut out, Sygnal::SlHit);
    }
    assert(widok(out@) =~= jesli(trafia(re_sl_hit(), text@) || trafia(re_nova_sl_strata(), text@) || trafia(re_px_cut_loss(), text@), SygnalW::SlHit));
    dolacz(&mut out, trafienia_tp_exec(text, o));
    dolacz(&mut out, ryzyko_exec(text, o));
    dolacz(&mut out, zabezpieczenie_exec(text, o));
    dolacz(&mut out, korekty_exec(text, o));
    dolacz(&mut out, ustaw_sl_exec(text));
    dolacz(&mut out, polecenia_exec(text, o));
    out
}

fn be_kroki_exec(out: &mut Vec<Sygnal>, text: &str, o: OpcjeParsera)
    ensures
        widok(final(out)@) == be_kroki(text@, o, widok(old(out)@)),
{
    if trafia_exec(r"(?i)\bPUT\s+(?:THE\s+)?(?:BE|BREAK\s*EVEN)\b|\bBE\s+NOW\b|\bBE\s+FOR\s+SAFETY\b|\bBREAK\s*EVEN\s+ACTIVE\b", text) && !trafia_exec(r"(?i)\b(?:AT|TO)\s+BE\s+NOW\b", text) && !szukaj(out, 0) {
        dodaj(out, Sygnal::BreakEven);
    }
    if trafia_exec(r"(?i)\bIF\s+HOLD\s+SET\s+BE\b|\bHOLD\s+RISK\s+WITH\s+BREAK\s*EVEN\b", text) && !szukaj(out, 0) {
        dodaj(out, Sygnal::BreakEven);
    }
    if o.luz_interpunkcyjny && trafia_exec(r"(?i)\b(?:MOVE|SET|MOVING|SETTING|PUT)\b[^\n\d]{0,20}\bSL\b[^\n\d]{0,20}\bTO\b[^\n\d]{0,10}\bBE\b", text) && !szukaj(out, 0) {
        dodaj(out, Sygnal::BreakEven);
    }
}

fn koncowka_exec(out: &mut Vec<Sygnal>, text: &str, o: OpcjeParsera, g: Geometria)
    ensures
        widok(final(out)@) == koncowka(text@, o, g, widok(old(out)@)),
{
    let ghost w2 = widok(out@);
    if !szukaj(out, 1) && (g.wejscie || (o.luz_interpunkcyjny && g.wejscie_obszar)) {
        dodaj(out, Sygnal::Entry);
    }
    if !szukaj(out, 2) && !trafia_exec(r"(?i)\bA?TP\s*\d?\s*[:@=]?\s*\b(\d{3,6}(?:[.,]\d{1,3})?)", text) && !trafia_exec(r"(?i)\bSL\s*[:@=]?\s*\b(\d{3,6}(?:[.,]\d{1,3})?)", text) {
        match przechwyc(r"(?i)\b(BUY|SELL)\s+NOW\b", text) {
            Some(Some(c)) => match g_exec(&c, 1) {
                Some(x) => dodaj(out, Sygnal::MarketOpen { side: strona_exec(x) }),
                None => {},
            },
            _ => {},
        }
    }
    if out.len() == 0 {
        if trafia_exec(r"(?i)\bSL\s+IS\s+SET\s+TO\s+BE\b|\bBREAK\s*EVEN\b|\bSET\s+BE\b", text) {
            dodaj(out, Sygnal::BreakEven);
        } else if o.geometryczny && g.odczyt_pewny {
            dodaj(out, Sygnal::Entry);
        } else {
            dodaj(out, Sygnal::Info);
        }
    }
    assert(widok(out@) =~= koncowka(text@, o, g, w2));
}

/// The signals a message gives, in the order the reader finds them.
pub open spec fn sygnaly(t: Seq<char>, o: OpcjeParsera, g: Geometria) -> Seq<SygnalW> {
    if trafia(re_retrospekcja(), t) && !g.wejscie {
        seq![SygnalW::Info]
    } else if o.recap_guard && podsumowanie_z(trafia(re_recap_title(), t), trafia(re_recap_total(), t), trafia(re_recap_results(), t)) {
        if g.wejscie { seq![SygnalW::Entry] } else { seq![SygnalW::Info] }
    } else {
        let w0 = pierwsze(t, o);
        koncowka(t, o, g, be_kroki(t, o, w0 + numerowane(t, w0)))
    }
}

/// Reads the signals of a message. The price geometry (entry prices and
/// their repair, the geometric reading and its confidence) is the
/// application's floating-point work; its verdicts come in `g`.
pub fn parse_z_opcjami(text: &str, o: OpcjeParsera, g: Geometria) -> (r: Vec<Sygnal>)
    ensures
        widok(r@) == sygnaly(text@, o, g),
{
    let mut out: Vec<Sygnal> = Vec::new();
    if trafia_exec(r"(?i)\b(?:IF|FOR)\s+ANYONE\s+(?:THAT\s+|STILL\s+|WHO\s+)?(?:TOOK|HELD|HOLDS|HOLDING)\b", text) && !g.wejscie {
        dodaj(&mut out, Sygnal::Info);
        assert(widok(out@) =~= seq![SygnalW::Info]);
        return out;
    }
    if o.recap_guard && podsumowanie_wielu_transakcji(text) {
        if g.wejscie {
            dodaj(&mut out, Sygnal::Entry);
            assert(widok(out@) =~= seq![SygnalW::Entry]);
        } else {
            dodaj(&mut out, Sygnal::Info);
            assert(widok(out@) =~= seq![SygnalW::Info]);
        }
        return out;
    }
    let mut out = pierwsze_exec(text, o);
    let pusto = out.len() == 0;
    dolacz(&mut out, numerowane_exec(text, pusto));
    be_kroki_exec(&mut out, text, o);
    koncowka_exec(&mut out, text, o, g);
    out
}


impl Default for OpcjeParsera {
    fn default() -> (r: Self)
        ensures
            !r.geometryczny && !r.rf_wymaga_wykonania && !r.partials_jako_komenda
                && !r.luz_interpunkcyjny && !r.recap_guard,
    {
        OpcjeParsera {
            geometryczny: false,
            rf_wymaga_wykonania: false,
            partials_jako_komenda: false,
            luz_interpunkcyjny: false,
            recap_guard: false,
        }
    }
}

/// The signals without their take-profit hits, order kept.
pub open spec fn bez_trafien(w: Seq<SygnalW>) -> Seq<SygnalW>
    decreases w.len(),
{
    if w.len() == 0 {
        w
    } else {
        let s = bez_trafien(w.drop_last());
        if w.last() is TpHit { s } else { s.push(w.last()) }
    }
}

proof fn lemma_bez_trafien_krotsze(w: Seq<SygnalW>)
    ensures
        bez_trafien(w).len() <= w.len(),
    decreases w.len(),
{
    if w.len() > 0 {
        lemma_bez_trafien_krotsze(w.drop_last());
    }
}

/// When a message only reports the price being at a take-profit, drops the
/// take-profit hits read from it and tells how many went.
pub fn suppress_at_tp_hits(signals: &mut Vec<Sygnal>, text: &str) -> (r: usize)
    ensures
        rodzaj_aktualizacji(text@) != ProfitUpdateKind::AtTpProximity ==> r == 0 && final(signals)@ == old(signals)@,
        rodzaj_aktualizacji(text@) == ProfitUpdateKind::AtTpProximity ==> {
            &&& widok(final(signals)@) == bez_trafien(widok(old(signals)@))
            &&& r == old(signals)@.len() - final(signals)@.len()
        },
{
    if !at_tp_is_telemetry(text) {
        return 0;
    }
    let before = signals.len();
    let mut reszta: Vec<Sygnal> = Vec::new();
    std::mem::swap(signals, &mut reszta);
    let ghost w = widok(reszta@);
    let ghost n = reszta@.len();
    let mut k: usize = 0;
    while reszta.len() > 0
        invariant
            n == before,
            w.len() == n,
            k + reszta@.len() == n,
            widok(reszta@) == w.skip(k as int),
            widok(signals@) == bez_trafien(w.take(k as int)),
        decreases reszta@.len(),
    {
        let ghost r0 = reszta@;
        let s = reszta.remove(0);
        proof {
            assert(w.take(k + 1).drop_last() =~= w.take(k as int));
            assert(widok(r0)[0] == s@);
            assert(w.take(k + 1).last() == s@);
            assert(reszta@ =~= r0.subrange(1, r0.len() as int));
            assert forall|i: int| 0 <= i < widok(reszta@).len() implies #[trigger] widok(reszta@)[i] == w.skip(k + 1)[i] by {
                assert(reszta@[i] == r0[i + 1]);
                assert(widok(r0)[i + 1] == w.skip(k as int)[i + 1]);
            }
            assert(widok(reszta@) =~= w.skip(k + 1));
        }
        match s {
            Sygnal::TpHit { .. } => {},
            _ => {
                dodaj(signals, s);
            },
        }
        k = k + 1;
    }
    proof {
        assert(w.take(n as int) =~= w);
        lemma_bez_trafien_krotsze(w);
    }
    before - signals.len()
}


pub open spec fn re_entry_area_przed_at() -> Seq<char> {
    r"(?i)(\b(?:BUY|SELL)\s*(?:LIMITS?|STOPS?)?\s*(?:GOLD|XAUUSD|XAU)\s*(?:LIMITS?|STOPS?)?)\s+AREA\s*(@?)"@
}

pub open spec fn re_geo_buy() -> Seq<char> {
    r"(?i)\bBUY\b"@
}

pub open spec fn re_geo_sell() -> Seq<char> {
    r"(?i)\bSELL\b"@
}

pub open spec fn re_geo_raport() -> Seq<char> {
    r"(?i)\b(?:HIT|CLOSED|CLOSING|PROFITS?|PIPS?|SECURED|SECURING|RUNNING|RECAP|RESULTS?|CANCELL?ED|INVALID|ENTRIES)\b|\bBREAK\s*EVEN\b|\bRISK\s*FREE\b|\bIN\s+(?:GREEN|RED)\b"@
}

pub open spec fn re_geo_limit() -> Seq<char> {
    r"(?i)\b(?:BUY|SELL)\s+(?:GOLD\s+|XAUUSD\s+|XAU\s+)?LIMITS?\b"@
}

pub open spec fn re_geo_stop() -> Seq<char> {
    r"(?i)\b(?:BUY|SELL)\s+(?:GOLD\s+|XAUUSD\s+|XAU\s+)?STOPS?\b"@
}


/// What `Regex::replace` makes of a text, as the `regex` crate decides it:
/// None when the pattern does not compile, else the text with its first
/// match replaced by the expansion of the replacement.
pub uninterp spec fn zamiana(wzorzec: Seq<char>, tekst: Seq<char>, zamiennik: Seq<char>) -> Option<Seq<char>>;

/// Compiles the pattern with `regex::Regex::new` and replaces the first
/// match with `Regex::replace`. The claim: the answer is `zamiana` of the
/// pattern, the text and the replacement.
#[verifier::external_body]
fn zamien(wzorzec: &str, tekst: &str, zamiennik: &str) -> (r: Option<String>)
    ensures
        match r {
            Some(t) => zamiana(wzorzec@, tekst@, zamiennik@) == Some(t@),
            None => zamiana(wzorzec@, tekst@, zamiennik@) is None,
        },
{
    match regex::Regex::new(wzorzec) {
        Ok(re) => Some(re.replace(tekst, zamiennik).into_owned()),
        Err(_) => None,
    }
}

/// The text of an entry written as "BUY GOLD AREA @ P", with "AREA"
/// dropped so that the entry reader can take it; None when there is no
/// such head.
pub open spec fn tekst_obszaru_spec(t: Seq<char>) -> Option<Seq<char>> {
    match zamiana(re_entry_area_przed_at(), t, "$1 $2"@) {
        Some(p) => if p == t { None } else { Some(p) },
        None => None,
    }
}

pub fn tekst_obszaru(text: &str) -> (r: Option<String>)
    ensures
        match r {
            Some(p) => tekst_obszaru_spec(text@) == Some(p@),
            None => tekst_obszaru_spec(text@) is None,
        },
{
    match zamien(r"(?i)(\b(?:BUY|SELL)\s*(?:LIMITS?|STOPS?)?\s*(?:GOLD|XAUUSD|XAU)\s*(?:LIMITS?|STOPS?)?)\s+AREA\s*(@?)", text, "$1 $2") {
        Some(p) => {
            if rowne_teksty(p.as_str(), text) {
                None
            } else {
                Some(p)
            }
        },
        None => None,
    }
}

/// The prices among the numbers of a text, in order.
pub open spec fn ceny_tekstu(t: Seq<char>) -> Seq<u64> {
    match wszystkie_przechwyty(re_nums(), t) {
        Some(ns) => same_ceny(ns),
        None => Seq::empty(),
    }
}

fn ceny_tekstu_exec(text: &str) -> (r: Vec<u64>)
    ensures
        r@ == ceny_tekstu(text@),
{
    let mut v: Vec<u64> = Vec::new();
    let ns = match przechwyc_wszystkie(r"\d{3,6}(?:[.,]\d{1,3})?", text) {
        Some(ns) => ns,
        None => {
            return v;
        },
    };
    let ghost w = wszystkie_grupy(ns@);
    let mut k: usize = 0;
    while k < ns.len()
        invariant
            k <= ns@.len(),
            w == wszystkie_grupy(ns@),
            wszystkie_przechwyty(re_nums(), text@) == Some(w),
            v@ == same_ceny(w.take(k as int)),
        decreases ns@.len() - k,
    {
        proof {
            assert(w.take(k + 1).drop_last() =~= w.take(k as int));
        }
        match cena_grupy_vec(&ns, k, 0) {
            Some(p) => v.push(p),
            None => {},
        }
        k = k + 1;
    }
    proof {
        assert(w.take(ns@.len() as int) =~= w);
    }
    v
}

pub open spec fn rosnace(v: Seq<u64>) -> bool {
    forall|i: int, j: int| 0 <= i < j < v.len() ==> v[i] < v[j]
}

/// `r` holds the sensible price levels of `v`, each once, in increasing order.
pub open spec fn poziomy_z(v: Seq<u64>, r: Seq<u64>) -> bool {
    &&& rosnace(r)
    &&& forall|x: u64| r.contains(x) <==> (v.contains(x) && poziom_sensowny(x))
}

fn poziomy_rosnace(v: &Vec<u64>) -> (r: Vec<u64>)
    ensures
        poziomy_z(v@, r@),
{
    let mut r: Vec<u64> = Vec::new();
    let mut k: usize = 0;
    while k < v.len()
        invariant
            k <= v@.len(),
            rosnace(r@),
            forall|x: u64| #![trigger r@.contains(x)] #![trigger v@.take(k as int).contains(x)] r@.contains(x) <==> (v@.take(k as int).contains(x) && poziom_sensowny(x)),
        decreases v@.len() - k,
    {
        let x = v[k];
        let ghost vk = v@.take(k as int);
        let ghost rp = r@;
        proof {
            assert forall|y: u64| #![trigger rp.contains(y)] #![trigger vk.contains(y)] rp.contains(y) <==> (vk.contains(y) && poziom_sensowny(y)) by {
                assert(r@.contains(y) <==> (v@.take(k as int).contains(y) && poziom_sensowny(y)));
            }
            assert(v@.take(k + 1) =~= vk.push(x));
            assert forall|y: u64| vk.push(x).contains(y) <==> (vk.contains(y) || y == x) by {
                if vk.push(x).contains(y) {
                    let i = choose|i: int| 0 <= i < vk.push(x).len() && vk.push(x)[i] == y;
                    if i < vk.len() {
                        assert(vk[i] == y);
                    }
                }
                if vk.contains(y) {
                    let i = choose|i: int| 0 <= i < vk.len() && vk[i] == y;
                    assert(vk.push(x)[i] == y);
                }
                if y == x {
                    assert(vk.push(x)[vk.len() as int] == y);
                }
            }
        }
        if 1_000_000 <= x && x < 10_000_000 {
            let mut j: usize = 0;
            while j < r.len() && r[j] < x
                invariant
                    j <= r@.len(),
                    forall|i: int| 0 <= i < j ==> r@[i] < x,
                    r@ == rp,
                    rosnace(rp),
                    forall|y: u64| #![trigger rp.contains(y)] #![trigger vk.contains(y)] rp.contains(y) <==> (vk.contains(y) && poziom_sensowny(y)),
                decreases r@.len() - j,
            {
                j = j + 1;
            }
            if j < r.len() && r[j] == x {
                proof {
                    assert(r@.contains(x)) by {
                        assert(r@[j as int] == x);
                    }
                    assert(r@ == rp);
                }
            } else {
                let ghost r0 = r@;
                proof {
                    assert(j < r0.len() ==> x < r0[j as int]);
                }
                r.insert(j, x);
                proof {
                    assert(r@ == r0.insert(j as int, x));
                    assert forall|a: int, b: int| 0 <= a < b < r@.len() implies r@[a] < r@[b] by {
                        if b < j {
                            assert(r@[a] == r0[a] && r@[b] == r0[b]);
                        } else if b == j {
                            assert(r@[a] == r0[a]);
                        } else if a < j {
                            assert(r@[a] == r0[a] && r@[b] == r0[b - 1]);
                            assert(r0[a] < x);
                            assert(x < r0[j as int] || b - 1 == j);
                        } else if a == j {
                            assert(r@[b] == r0[b - 1]);
                            assert(x < r0[j as int]);
                        } else {
                            assert(r@[a] == r0[a - 1] && r@[b] == r0[b - 1]);
                        }
                    }
                    assert forall|y: u64| r@.contains(y) <==> (r0.contains(y) || y == x) by {
                        if r@.contains(y) {
                            let i = choose|i: int| 0 <= i < r@.len() && r@[i] == y;
                            if i < j {
                                assert(r0[i] == y);
                            } else if i > j {
                                assert(r0[i - 1] == y);
                            }
                        }
                        if r0.contains(y) {
                            let i = choose|i: int| 0 <= i < r0.len() && r0[i] == y;
                            if i < j {
                                assert(r@[i] == y);
                            } else {
                                assert(r@[i + 1] == y);
                            }
                        }
                        if y == x {
                            assert(r@[j as int] == y);
                        }
                    }
                }
            }
        }
        proof {
            assert forall|y: u64| r@.contains(y) <==> (rp.contains(y) || (y == x && poziom_sensowny(x))) by {
                if y == x && poziom_sensowny(x) && rp.contains(y) {
                    assert(r@.contains(y));
                }
            }
            assert forall|y: u64| #![trigger r@.contains(y)] #![trigger v@.take(k + 1).contains(y)] r@.contains(y) <==> (v@.take(k + 1).contains(y) && poziom_sensowny(y)) by {
                assert(rp.contains(y) <==> (vk.contains(y) && poziom_sensowny(y)));
                assert(vk.push(x).contains(y) <==> (vk.contains(y) || y == x));
            }
        }
        k = k + 1;
    }
    proof {
        assert(v@.take(v@.len() as int) =~= v@);
    }
    r
}

/// The first line from position `k` on that names a side.
pub open spec fn linia_kierunku(ls: Seq<Seq<char>>, k: int) -> Option<Seq<char>>
    decreases ls.len() - k,
{
    if k >= ls.len() || k < 0 {
        None
    } else if trafia(re_geo_buy(), ls[k]) || trafia(re_geo_sell(), ls[k]) {
        Some(ls[k])
    } else {
        linia_kierunku(ls, k + 1)
    }
}

/// The readings a geometric entry is built from; prices in thousandths.
#[derive(Debug, Clone, PartialEq, Eq)]
pub struct GeoPola {
    pub side: Side,
    pub poziomy: Vec<u64>,
    pub w_linii: Vec<u64>,
    pub is_limit: bool,
    pub is_stop: bool,
    pub tp_open: bool,
    pub warstwy_pipsy: Option<String>,
    pub tag_high_risk: bool,
    pub tag_may_not_be_around: bool,
    pub tag_first_entry: bool,
}

/// Texts the geometric reading refuses: too long, a zone announcement, a
/// retrospective, a report, or no single side.
pub open spec fn geo_odrzuca(t: Seq<char>) -> bool {
    dlugosc_utf8(t) > 600 || zapowiedz_strefy_spec(t) || trafia(re_retrospekcja(), t)
        || trafia(re_geo_raport(), t) || trafia(re_geo_buy(), t) == trafia(re_geo_sell(), t)
}

/// Reads what a geometric entry is built from: the side, the sensible price
/// levels of the text and of the first line that names the side, and the
/// flags. What the levels make (which is the stop, which the entries and
/// targets, and the confidence) is the application's floating-point work.
pub fn odczyt_geometryczny_pola(text: &str) -> (r: Option<GeoPola>)
    ensures
        r is None <==> geo_odrzuca(text@),
        r matches Some(g) ==> {
            &&& g.side == (if trafia(re_geo_buy(), text@) { Side::Buy } else { Side::Sell })
            &&& poziomy_z(ceny_tekstu(text@), g.poziomy@)
            &&& match linia_kierunku(czesci(text@, '\n'), 0) {
                Some(l) => poziomy_z(ceny_tekstu(l), g.w_linii@),
                None => g.w_linii@.len() == 0,
            }
            &&& g.is_limit == trafia(re_geo_limit(), text@)
            &&& g.is_stop == trafia(re_geo_stop(), text@)
            &&& g.tp_open == (trafia(re_tp_open(), text@) || trafia(re_px_tp_open(), text@))
            &&& g.tag_high_risk == (trafia(re_hr(), text@) || trafia(re_hr_linia(), text@) || hr_linia_loty_spec(text@))
            &&& g.tag_may_not_be_around == trafia(re_mnba(), text@)
            &&& g.tag_first_entry == trafia(re_fe(), text@)
            &&& match g.warstwy_pipsy {
                Some(w) => grupa_z(przechwyty(re_warstwy(), text@), 1) == Some(w@),
                None => grupa_z(przechwyty(re_warstwy(), text@), 1) is None,
            }
        },
{
    if dluzszy_niz(text, 600) {
        return None;
    }
    if zapowiedz_strefy(text) || trafia_exec(r"(?i)\b(?:IF|FOR)\s+ANYONE\s+(?:THAT\s+|STILL\s+|WHO\s+)?(?:TOOK|HELD|HOLDS|HOLDING)\b", text) {
        return None;
    }
    if trafia_exec(r"(?i)\b(?:HIT|CLOSED|CLOSING|PROFITS?|PIPS?|SECURED|SECURING|RUNNING|RECAP|RESULTS?|CANCELL?ED|INVALID|ENTRIES)\b|\bBREAK\s*EVEN\b|\bRISK\s*FREE\b|\bIN\s+(?:GREEN|RED)\b", text) {
        return None;
    }
    let buy = trafia_exec(r"(?i)\bBUY\b", text);
    let sell = trafia_exec(r"(?i)\bSELL\b", text);
    if buy == sell {
        return None;
    }
    let side = if buy { Side::Buy } else { Side::Sell };
    let wszystkie = ceny_tekstu_exec(text);
    let poziomy = poziomy_rosnace(&wszystkie);
    let linie = podziel(text, '\n');
    let ghost ls = czesci(text@, '\n');
    let mut w_linii: Vec<u64> = Vec::new();
    let mut k: usize = 0;
    while k < linie.len()
        invariant_except_break
            linia_kierunku(ls, k as int) == linia_kierunku(ls, 0),
            w_linii@.len() == 0,
        invariant
            k <= linie@.len(),
            linie@.len() == ls.len(),
            forall|i: int| 0 <= i < linie@.len() ==> (#[trigger] linie@[i])@ == ls[i],
        ensures
            match linia_kierunku(ls, 0) {
                Some(l) => poziomy_z(ceny_tekstu(l), w_linii@),
                None => w_linii@.len() == 0,
            },
        decreases linie@.len() - k,
    {
        let l = linie[k];
        assert(l@ == ls[k as int]);
        if trafia_exec(r"(?i)\bBUY\b", l) || trafia_exec(r"(?i)\bSELL\b", l) {
            let c = ceny_tekstu_exec(l);
            w_linii = poziomy_rosnace(&c);
            break;
        }
        k = k + 1;
    }
    Some(GeoPola {
        side,
        poziomy,
        w_linii,
        is_limit: trafia_exec(r"(?i)\b(?:BUY|SELL)\s+(?:GOLD\s+|XAUUSD\s+|XAU\s+)?LIMITS?\b", text),
        is_stop: trafia_exec(r"(?i)\b(?:BUY|SELL)\s+(?:GOLD\s+|XAUUSD\s+|XAU\s+)?STOPS?\b", text),
        tp_open: trafia_exec(r"(?i)\bTP\s*\d?\s*(?:OPEN|[:@=]\s*HOLD)\b", text) || trafia_exec(r"(?i)\bTP\b[^\n]*?\bOPEN\b", text),
        warstwy_pipsy: grupa(r"(?i)(?:ADDING|SUBTRACTING)\s+(\d+(?:[.,]\d+)?)\s*PIPS?\s+(?:TO|FROM)\s+EACH\s+LIMIT\s+ORDER", text, 1),
        tag_high_risk: trafia_exec(r"(?i)HIGH\s+RISK\s+TRADE", text) || trafia_exec(r"(?im)^[\W_]*HIGH\s*RISK[\W_]*$", text) || hr_linia_loty(text),
        tag_may_not_be_around: trafia_exec(r"(?i)MAY\s+NOT\s+BE\s+AROUND", text),
        tag_first_entry: trafia_exec(r"(?i)FIRST\s+ENTRY\s+CAN\s+BE", text),
    })
}


/// A price in thousandths as decimal text: the whole part, then the
/// fraction without trailing zeros (none when it is zero).
pub open spec fn cena_tekstem(v: u64) -> Seq<char> {
    let f = v % 1000;
    decimal_text((v / 1000) as int) + if f == 0 {
        Seq::<char>::empty()
    } else if f % 100 == 0 {
        "."@ + cyfra_tekstem((f / 100) as int)
    } else if f % 10 == 0 {
        "."@ + cyfra_tekstem((f / 100) as int) + cyfra_tekstem(((f / 10) % 10) as int)
    } else {
        "."@ + cyfra_tekstem((f / 100) as int) + cyfra_tekstem(((f / 10) % 10) as int) + cyfra_tekstem((f % 10) as int)
    }
}

fn cena_tekstem_exec(v: u64) -> (r: String)
    ensures
        r@ == cena_tekstem(v),
{
    let f = v % 1000;
    let mut s = liczba_tekstem(v / 1000);
    if f != 0 {
        s.append(".");
        s.append(cyfra_exec(f / 100));
        if f % 100 != 0 {
            s.append(cyfra_exec((f / 10) % 10));
            if f % 10 != 0 {
                s.append(cyfra_exec(f % 10));
            }
        }
    }
    s
}

pub open spec fn cena_lub_kreska(v: Option<u64>) -> Seq<char> {
    match v {
        Some(x) => cena_tekstem(x),
        None => "-"@,
    }
}

fn cena_lub_kreska_exec(v: Option<u64>) -> (r: String)
    ensures
        r@ == cena_lub_kreska(v),
{
    match v {
        Some(x) => cena_tekstem_exec(x),
        None => String::from_str("-"),
    }
}

/// Prices joined by "/".
pub open spec fn polacz_ceny(v: Seq<u64>) -> Seq<char>
    decreases v.len(),
{
    if v.len() == 0 {
        Seq::empty()
    } else if v.len() == 1 {
        cena_tekstem(v[0])
    } else {
        polacz_ceny(v.drop_last()) + "/"@ + cena_tekstem(v.last())
    }
}

fn polacz_ceny_exec(v: &Vec<u64>) -> (r: String)
    ensures
        r@ == polacz_ceny(v@),
{
    let mut s = String::new();
    let mut k: usize = 0;
    while k < v.len()
        invariant
            k <= v@.len(),
            s@ == polacz_ceny(v@.take(k as int)),
        decreases v@.len() - k,
    {
        proof {
            assert(v@.take(k + 1).drop_last() =~= v@.take(k as int));
        }
        if k > 0 {
            s.append("/");
        }
        let c = cena_tekstem_exec(v[k]);
        s.append(c.as_str());
        proof {
            if k == 0 {
                assert(s@ =~= cena_tekstem(v@[0]));
            } else {
                assert(s@ =~= polacz_ceny(v@.take(k as int)) + "/"@ + cena_tekstem(v@[k as int]));
            }
        }
        k = k + 1;
    }
    proof {
        assert(v@.take(v@.len() as int) =~= v@);
    }
    s
}

/// The key of a signal's action.
pub open spec fn klucz(s: SygnalW) -> Seq<char> {
    match s {
        SygnalW::Entry => "entry"@,
        SygnalW::TpHit { index } => match index {
            Some(i) => "tp"@ + decimal_text(i as int),
            None => "tp"@,
        },
        SygnalW::SlHit => "sl"@,
        SygnalW::RiskFree { .. } => "rf"@,
        SygnalW::SecuringPartial { .. } => "spp"@,
        SygnalW::OutAtEntry => "oae"@,
        SygnalW::CloseAll => "closeall"@,
        SygnalW::TakePartials => "partials"@,
        SygnalW::Cancel => "cancel"@,
        SygnalW::TpCorrection { index, .. } => "corr"@ + decimal_text(index as int),
        SygnalW::SetSl { .. } => "setsl"@,
        SygnalW::BreakEven => "be"@,
        SygnalW::MarketOpen { side } => "mkt"@ + match side {
            Side::Buy => "Buy"@,
            Side::Sell => "Sell"@,
        },
        SygnalW::Info => "info"@,
    }
}

/// The key of a signal's action together with the prices it carries.
pub open spec fn klucz_v2(s: SygnalW) -> Seq<char> {
    match s {
        SygnalW::SetSl { value } => "setsl@"@ + cena_tekstem(value),
        SygnalW::TpCorrection { index, value } => "corr"@ + decimal_text(index as int) + "@"@ + cena_tekstem(value),
        SygnalW::RiskFree { level } => match level {
            Some(v) => "rf@"@ + cena_tekstem(v),
            None => "rf@-"@,
        },
        SygnalW::SecuringPartial { targets, sl, spp_be_level } => "spp@"@ + polacz_ceny(targets) + "|sl:"@
            + cena_lub_kreska(sl) + "|be:"@ + cena_lub_kreska(spp_be_level),
        _ => klucz(s),
    }
}

impl Sygnal {
    pub fn action_key(&self) -> (r: String)
        ensures
            r@ == klucz(self@),
    {
        match self {
            Sygnal::Entry => String::from_str("entry"),
            Sygnal::TpHit { index } => match index {
                Some(i) => {
                    let mut s = String::from_str("tp");
                    let n = liczba_tekstem(*i as u64);
                    s.append(n.as_str());
                    s
                },
                None => String::from_str("tp"),
            },
            Sygnal::SlHit => String::from_str("sl"),
            Sygnal::RiskFree { .. } => String::from_str("rf"),
            Sygnal::SecuringPartial { .. } => String::from_str("spp"),
            Sygnal::OutAtEntry => String::from_str("oae"),
            Sygnal::CloseAll => String::from_str("closeall"),
            Sygnal::TakePartials => String::from_str("partials"),
            Sygnal::Cancel => String::from_str("cancel"),
            Sygnal::TpCorrection { index, .. } => {
                let mut s = String::from_str("corr");
                let n = liczba_tekstem(*index as u64);
                s.append(n.as_str());
                s
            },
            Sygnal::SetSl { .. } => String::from_str("setsl"),
            Sygnal::BreakEven => String::from_str("be"),
            Sygnal::MarketOpen { side } => {
                let mut s = String::from_str("mkt");
                match side {
                    Side::Buy => s.append("Buy"),
                    Side::Sell => s.append("Sell"),
                }
                s
            },
            Sygnal::Info => String::from_str("info"),
        }
    }

    pub fn action_key_v2(&self) -> (r: String)
        ensures
            r@ == klucz_v2(self@),
    {
        match self {
            Sygnal::SetSl { value } => {
                let mut s = String::from_str("setsl@");
                let c = cena_tekstem_exec(*value);
                s.append(c.as_str());
                s
            },
            Sygnal::TpCorrection { index, value } => {
                let mut s = String::from_str("corr");
                let n = liczba_tekstem(*index as u64);
                s.append(n.as_str());
                s.append("@");
                let c = cena_tekstem_exec(*value);
                s.append(c.as_str());
                s
            },
            Sygnal::RiskFree { level } => match level {
                Some(v) => {
                    let mut s = String::from_str("rf@");
                    let c = cena_tekstem_exec(*v);
                    s.append(c.as_str());
                    s
                },
                None => String::from_str("rf@-"),
            },
            Sygnal::SecuringPartial { targets, sl, spp_be_level } => {
                let mut s = String::from_str("spp@");
                let t = polacz_ceny_exec(targets);
                s.append(t.as_str());
                s.append("|sl:");
                let a = cena_lub_kreska_exec(*sl);
                s.append(a.as_str());
                s.append("|be:");
                let b = cena_lub_kreska_exec(*spp_be_level);
                s.append(b.as_str());
                s
            },
            _ => self.action_key(),
        }
    }
}


/// No entry and no market-open call among the signals.
pub open spec fn bez_wejsc(w: Seq<SygnalW>) -> bool {
    forall|i: int| 0 <= i < w.len() ==> !(#[trigger] w[i] is Entry) && !(w[i] is MarketOpen)
}

pub open spec fn ma_rynek(w: Seq<SygnalW>) -> bool {
    exists|i: int| 0 <= i < w.len() && #[trigger] w[i] is MarketOpen
}

proof fn lemma_bez_wejsc_suma(a: Seq<SygnalW>, b: Seq<SygnalW>)
    requires
        bez_wejsc(a),
        bez_wejsc(b),
    ensures
        bez_wejsc(a + b),
{
    assert forall|i: int| 0 <= i < (a + b).len() implies !(#[trigger] (a + b)[i] is Entry) && !((a + b)[i] is MarketOpen) by {
        if i < a.len() {
            assert((a + b)[i] == a[i]);
        } else {
            assert((a + b)[i] == b[i - a.len()]);
        }
    }
}

proof fn lemma_pierwsze_bez_wejsc(t: Seq<char>, o: OpcjeParsera)
    ensures
        bez_wejsc(pierwsze(t, o)),
        bez_wejsc(pierwsze(t, o) + numerowane(t, pierwsze(t, o))),
{
    let w = pierwsze(t, o);
    let s = jesli(trafia(re_sl_hit(), t) || trafia(re_nova_sl_strata(), t) || trafia(re_px_cut_loss(), t), SygnalW::SlHit);
    let p = polecenia(t, o);
    assert(bez_wejsc(s));
    assert(bez_wejsc(trafienia_tp(t, o)));
    assert(bez_wejsc(ryzyko(t, o)));
    assert(bez_wejsc(zabezpieczenie(t, o)));
    assert(bez_wejsc(korekty(t, o)));
    assert(bez_wejsc(ustaw_sl(t)));
    let p1 = jesli(trafia(re_oae(), t) || (o.luz_interpunkcyjny && trafia(re_oae_luz(), t)), SygnalW::OutAtEntry);
    let p2 = jesli(trafia(re_close(), t) && !trafia(re_close_layers(), t), SygnalW::CloseAll);
    let p3 = jesli(o.partials_jako_komenda && partials_obowiazkowe(t), SygnalW::TakePartials);
    let p4 = jesli(trafia(re_cancel(), t) || uniewazniony(t) || (o.luz_interpunkcyjny && trafia(re_nlv_podmiot(), t)), SygnalW::Cancel);
    assert(bez_wejsc(p1) && bez_wejsc(p2) && bez_wejsc(p3) && bez_wejsc(p4));
    lemma_bez_wejsc_suma(p1, p2);
    lemma_bez_wejsc_suma(p1 + p2, p3);
    lemma_bez_wejsc_suma(p1 + p2 + p3, p4);
    assert(bez_wejsc(p));
    lemma_bez_wejsc_suma(s, trafienia_tp(t, o));
    lemma_bez_wejsc_suma(s + trafienia_tp(t, o), ryzyko(t, o));
    lemma_bez_wejsc_suma(s + trafienia_tp(t, o) + ryzyko(t, o), zabezpieczenie(t, o));
    lemma_bez_wejsc_suma(s + trafienia_tp(t, o) + ryzyko(t, o) + zabezpieczenie(t, o), korekty(t, o));
    lemma_bez_wejsc_suma(s + trafienia_tp(t, o) + ryzyko(t, o) + zabezpieczenie(t, o) + korekty(t, o), ustaw_sl(t));
    lemma_bez_wejsc_suma(s + trafienia_tp(t, o) + ryzyko(t, o) + zabezpieczenie(t, o) + korekty(t, o) + ustaw_sl(t), p);
    assert(bez_wejsc(w));
    let n = numerowane(t, w);
    assert forall|i: int| 0 <= i < n.len() implies !(#[trigger] n[i] is Entry) && !(n[i] is MarketOpen) by {
        match wszystkie_przechwyty(re_px_tp_numer(), t) {
            Some(ms) => {
                if w.len() == 0 && !trafia(re_sl(), t) && !trafia(re_px_tp_rewizja(), t) && kotwica_bez_ceny(t) {
                    assert(n[i] == SygnalW::TpHit { index: Some(numery_tp(ms)[i]) });
                }
            },
            None => {},
        }
    }
    lemma_bez_wejsc_suma(w, n);
}

proof fn lemma_be_kroki(t: Seq<char>, o: OpcjeParsera, w: Seq<SygnalW>)
    requires
        bez_wejsc(w),
    ensures
        bez_wejsc(be_kroki(t, o, w)),
        ma_trafienie(be_kroki(t, o, w)) == ma_trafienie(w),
        be_kroki(t, o, w).len() >= w.len(),
{
    let w1 = if trafia(re_px_be(), t) && !trafia(re_px_be_odmowa(), t) && !ma_be_lub_sl(w) {
        w.push(SygnalW::BreakEven)
    } else {
        w
    };
    let w2 = if trafia(re_storm_be(), t) && !ma_be_lub_sl(w1) { w1.push(SygnalW::BreakEven) } else { w1 };
    lemma_dopisanie_be(w);
    lemma_dopisanie_be(w1);
    lemma_dopisanie_be(w2);
}

proof fn lemma_dopisanie_be(w: Seq<SygnalW>)
    ensures
        bez_wejsc(w) ==> bez_wejsc(w.push(SygnalW::BreakEven)),
        ma_trafienie(w.push(SygnalW::BreakEven)) == ma_trafienie(w),
{
    let v = w.push(SygnalW::BreakEven);
    if ma_trafienie(v) {
        let i = choose|i: int| 0 <= i < v.len() && (#[trigger] v[i] is TpHit || v[i] is SlHit);
        assert(i < w.len());
        assert(w[i] == v[i]);
    }
    if ma_trafienie(w) {
        let i = choose|i: int| 0 <= i < w.len() && (#[trigger] w[i] is TpHit || w[i] is SlHit);
        assert(v[i] == w[i]);
    }
    if bez_wejsc(w) {
        assert forall|i: int| 0 <= i < v.len() implies !(#[trigger] v[i] is Entry) && !(v[i] is MarketOpen) by {
            if i < w.len() {
                assert(v[i] == w[i]);
            }
        }
    }
}

/// Every message gives at least one signal; an entry never comes together
/// with a take-profit or stop-loss hit (an edited hit summary does not open
/// its old entry again), nor with a market-open call (a priced entry is not
/// also a "buy now").
pub proof fn prawa_sygnalow(t: Seq<char>, o: OpcjeParsera, g: Geometria)
    ensures
        sygnaly(t, o, g).len() > 0,
        ma_wejscie(sygnaly(t, o, g)) ==> !ma_trafienie(sygnaly(t, o, g)),
        ma_wejscie(sygnaly(t, o, g)) ==> !ma_rynek(sygnaly(t, o, g)),
{
    let r = sygnaly(t, o, g);
    if trafia(re_retrospekcja(), t) && !g.wejscie {
        assert(r =~= seq![SygnalW::Info]);
        assert(!ma_wejscie(r)) by {
            if ma_wejscie(r) {
                let i = choose|i: int| 0 <= i < r.len() && #[trigger] r[i] is Entry;
                assert(r[i] == SygnalW::Info);
            }
        }
    } else if o.recap_guard && podsumowanie_z(trafia(re_recap_title(), t), trafia(re_recap_total(), t), trafia(re_recap_results(), t)) {
        let x = if g.wejscie { SygnalW::Entry } else { SygnalW::Info };
        assert(r =~= seq![x]);
        if ma_trafienie(r) {
            let i = choose|i: int| 0 <= i < r.len() && (#[trigger] r[i] is TpHit || r[i] is SlHit);
            assert(r[i] == x);
        }
        if ma_rynek(r) {
            let i = choose|i: int| 0 <= i < r.len() && #[trigger] r[i] is MarketOpen;
            assert(r[i] == x);
        }
    } else {
        let w0 = pierwsze(t, o);
        lemma_pierwsze_bez_wejsc(t, o);
        let w = be_kroki(t, o, w0 + numerowane(t, w0));
        lemma_be_kroki(t, o, w0 + numerowane(t, w0));
        assert(r == koncowka(t, o, g, w));
        assert(bez_wejsc(w));
        let w1 = if !ma_trafienie(w) && (g.wejscie || (o.luz_interpunkcyjny && g.wejscie_obszar)) {
            w.push(SygnalW::Entry)
        } else {
            w
        };
        let w2 = if !ma_wejscie(w1) && !trafia(re_tp(), t) && !trafia(re_sl(), t) {
            match przechwyty(re_market_open(), t) {
                Some(Some(c)) => match g_z(c, 1) {
                    Some(x) => w1.push(SygnalW::MarketOpen { side: strona_z(x) }),
                    None => w1,
                },
                _ => w1,
            }
        } else {
            w1
        };
        if !ma_trafienie(w) && (g.wejscie || (o.luz_interpunkcyjny && g.wejscie_obszar)) {
            assert(w1[w.len() as int] is Entry);
            assert(ma_wejscie(w1));
            assert(w2 == w1);
            assert(r == w1);
            if ma_trafienie(r) {
                let i = choose|i: int| 0 <= i < r.len() && (#[trigger] r[i] is TpHit || r[i] is SlHit);
                if i < w.len() {
                    assert(r[i] == w[i]);
                    assert(ma_trafienie(w));
                }
            }
            if ma_rynek(r) {
                let i = choose|i: int| 0 <= i < r.len() && #[trigger] r[i] is MarketOpen;
                if i < w.len() {
                    assert(r[i] == w[i]);
                }
            }
        } else {
            assert(w1 == w);
            if w2.len() == 0 {
                let x = if trafia(re_be(), t) {
                    SygnalW::BreakEven
                } else if o.geometryczny && g.odczyt_pewny {
                    SygnalW::Entry
                } else {
                    SygnalW::Info
                };
                assert(r =~= seq![x]);
                if ma_trafienie(r) {
                    let i = choose|i: int| 0 <= i < r.len() && (#[trigger] r[i] is TpHit || r[i] is SlHit);
                    assert(r[i] == x);
                }
                if ma_rynek(r) {
                    let i = choose|i: int| 0 <= i < r.len() && #[trigger] r[i] is MarketOpen;
                    assert(r[i] == x);
                }
            } else {
                assert(r == w2);
                if ma_wejscie(r) {
                    let i = choose|i: int| 0 <= i < r.len() && #[trigger] r[i] is Entry;
                    if i < w.len() {
                        assert(r[i] == w[i]);
                    } else {
                        assert(r[i] is MarketOpen);
                    }
                }
            }
        }
    }
}

} // verus!
