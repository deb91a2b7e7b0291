//! Routing of signals and baskets between the engines sharing one account.
//!
//! One ownership rule serves both the broker view (what an engine sees) and
//! the distribution of restored baskets (what an engine manages), so the two
//! can never disagree. Baskets are identified here by the slot that their
//! number carries; the numbering itself belongs to the multi-engine setup.
use vstd::prelude::*;
use crate::tekst::{rowne_teksty, przytnij, trimmed_text, przyciecie_idempotentne, liczba_tekstem, liczba_ze_znakiem_tekstem, decimal_text};
use crate::broker::{SourceKey, Side};

verus! {

/// WHO OWNS A BASKET, one rule for the whole program:
///
/// * a basket with **this engine's slot** is its own,
/// * a basket with **a slot that no engine serves** belongs to the
///   **fallback** engine,
/// * **no basket** (a manual ticket) belongs to the fallback engine.
#[derive(Debug, Clone)]
pub struct Wlasnosc {
    pub slot: u32,
    pub zapasowy: bool,
    /// slots of ALL engines, so that the fallback knows what is nobody's
    pub znane_sloty: Vec<u32>,
}

/// The ownership rule over plain values.
pub open spec fn nalezy(slot: u32, zapasowy: bool, znane: Seq<u32>, koszyk: Option<u32>) -> bool {
    match koszyk {
        Some(s) => s == slot || (zapasowy && !znane.contains(s)),
        None => zapasowy,
    }
}

impl Wlasnosc {
    /// Whether a basket with this slot (None: no basket) belongs to the engine.
    pub fn moj(&self, koszyk: Option<u32>) -> (r: bool)
        ensures
            r == nalezy(self.slot, self.zapasowy, self.znane_sloty@, koszyk),
    {
        match koszyk {
            Some(s) => s == self.slot || (self.zapasowy && !zawiera(&self.znane_sloty, s)),
            None => self.zapasowy,
        }
    }
}

fn zawiera(v: &Vec<u32>, x: u32) -> (r: bool)
    ensures
        r == v@.contains(x),
{
    let mut i: usize = 0;
    while i < v.len()
        invariant
            i <= v@.len(),
            forall|j: int| 0 <= j < i ==> v@[j] != x,
        decreases v@.len() - i,
    {
        if v[i] == x {
            return true;
        }
        i = i + 1;
    }
    false
}

/// A basket as routing sees it: its number, the slot that number carries,
/// and whether it is still alive.
#[derive(Debug, Clone, Copy, PartialEq, Eq, Structural)]
pub struct KoszykTrasy {
    pub id: u32,
    pub slot: u32,
    pub alive: bool,
}

/// The part of an engine's state that routing reads and aggregates.
#[derive(Debug, Clone)]
pub struct StanSilnika {
    pub baskets: Vec<KoszykTrasy>,
    pub halted: Option<String>,
    pub closed_today: usize,
    pub messages: u64,
    pub signals: u64,
    pub next_basket_id: u32,
    /// realized result of the engine's own trades today, in cents
    pub realized_today: i64,
    /// what the other engines of the chain hold
    pub obce: ObceObciazenie,
}

/// What the other engines of the chain hold: the load an engine counts
/// against its limits without counting itself. Lots are in units of the
/// broker's volume step, results in cents.
#[derive(Debug, Clone, Copy, PartialEq, Eq, Structural)]
pub struct ObceObciazenie {
    pub pozycje: u32,
    pub koszyki: u32,
    pub zrealizowane_dzis: i64,
    pub loty_buy: u64,
    pub loty_sell: u64,
    /// other engines hold positions against the side of the incoming signal
    pub przeciwny_kierunek: bool,
}

/// A position on the account, attributed to the slot of its basket (the
/// slot of old numbering when it has no basket).
#[derive(Debug, Clone, Copy, PartialEq, Eq, Structural)]
pub struct PozycjaKonta {
    pub slot: u32,
    pub side: Side,
    /// volume in units of the broker's volume step
    pub volume_units: u64,
}

/// An engine bound to a format, with its identity.
#[derive(Debug)]
pub struct Silnik {
    /// format name: the key that joins channel, preset and engine
    pub format: String,
    /// preset name from the active chain
    pub preset: String,
    /// basket numbering slot
    pub slot: u32,
    /// whether this engine takes in what has no basket (manual tickets)
    pub zapasowy: bool,
    /// A MANAGEMENT-ONLY engine, frozen after a chain change: it keeps
    /// managing its baskets but receives no NEW signals.
    pub tylko_zarzadzanie: bool,
    pub z_pliku: bool,
    pub powod: String,
    pub engine: StanSilnika,
}

/// A closed trade as the waiting room sees it: its ticket and its basket's slot.
#[derive(Debug, Clone, Copy, PartialEq, Eq, Structural)]
pub struct Zamkniecie {
    pub ticket: u64,
    pub slot: Option<u32>,
}

/// All engines working on one account.
pub struct Silniki {
    pub lista: Vec<Silnik>,
    /// name of the active chain, for messages
    pub lancuch: String,
    /// formats whose slot had to be shifted because of a collision
    pub sloty_przesuniete: Vec<String>,
    /// Closed trades waiting for their owner.
    pub poczekalnia: Vec<Zamkniecie>,
}

/// Slots of the engines, in list order.
pub open spec fn sloty(lista: Seq<Silnik>) -> Seq<u32> {
    lista.map_values(|s: Silnik| s.slot)
}

/// Whether engine `i` of the list owns a basket with this slot.
pub open spec fn moj_w(lista: Seq<Silnik>, i: int, koszyk: Option<u32>) -> bool {
    nalezy(lista[i].slot, lista[i].zapasowy, sloty(lista), koszyk)
}

/// A well-formed engine set: distinct slots and exactly one fallback engine.
pub open spec fn uklad_poprawny(lista: Seq<Silnik>) -> bool {
    &&& forall|i: int, j: int| 0 <= i < lista.len() && 0 <= j < lista.len() && i != j
        ==> (#[trigger] lista[i]).slot != (#[trigger] lista[j]).slot
    &&& exists|z: int| 0 <= z < lista.len() && (#[trigger] lista[z]).zapasowy
        && forall|k: int| 0 <= k < lista.len() && (#[trigger] lista[k]).zapasowy ==> k == z
}

/// In a well-formed engine set every basket, and every ticket without a
/// basket, has exactly one owner: the ownership rule partitions the account.
pub proof fn wlasnosc_jest_podzialem(lista: Seq<Silnik>, koszyk: Option<u32>)
    requires
        uklad_poprawny(lista),
    ensures
        exists|i: int| 0 <= i < lista.len() && #[trigger] moj_w(lista, i, koszyk),
        forall|i: int, j: int| 0 <= i < lista.len() && 0 <= j < lista.len()
            && #[trigger] moj_w(lista, i, koszyk) && #[trigger] moj_w(lista, j, koszyk) ==> i == j,
{
    let z = choose|z: int| 0 <= z < lista.len() && (#[trigger] lista[z]).zapasowy
        && forall|k: int| 0 <= k < lista.len() && (#[trigger] lista[k]).zapasowy ==> k == z;
    match koszyk {
        Some(s) => {
            if sloty(lista).contains(s) {
                let i = choose|i: int| 0 <= i < sloty(lista).len() && sloty(lista)[i] == s;
                assert(moj_w(lista, i, koszyk));
            } else {
                assert(moj_w(lista, z, koszyk));
                assert forall|i: int| 0 <= i < lista.len() implies lista[i].slot != s by {
                    assert(sloty(lista)[i] == lista[i].slot);
                }
            }
            assert forall|i: int, j: int| 0 <= i < lista.len() && 0 <= j < lista.len()
                && #[trigger] moj_w(lista, i, koszyk) && #[trigger] moj_w(lista, j, koszyk) implies i == j by {
                assert(sloty(lista)[i] == lista[i].slot);
                assert(sloty(lista)[j] == lista[j].slot);
            }
        },
        None => {
            assert(moj_w(lista, z, koszyk));
        },
    }
}

impl Silniki {
    /// A set with one engine that takes in everything.
    pub fn pojedynczy(engine: StanSilnika, slot: u32, format: String, preset: String, lancuch: String, z_pliku: bool)
        -> (r: Silniki)
        ensures
            r.lista@.len() == 1,
            r.lista@[0].zapasowy,
            !r.lista@[0].tylko_zarzadzanie,
            r.lista@[0].slot == slot,
            r.lista@[0].format == format,
            r.lista@[0].preset == preset,
            r.lista@[0].z_pliku == z_pliku,
            r.lista@[0].powod@.len() == 0,
            r.lancuch == lancuch,
            r.sloty_przesuniete@.len() == 0,
            r.poczekalnia@.len() == 0,
            uklad_poprawny(r.lista@),
    {
        let mut lista: Vec<Silnik> = Vec::new();
        lista.push(Silnik {
            powod: String::new(),
            format,
            preset,
            slot,
            zapasowy: true,
            tylko_zarzadzanie: false,
            z_pliku,
            engine,
        });
        let r = Silniki { lista, lancuch, sloty_przesuniete: Vec::new(), poczekalnia: Vec::new() };
        assert(r.lista@[0].zapasowy);
        r
    }

    /// The ownership rule for the engine at this index.
    pub fn wlasnosc(&self, i: usize) -> (r: Wlasnosc)
        requires
            i < self.lista@.len(),
        ensures
            r.slot == self.lista@[i as int].slot,
            r.zapasowy == self.lista@[i as int].zapasowy,
            r.znane_sloty@ == sloty(self.lista@),
    {
        let mut znane: Vec<u32> = Vec::new();
        let mut k: usize = 0;
        while k < self.lista.len()
            invariant
                k <= self.lista@.len(),
                znane@ == sloty(self.lista@).take(k as int),
            decreases self.lista@.len() - k,
        {
            znane.push(self.lista[k].slot);
            k = k + 1;
            assert(znane@ =~= sloty(self.lista@).take(k as int));
        }
        assert(znane@ =~= sloty(self.lista@));
        Wlasnosc { slot: self.lista[i].slot, zapasowy: self.lista[i].zapasowy, znane_sloty: znane }
    }

    pub fn is_empty(&self) -> (r: bool)
        ensures
            r == (self.lista@.len() == 0),
    {
        self.lista.len() == 0
    }

    /// Index of the engine serving the format (LITERAL match), the first one.
    pub fn indeks_formatu(&self, format: &str) -> (r: Option<usize>)
        ensures
            match r {
                Some(i) => i < self.lista@.len() && self.lista@[i as int].format@ == format@
                    && forall|k: int| 0 <= k < i ==> (#[trigger] self.lista@[k]).format@ != format@,
                None => forall|k: int| 0 <= k < self.lista@.len() ==> (#[trigger] self.lista@[k]).format@ != format@,
            },
    {
        let mut k: usize = 0;
        while k < self.lista.len()
            invariant
                k <= self.lista@.len(),
                forall|j: int| 0 <= j < k ==> (#[trigger] self.lista@[j]).format@ != format@,
            decreases self.lista@.len() - k,
        {
            if rowne_teksty(self.lista[k].format.as_str(), format) {
                return Some(k);
            }
            k = k + 1;
        }
        None
    }

    /// Index of the engine that owns a basket with this slot: the same rule as
    /// the broker view, literally the same function.
    pub fn indeks_koszyka(&self, slot: u32) -> (r: Option<usize>)
        ensures
            match r {
                Some(i) => i < self.lista@.len() && moj_w(self.lista@, i as int, Some(slot))
                    && forall|k: int| 0 <= k < i ==> !#[trigger] moj_w(self.lista@, k, Some(slot)),
                None => forall|k: int| 0 <= k < self.lista@.len() ==> !#[trigger] moj_w(self.lista@, k, Some(slot)),
            },
    {
        let mut k: usize = 0;
        while k < self.lista.len()
            invariant
                k <= self.lista@.len(),
                forall|j: int| 0 <= j < k ==> !#[trigger] moj_w(self.lista@, j, Some(slot)),
            decreases self.lista@.len() - k,
        {
            if self.wlasnosc(k).moj(Some(slot)) {
                return Some(k);
            }
            k = k + 1;
        }
        None
    }

    /// How many closed trades still wait for their owner.
    pub fn poczekalnia_len(&self) -> (r: usize)
        ensures
            r == self.poczekalnia@.len(),
    {
        self.poczekalnia.len()
    }

    /// Hands the closed trades of engine `i` over from the shared waiting
    /// room. Fresh trades from the broker join the room first; the engine
    /// takes exactly its own, in arrival order, and the rest keep waiting.
    pub fn odbierz_zamkniete(&mut self, i: usize, swieze: Vec<Zamkniecie>) -> (r: Vec<Zamkniecie>)
        requires
            i < old(self).lista@.len(),
        ensures
            final(self).lista@ == old(self).lista@,
            r@ == (old(self).poczekalnia@ + swieze@).filter(|z: Zamkniecie| moj_w(old(self).lista@, i as int, z.slot)),
            final(self).poczekalnia@ == (old(self).poczekalnia@ + swieze@).filter(
                |z: Zamkniecie| !moj_w(old(self).lista@, i as int, z.slot),
            ),
    {
        let kto = self.wlasnosc(i);
        let ghost all = self.poczekalnia@ + swieze@;
        let ghost lista = self.lista@;
        let mut wszystkie: Vec<Zamkniecie> = Vec::new();
        let mut k: usize = 0;
        while k < self.poczekalnia.len()
            invariant
                k <= self.poczekalnia@.len(),
                wszystkie@ == self.poczekalnia@.take(k as int),
            decreases self.poczekalnia@.len() - k,
        {
            wszystkie.push(self.poczekalnia[k]);
            k = k + 1;
            assert(wszystkie@ =~= self.poczekalnia@.take(k as int));
        }
        let mut k: usize = 0;
        while k < swieze.len()
            invariant
                k <= swieze@.len(),
                wszystkie@ == all.take(self.poczekalnia@.len() + k),
                all == self.poczekalnia@ + swieze@,
            decreases swieze@.len() - k,
        {
            wszystkie.push(swieze[k]);
            k = k + 1;
            assert(wszystkie@ =~= all.take(self.poczekalnia@.len() + k));
        }
        assert(wszystkie@ =~= all);
        let mut moje: Vec<Zamkniecie> = Vec::new();
        let mut reszta: Vec<Zamkniecie> = Vec::new();
        let mut k: usize = 0;
        while k < wszystkie.len()
            invariant
                k <= wszystkie@.len(),
                wszystkie@ == all,
                i < lista.len(),
                lista == self.lista@,
                kto.slot == lista[i as int].slot,
                kto.zapasowy == lista[i as int].zapasowy,
                kto.znane_sloty@ == sloty(lista),
                moje@ == all.take(k as int).filter(|z: Zamkniecie| moj_w(lista, i as int, z.slot)),
                reszta@ == all.take(k as int).filter(|z: Zamkniecie| !moj_w(lista, i as int, z.slot)),
            decreases wszystkie@.len() - k,
        {
            let z = wszystkie[k];
            proof {
                assert(all.take(k + 1).drop_last() =~= all.take(k as int));
                assert(all.take(k + 1).last() == z);
                reveal(Seq::filter);
            }
            if kto.moj(z.slot) {
                moje.push(z);
            } else {
                reszta.push(z);
            }
            k = k + 1;
        }
        assert(all.take(all.len() as int) =~= all);
        self.poczekalnia = reszta;
        moje
    }
}

/// Why a message did NOT reach any engine. Silence is not acceptable: the
/// user must see why a signal was not taken.
#[derive(Debug, Clone, PartialEq)]
pub enum BrakTrasy {
    /// the channel (or forum topic) has no format assigned
    KanalBezFormatu { kanal: i64, temat: Option<i64> },
    /// there is a format, but the active chain assigns it no preset
    FormatNieHandluje { format: String, lancuch: String },
    /// the format is in the chain, but no preset of that name is on disk
    PresetNieIstnieje { format: String, preset: String },
}

/// The sentence shown to the user for a routing refusal.
pub open spec fn opis_braku(b: BrakTrasy) -> Seq<char> {
    match b {
        BrakTrasy::KanalBezFormatu { kanal, temat } => "Kanał "@ + decimal_text(kanal as int) + match temat {
            Some(t) => " (temat "@ + decimal_text(t as int) + ")"@,
            None => Seq::<char>::empty(),
        } + " nie ma przypisanego FORMATU, więc sygnał nie trafił do żadnego silnika. Wejdź w Kanały i wybierz format dla tego źródła; pusty wybór znaczy „nasłuchuj, ale nie handluj”."@,
        BrakTrasy::FormatNieHandluje { format, lancuch } => "Format „"@ + format@
            + "” nie ma przypisanego presetu w aktywnym łańcuchu „"@ + lancuch@
            + "”, więc ten kanał jest wyłącznie nasłuchiwany. To jest stan POPRAWNY, jeśli tak został ustawiony — wybierz preset dla tego formatu, żeby zacząć nim handlować."@,
        BrakTrasy::PresetNieIstnieje { format, preset } => "Aktywny łańcuch przypisuje formatowi „"@ + format@
            + "” preset „"@ + preset@
            + "”, którego NIE MA w katalogu presetów. Sygnał przepadł. Sprawdź nazwę presetu w łańcuchu albo wgraj brakujący plik."@,
    }
}

impl BrakTrasy {
    /// Short code for the decision journal and the refusal counter.
    pub fn kod(&self) -> (r: &'static str)
        ensures
            r@ == match *self {
                BrakTrasy::KanalBezFormatu { .. } => "KanalBezFormatu"@,
                BrakTrasy::FormatNieHandluje { .. } => "FormatNieHandluje"@,
                BrakTrasy::PresetNieIstnieje { .. } => "PresetNieIstnieje"@,
            },
    {
        match self {
            BrakTrasy::KanalBezFormatu { .. } => "KanalBezFormatu",
            BrakTrasy::FormatNieHandluje { .. } => "FormatNieHandluje",
            BrakTrasy::PresetNieIstnieje { .. } => "PresetNieIstnieje",
        }
    }

    /// Sentence for the user: it says WHAT TO CLICK to fix it.
    pub fn opis(&self) -> (r: String)
        ensures
            r@ == opis_braku(*self),
    {
        match self {
            BrakTrasy::KanalBezFormatu { kanal, temat } => {
                let mut s = String::from_str("Kanał ");
                let n = liczba_ze_znakiem_tekstem(*kanal);
                s.append(n.as_str());
                match temat {
                    Some(t) => {
                        s.append(" (temat ");
                        let m = liczba_ze_znakiem_tekstem(*t);
                        s.append(m.as_str());
                        s.append(")");
                    },
                    None => {},
                }
                s.append(" nie ma przypisanego FORMATU, więc sygnał nie trafił do żadnego silnika. Wejdź w Kanały i wybierz format dla tego źródła; pusty wybór znaczy „nasłuchuj, ale nie handluj”.");
                proof {
                    reveal_strlit("Kanał ");
                    reveal_strlit(" (temat ");
                    reveal_strlit(")");
                    reveal_strlit(" nie ma przypisanego FORMATU, więc sygnał nie trafił do żadnego silnika. Wejdź w Kanały i wybierz format dla tego źródła; pusty wybór znaczy „nasłuchuj, ale nie handluj”.");
                    assert(s@ =~= opis_braku(*self));
                }
                s
            },
            BrakTrasy::FormatNieHandluje { format, lancuch } => {
                let mut s = String::from_str("Format „");
                s.append(format.as_str());
                s.append("” nie ma przypisanego presetu w aktywnym łańcuchu „");
                s.append(lancuch.as_str());
                s.append("”, więc ten kanał jest wyłącznie nasłuchiwany. To jest stan POPRAWNY, jeśli tak został ustawiony — wybierz preset dla tego formatu, żeby zacząć nim handlować.");
                proof {
                    reveal_strlit("Format „");
                    reveal_strlit("” nie ma przypisanego presetu w aktywnym łańcuchu „");
                    reveal_strlit("”, więc ten kanał jest wyłącznie nasłuchiwany. To jest stan POPRAWNY, jeśli tak został ustawiony — wybierz preset dla tego formatu, żeby zacząć nim handlować.");
                    assert(s@ =~= opis_braku(*self));
                }
                s
            },
            BrakTrasy::PresetNieIstnieje { format, preset } => {
                let mut s = String::from_str("Aktywny łańcuch przypisuje formatowi „");
                s.append(format.as_str());
                s.append("” preset „");
                s.append(preset.as_str());
                s.append("”, którego NIE MA w katalogu presetów. Sygnał przepadł. Sprawdź nazwę presetu w łańcuchu albo wgraj brakujący plik.");
                proof {
                    reveal_strlit("Aktywny łańcuch przypisuje formatowi „");
                    reveal_strlit("” preset „");
                    reveal_strlit("”, którego NIE MA w katalogu presetów. Sygnał przepadł. Sprawdź nazwę presetu w łańcuchu albo wgraj brakujący plik.");
                    assert(s@ =~= opis_braku(*self));
                }
                s
            },
        }
    }
}

/// Code of the ASCII lower case of one character; every other character
/// keeps its own code.
pub open spec fn ascii_mala(c: char) -> int {
    if 'A' <= c && c <= 'Z' {
        (c as u32) + 32
    } else {
        c as u32 as int
    }
}

/// ASCII case-insensitive equality of two texts.
pub open spec fn rowne_bez_wielkosci(a: Seq<char>, b: Seq<char>) -> bool {
    a.len() == b.len() && forall|i: int| 0 <= i < a.len() ==> ascii_mala(a[i]) == ascii_mala(b[i])
}

fn mala(c: char) -> (r: u32)
    ensures
        r == ascii_mala(c),
{
    if 'A' <= c && c <= 'Z' {
        (c as u32) + 32
    } else {
        c as u32
    }
}

fn rowne_bez_wielkosci_exec(a: &str, b: &str) -> (r: bool)
    ensures
        r == rowne_bez_wielkosci(a@, b@),
{
    let n = a.unicode_len();
    if n != b.unicode_len() {
        return false;
    }
    let mut k: usize = 0;
    while k < n
        invariant
            n == a@.len(),
            n == b@.len(),
            k <= n,
            forall|j: int| 0 <= j < k ==> ascii_mala(a@[j]) == ascii_mala(b@[j]),
        decreases n - k,
    {
        if mala(a.get_char(k)) != mala(b.get_char(k)) {
            return false;
        }
        k = k + 1;
    }
    true
}

/// Two texts are equal ignoring ASCII case exactly when they have the same
/// length and, position by position, the same character or the upper and
/// lower case of one ASCII letter.
pub proof fn rowne_bez_wielkosci_po_znakach(a: Seq<char>, b: Seq<char>)
    ensures
        rowne_bez_wielkosci(a, b) <==> (a.len() == b.len() && forall|j: int|
            0 <= j < a.len() ==> (a[j] == b[j] || ('A' <= a[j] <= 'Z' && b[j] as u32 == a[j] as u32 + 32) || ('A'
                <= b[j] <= 'Z' && a[j] as u32 == b[j] as u32 + 32))),
{
    if a.len() == b.len() {
        assert forall|j: int| 0 <= j < a.len() implies (ascii_mala(a[j]) == ascii_mala(b[j]) <==> (a[j] == b[j] || (
        'A' <= a[j] <= 'Z' && b[j] as u32 == a[j] as u32 + 32) || ('A' <= b[j] <= 'Z' && a[j] as u32 == b[j] as u32
            + 32))) by {
            let x = a[j];
            let y = b[j];
            vstd::utf8::char_u32_cast(x, x as u32);
            vstd::utf8::char_u32_cast(y, y as u32);
            assert(('A' <= x) == (65 <= x as u32));
            assert(('A' <= y) == (65 <= y as u32));
        }
    }
}

/// Loose format match: equal after trimming both names, ignoring ASCII case.
pub open spec fn pasuje_luzno(nazwa: Seq<char>, f: Seq<char>) -> bool {
    rowne_bez_wielkosci(trimmed_text(nazwa), trimmed_text(f))
}

/// `i` is the engine chosen for a format name typed by hand: the first
/// literal match when there is one, else the first loose match.
pub open spec fn wybor_luzny(lista: Seq<Silnik>, f: Seq<char>, i: int) -> bool {
    &&& 0 <= i < lista.len()
    &&& if exists|k: int| 0 <= k < lista.len() && (#[trigger] lista[k]).format@ == f {
        lista[i].format@ == f && forall|k: int| 0 <= k < i ==> (#[trigger] lista[k]).format@ != f
    } else {
        pasuje_luzno(lista[i].format@, f) && forall|k: int| 0 <= k < i ==> !pasuje_luzno((#[trigger] lista[k]).format@, f)
    }
}

impl Silniki {
    /// Like `indeks_formatu`, but forgiving of edge spaces and letter case,
    /// for names coming from the channel configuration. The literal match
    /// goes FIRST, so that a pathological "ATFX"/"atfx" pair in one chain does
    /// not change the addressee of existing routes.
    fn indeks_formatu_luzny(&self, format: &str) -> (r: Option<usize>)
        ensures
            match r {
                Some(i) => wybor_luzny(self.lista@, format@, i as int),
                None => forall|k: int| 0 <= k < self.lista@.len() ==> !#[trigger] wybor_luzny(self.lista@, format@, k),
            },
    {
        match self.indeks_formatu(format) {
            Some(i) => {
                return Some(i);
            },
            None => {},
        }
        let f = przytnij(format);
        let mut k: usize = 0;
        while k < self.lista.len()
            invariant
                k <= self.lista@.len(),
                f@ == trimmed_text(format@),
                forall|j: int| 0 <= j < self.lista@.len() ==> (#[trigger] self.lista@[j]).format@ != format@,
                forall|j: int| 0 <= j < k ==> !pasuje_luzno((#[trigger] self.lista@[j]).format@, format@),
            decreases self.lista@.len() - k,
        {
            let nazwa = przytnij(self.lista[k].format.as_str());
            if rowne_bez_wielkosci_exec(nazwa, f) {
                return Some(k);
            }
            k = k + 1;
        }
        None
    }

    /// Where a message from this source goes. `format_kanalu` is the format
    /// assigned to the channel or forum topic (None: the channel does not
    /// trade). A name of spaces only is no format. A management-only engine
    /// takes no new signals.
    pub fn trasa(&self, src: &SourceKey, format_kanalu: Option<String>) -> (r: Result<usize, BrakTrasy>)
        ensures
            match format_kanalu {
                Some(f) if trimmed_text(f@).len() > 0 => match r {
                    Ok(i) => wybor_luzny(self.lista@, trimmed_text(f@), i as int)
                        && !self.lista@[i as int].tylko_zarzadzanie,
                    Err(BrakTrasy::FormatNieHandluje { format, lancuch }) => format@ == trimmed_text(f@)
                        && lancuch@ == self.lancuch@
                        && forall|k: int| #[trigger] wybor_luzny(self.lista@, trimmed_text(f@), k)
                            ==> self.lista@[k].tylko_zarzadzanie,
                    Err(_) => false,
                },
                _ => r == Err::<usize, BrakTrasy>(BrakTrasy::KanalBezFormatu { kanal: src.chat_id, temat: src.topic_id }),
            },
    {
        let format = match &format_kanalu {
            Some(f) => {
                let t = przytnij(f.as_str());
                if t.unicode_len() == 0 {
                    return Err(BrakTrasy::KanalBezFormatu { kanal: src.chat_id, temat: src.topic_id });
                }
                String::from_str(t)
            },
            None => {
                return Err(BrakTrasy::KanalBezFormatu { kanal: src.chat_id, temat: src.topic_id });
            },
        };
        let i = match self.indeks_formatu_luzny(format.as_str()) {
            Some(i) => i,
            None => {
                return Err(BrakTrasy::FormatNieHandluje { format, lancuch: self.lancuch.clone() });
            },
        };
        if self.lista[i].tylko_zarzadzanie {
            proof {
                lemma_wybor_jedyny(self.lista@, format@, i as int);
            }
            return Err(BrakTrasy::FormatNieHandluje { format, lancuch: self.lancuch.clone() });
        }
        Ok(i)
    }
}

/// A channel format goes only to an engine whose format name, both names
/// trimmed, is the same name up to ASCII case: the same length and, position
/// by position, the same character or the two cases of one ASCII letter.
pub proof fn trasa_tylko_do_tej_samej_nazwy(lista: Seq<Silnik>, f: Seq<char>, i: int)
    requires
        wybor_luzny(lista, trimmed_text(f), i),
    ensures
        0 <= i < lista.len(),
        trimmed_text(lista[i].format@).len() == trimmed_text(f).len(),
        forall|j: int|
            0 <= j < trimmed_text(f).len() ==> {
                let a = #[trigger] trimmed_text(lista[i].format@)[j];
                let b = trimmed_text(f)[j];
                a == b || ('A' <= a <= 'Z' && b as u32 == a as u32 + 32) || ('A' <= b <= 'Z' && a as u32 == b as u32
                    + 32)
            },
{
    przyciecie_idempotentne(f);
    let g = trimmed_text(f);
    if lista[i].format@ == g {
        przyciecie_idempotentne(lista[i].format@);
        assert(trimmed_text(lista[i].format@) == g);
    } else {
        assert(pasuje_luzno(lista[i].format@, g));
        rowne_bez_wielkosci_po_znakach(trimmed_text(lista[i].format@), g);
    }
}

/// At most one engine is the choice for a format name.
pub proof fn lemma_wybor_jedyny(lista: Seq<Silnik>, f: Seq<char>, i: int)
    requires
        wybor_luzny(lista, f, i),
    ensures
        forall|k: int| #[trigger] wybor_luzny(lista, f, k) ==> k == i,
{
    assert forall|k: int| #[trigger] wybor_luzny(lista, f, k) implies k == i by {
    }
}

/// Index of the first fallback engine, 0 when none is marked.
pub open spec fn glowny_spec(lista: Seq<Silnik>, i: int) -> bool {
    if exists|k: int| 0 <= k < lista.len() && (#[trigger] lista[k]).zapasowy {
        0 <= i < lista.len() && lista[i].zapasowy && forall|k: int| 0 <= k < i ==> !(#[trigger] lista[k]).zapasowy
    } else {
        i == 0
    }
}

/// Closed trades of today over the engines.
pub open spec fn suma_zamkniec(lista: Seq<Silnik>) -> int
    decreases lista.len(),
{
    if lista.len() == 0 {
        0
    } else {
        suma_zamkniec(lista.drop_last()) + lista.last().engine.closed_today
    }
}

/// Messages over the engines.
pub open spec fn suma_wiadomosci(lista: Seq<Silnik>) -> int
    decreases lista.len(),
{
    if lista.len() == 0 {
        0
    } else {
        suma_wiadomosci(lista.drop_last()) + lista.last().engine.messages
    }
}

/// Signals over the engines.
pub open spec fn suma_sygnalow(lista: Seq<Silnik>) -> int
    decreases lista.len(),
{
    if lista.len() == 0 {
        0
    } else {
        suma_sygnalow(lista.drop_last()) + lista.last().engine.signals
    }
}

/// Alive baskets of one engine.
pub open spec fn zywe_w(b: Seq<KoszykTrasy>) -> int
    decreases b.len(),
{
    if b.len() == 0 {
        0
    } else {
        zywe_w(b.drop_last()) + if b.last().alive { 1int } else { 0int }
    }
}

/// Alive baskets over the engines.
pub open spec fn suma_zywych(lista: Seq<Silnik>) -> int
    decreases lista.len(),
{
    if lista.len() == 0 {
        0
    } else {
        suma_zywych(lista.drop_last()) + zywe_w(lista.last().engine.baskets@)
    }
}

/// Largest next basket number over the engines, 1 for no engine.
pub open spec fn najwyzszy_nastepny(lista: Seq<Silnik>) -> int
    decreases lista.len(),
{
    if lista.len() == 0 {
        1
    } else if lista.len() == 1 {
        lista[0].engine.next_basket_id as int
    } else {
        let m = najwyzszy_nastepny(lista.drop_last());
        if lista.last().engine.next_basket_id > m {
            lista.last().engine.next_basket_id as int
        } else {
            m
        }
    }
}

/// Halt reasons of the engines, each prefixed with its format.
pub open spec fn zatrzymane(lista: Seq<Silnik>) -> Seq<Seq<char>>
    decreases lista.len(),
{
    if lista.len() == 0 {
        Seq::empty()
    } else {
        let przed = zatrzymane(lista.drop_last());
        match lista.last().engine.halted {
            Some(r) => przed.push(lista.last().format@ + ": "@ + r@),
            None => przed,
        }
    }
}

/// Parts joined with a separator.
pub open spec fn zlaczone(czesci: Seq<Seq<char>>, sep: Seq<char>) -> Seq<char>
    decreases czesci.len(),
{
    if czesci.len() == 0 {
        Seq::empty()
    } else if czesci.len() == 1 {
        czesci[0]
    } else {
        zlaczone(czesci.drop_last(), sep) + sep + czesci.last()
    }
}

impl Silniki {
    /// The fallback engine: the representative for things that concern the
    /// account as a whole. Both constructors keep the list non-empty.
    pub fn glowny(&self) -> (r: &Silnik)
        requires
            self.lista@.len() > 0,
        ensures
            exists|i: int| glowny_spec(self.lista@, i) && *r == self.lista@[i],
    {
        let i = self.glowny_nr();
        &self.lista[i]
    }

    /// Index of the fallback engine, 0 when none is marked.
    pub fn glowny_nr(&self) -> (r: usize)
        requires
            self.lista@.len() > 0,
        ensures
            glowny_spec(self.lista@, r as int),
            r < self.lista@.len(),
    {
        let mut k: usize = 0;
        while k < self.lista.len()
            invariant
                k <= self.lista@.len(),
                forall|j: int| 0 <= j < k ==> !(#[trigger] self.lista@[j]).zapasowy,
            decreases self.lista@.len() - k,
        {
            if self.lista[k].zapasowy {
                return k;
            }
            k = k + 1;
        }
        0
    }

    pub fn glowny_mut(&mut self) -> (r: &mut Silnik)
        requires
            old(self).lista@.len() > 0,
        ensures
            exists|i: int| glowny_spec(old(self).lista@, i) && *r == old(self).lista@[i]
                && final(self).lista@ == old(self).lista@.update(i, *final(r)),
            final(self).lancuch == old(self).lancuch,
            final(self).poczekalnia == old(self).poczekalnia,
            final(self).sloty_przesuniete == old(self).sloty_przesuniete,
    {
        let i = self.glowny_nr();
        &mut self.lista[i]
    }

    /// The first guard halt anyone has; with several engines every halted
    /// format is named, joined with " · ".
    pub fn halted(&self) -> (r: Option<String>)
        ensures
            zatrzymane(self.lista@).len() == 0 ==> r is None,
            zatrzymane(self.lista@).len() > 0 && self.lista@.len() == 1
                ==> (r matches Some(t) && self.lista@[0].engine.halted matches Some(h) && t@ == h@),
            zatrzymane(self.lista@).len() > 0 && self.lista@.len() != 1
                ==> (r matches Some(t) && t@ == zlaczone(zatrzymane(self.lista@), " · "@)),
    {
        let mut czesci: Vec<String> = Vec::new();
        let mut k: usize = 0;
        while k < self.lista.len()
            invariant
                k <= self.lista@.len(),
                czesci@.len() == zatrzymane(self.lista@.take(k as int)).len(),
                forall|j: int| 0 <= j < czesci@.len() ==> (#[trigger] czesci@[j])@ == zatrzymane(self.lista@.take(k as int))[j],
            decreases self.lista@.len() - k,
        {
            proof {
                assert(self.lista@.take(k + 1).drop_last() =~= self.lista@.take(k as int));
            }
            match &self.lista[k].engine.halted {
                Some(h) => {
                    let mut t = self.lista[k].format.clone();
                    t.append(": ");
                    t.append(h.as_str());
                    proof {
                        reveal_strlit(": ");
                    }
                    czesci.push(t);
                },
                None => {},
            }
            k = k + 1;
        }
        assert(self.lista@.take(self.lista@.len() as int) =~= self.lista@);
        if czesci.len() == 0 {
            return None;
        }
        if self.lista.len() == 1 {
            proof {
                assert(self.lista@.drop_last() =~= Seq::<Silnik>::empty());
                assert(zatrzymane(Seq::<Silnik>::empty()).len() == 0);
                assert(zatrzymane(self.lista@).len() > 0);
                assert(self.lista@.last() == self.lista@[0]);
                assert(self.lista@[0].engine.halted is Some);
            }
            return match &self.lista[0].engine.halted {
                Some(h) => Some(h.clone()),
                None => None,
            };
        }
        let mut r = czesci[0].clone();
        let mut k: usize = 1;
        while k < czesci.len()
            invariant
                1 <= k <= czesci@.len(),
                czesci@.len() == zatrzymane(self.lista@).len(),
                forall|j: int| 0 <= j < czesci@.len() ==> (#[trigger] czesci@[j])@ == zatrzymane(self.lista@)[j],
                r@ == zlaczone(zatrzymane(self.lista@).take(k as int), " · "@),
            decreases czesci@.len() - k,
        {
            r.append(" · ");
            r.append(czesci[k].as_str());
            proof {
                reveal_strlit(" · ");
                let z = zatrzymane(self.lista@);
                assert(z.take(k + 1).drop_last() =~= z.take(k as int));
                assert(z.take(1) =~= seq![z[0]]);
            }
            k = k + 1;
        }
        proof {
            let z = zatrzymane(self.lista@);
            assert(z.take(z.len() as int) =~= z);
            assert(z.take(1) =~= seq![z[0]]);
        }
        Some(r)
    }
}

proof fn lemma_suma_rosnie(lista: Seq<Silnik>, k: int)
    requires
        0 <= k <= lista.len(),
    ensures
        suma_zamkniec(lista.take(k)) <= suma_zamkniec(lista),
        suma_wiadomosci(lista.take(k)) <= suma_wiadomosci(lista),
        suma_sygnalow(lista.take(k)) <= suma_sygnalow(lista),
        suma_zywych(lista.take(k)) <= suma_zywych(lista),
    decreases lista.len() - k,
{
    if k < lista.len() {
        lemma_suma_rosnie(lista, k + 1);
        assert(lista.take(k + 1).drop_last() =~= lista.take(k));
        lemma_zywe_nieujemne(lista[k].engine.baskets@);
    } else {
        assert(lista.take(k) =~= lista);
    }
}

proof fn lemma_zywe_nieujemne(b: Seq<KoszykTrasy>)
    ensures
        0 <= zywe_w(b) <= b.len(),
    decreases b.len(),
{
    if b.len() > 0 {
        lemma_zywe_nieujemne(b.drop_last());
    }
}

fn zywe_jednego(b: &Vec<KoszykTrasy>) -> (r: usize)
    ensures
        r == zywe_w(b@),
{
    let mut n: usize = 0;
    let mut k: usize = 0;
    while k < b.len()
        invariant
            k <= b@.len(),
            n == zywe_w(b@.take(k as int)),
            n <= k,
        decreases b@.len() - k,
    {
        proof {
            assert(b@.take(k + 1).drop_last() =~= b@.take(k as int));
        }
        if b[k].alive {
            n = n + 1;
        }
        k = k + 1;
    }
    assert(b@.take(b@.len() as int) =~= b@);
    n
}

impl Silniki {
    /// How many trades closed today on the whole account.
    pub fn zamkniec_dzis(&self) -> (r: usize)
        requires
            suma_zamkniec(self.lista@) <= usize::MAX,
        ensures
            r == suma_zamkniec(self.lista@),
    {
        let mut n: usize = 0;
        let mut k: usize = 0;
        while k < self.lista.len()
            invariant
                k <= self.lista@.len(),
                n == suma_zamkniec(self.lista@.take(k as int)),
                suma_zamkniec(self.lista@) <= usize::MAX,
            decreases self.lista@.len() - k,
        {
            proof {
                assert(self.lista@.take(k + 1).drop_last() =~= self.lista@.take(k as int));
                lemma_suma_rosnie(self.lista@, k + 1);
            }
            n = n + self.lista[k].engine.closed_today;
            k = k + 1;
        }
        assert(self.lista@.take(self.lista@.len() as int) =~= self.lista@);
        n
    }

    /// Messages and signals counted over all engines.
    pub fn wiadomosci_i_sygnaly(&self) -> (r: (u64, u64))
        requires
            suma_wiadomosci(self.lista@) <= u64::MAX,
            suma_sygnalow(self.lista@) <= u64::MAX,
        ensures
            r.0 == suma_wiadomosci(self.lista@),
            r.1 == suma_sygnalow(self.lista@),
    {
        let mut m: u64 = 0;
        let mut s: u64 = 0;
        let mut k: usize = 0;
        while k < self.lista.len()
            invariant
                k <= self.lista@.len(),
                m == suma_wiadomosci(self.lista@.take(k as int)),
                s == suma_sygnalow(self.lista@.take(k as int)),
                suma_wiadomosci(self.lista@) <= u64::MAX,
                suma_sygnalow(self.lista@) <= u64::MAX,
            decreases self.lista@.len() - k,
        {
            proof {
                assert(self.lista@.take(k + 1).drop_last() =~= self.lista@.take(k as int));
                lemma_suma_rosnie(self.lista@, k + 1);
            }
            m = m + self.lista[k].engine.messages;
            s = s + self.lista[k].engine.signals;
            k = k + 1;
        }
        assert(self.lista@.take(self.lista@.len() as int) =~= self.lista@);
        (m, s)
    }

    /// Alive baskets on the whole account.
    pub fn zywe_koszyki(&self) -> (r: usize)
        requires
            suma_zywych(self.lista@) <= usize::MAX,
        ensures
            r == suma_zywych(self.lista@),
    {
        let mut n: usize = 0;
        let mut k: usize = 0;
        while k < self.lista.len()
            invariant
                k <= self.lista@.len(),
                n == suma_zywych(self.lista@.take(k as int)),
                suma_zywych(self.lista@) <= usize::MAX,
            decreases self.lista@.len() - k,
        {
            proof {
                assert(self.lista@.take(k + 1).drop_last() =~= self.lista@.take(k as int));
                lemma_suma_rosnie(self.lista@, k + 1);
                lemma_zywe_nieujemne(self.lista@[k as int].engine.baskets@);
            }
            let z = zywe_jednego(&self.lista[k].engine.baskets);
            n = n + z;
            k = k + 1;
        }
        assert(self.lista@.take(self.lista@.len() as int) =~= self.lista@);
        n
    }

    /// The highest next basket number over the engines, 1 without engines.
    /// Kept in the snapshot only for compatibility with the older format.
    pub fn next_basket_id(&self) -> (r: u32)
        ensures
            r == najwyzszy_nastepny(self.lista@),
    {
        if self.lista.len() == 0 {
            return 1;
        }
        let mut m: u32 = self.lista[0].engine.next_basket_id;
        let mut k: usize = 1;
        proof {
            assert(self.lista@.take(1) =~= seq![self.lista@[0]]);
        }
        while k < self.lista.len()
            invariant
                1 <= k <= self.lista@.len(),
                m == najwyzszy_nastepny(self.lista@.take(k as int)),
            decreases self.lista@.len() - k,
        {
            proof {
                assert(self.lista@.take(k + 1).drop_last() =~= self.lista@.take(k as int));
            }
            if self.lista[k].engine.next_basket_id > m {
                m = self.lista[k].engine.next_basket_id;
            }
            k = k + 1;
        }
        assert(self.lista@.take(self.lista@.len() as int) =~= self.lista@);
        m
    }
}

/// What happened to the baskets on resume: for the journal, not for decisions.
#[derive(Debug, Clone, PartialEq)]
pub struct RaportPrzydzialu {
    /// assigned by the slot in the basket number (the strongest evidence)
    pub po_slocie: usize,
    /// handed to the FALLBACK engine: numbers from before formats existed, or
    /// baskets of a format that left the active chain
    pub na_zapas: Vec<u32>,
    /// nobody to hand them to: there is NOT A SINGLE engine
    pub porzucone: Vec<u32>,
    /// how many baskets each format got
    pub na_silnik: Vec<(String, usize)>,
}

/// `i` is the first engine that owns a basket with this slot.
pub open spec fn pierwszy_wlasciciel(lista: Seq<Silnik>, slot: u32, i: int) -> bool {
    &&& 0 <= i < lista.len()
    &&& moj_w(lista, i, Some(slot))
    &&& forall|k: int| 0 <= k < i ==> !#[trigger] moj_w(lista, k, Some(slot))
}

/// The engine a basket with this slot is handed to on resume.
pub open spec fn wlasciciel(lista: Seq<Silnik>, slot: u32) -> Option<int> {
    if exists|i: int| #[trigger] pierwszy_wlasciciel(lista, slot, i) {
        Some(choose|i: int| #[trigger] pierwszy_wlasciciel(lista, slot, i))
    } else {
        None
    }
}

proof fn lemma_pierwszy_jedyny(lista: Seq<Silnik>, slot: u32, i: int)
    requires
        pierwszy_wlasciciel(lista, slot, i),
    ensures
        wlasciciel(lista, slot) == Some(i),
{
    let c = choose|c: int| #[trigger] pierwszy_wlasciciel(lista, slot, c);
    assert(pierwszy_wlasciciel(lista, slot, c));
    if c < i {
        assert(!moj_w(lista, c, Some(slot)));
    } else if c > i {
        assert(!moj_w(lista, i, Some(slot)));
    }
}

/// Baskets handed to engine `j`.
pub open spec fn kubelek(lista: Seq<Silnik>, koszyki: Seq<KoszykTrasy>, j: int) -> Seq<KoszykTrasy> {
    koszyki.filter(|b: KoszykTrasy| wlasciciel(lista, b.slot) == Some(j))
}

/// Per engine, in list order, the format and the number of baskets it got,
/// engines that got none left out.
pub open spec fn na_silnik_spec(lista: Seq<Silnik>, koszyki: Seq<KoszykTrasy>, n: int) -> Seq<(Seq<char>, nat)>
    decreases n,
{
    if n <= 0 {
        Seq::empty()
    } else {
        let przed = na_silnik_spec(lista, koszyki, n - 1);
        if kubelek(lista, koszyki, n - 1).len() > 0 {
            przed.push((lista[n - 1].format@, kubelek(lista, koszyki, n - 1).len()))
        } else {
            przed
        }
    }
}

/// Baskets assigned by their own slot.
pub open spec fn po_slocie_spec(lista: Seq<Silnik>, koszyki: Seq<KoszykTrasy>) -> Seq<KoszykTrasy> {
    koszyki.filter(|b: KoszykTrasy| wlasciciel(lista, b.slot) matches Some(i) && lista[i].slot == b.slot)
}

/// Baskets handed to an engine whose slot they do not carry.
pub open spec fn na_zapas_spec(lista: Seq<Silnik>, koszyki: Seq<KoszykTrasy>) -> Seq<KoszykTrasy> {
    koszyki.filter(|b: KoszykTrasy| wlasciciel(lista, b.slot) matches Some(i) && lista[i].slot != b.slot)
}

/// Baskets without any owner.
pub open spec fn porzucone_spec(lista: Seq<Silnik>, koszyki: Seq<KoszykTrasy>) -> Seq<KoszykTrasy> {
    koszyki.filter(|b: KoszykTrasy| wlasciciel(lista, b.slot) is None)
}

pub open spec fn numery(k: Seq<KoszykTrasy>) -> Seq<u32> {
    k.map_values(|b: KoszykTrasy| b.id)
}

/// Every basket of a resume lands in exactly one of the three report groups.
pub proof fn przydzial_liczy_kazdy_koszyk_raz(lista: Seq<Silnik>, koszyki: Seq<KoszykTrasy>)
    ensures
        po_slocie_spec(lista, koszyki).len() + na_zapas_spec(lista, koszyki).len()
            + porzucone_spec(lista, koszyki).len() == koszyki.len(),
    decreases koszyki.len(),
{
    reveal(Seq::filter);
    if koszyki.len() > 0 {
        przydzial_liczy_kazdy_koszyk_raz(lista, koszyki.drop_last());
    }
}

impl Silniki {
    fn wlasciciele(&self, koszyki: &Vec<KoszykTrasy>) -> (r: Vec<Option<usize>>)
        ensures
            r@.len() == koszyki@.len(),
            forall|k: int| 0 <= k < koszyki@.len() ==> match #[trigger] r@[k] {
                Some(i) => wlasciciel(self.lista@, koszyki@[k].slot) == Some(i as int) && i < self.lista@.len(),
                None => wlasciciel(self.lista@, koszyki@[k].slot) is None,
            },
    {
        let mut r: Vec<Option<usize>> = Vec::new();
        let mut k: usize = 0;
        while k < koszyki.len()
            invariant
                k <= koszyki@.len(),
                r@.len() == k,
                forall|q: int| 0 <= q < k ==> match #[trigger] r@[q] {
                    Some(i) => wlasciciel(self.lista@, koszyki@[q].slot) == Some(i as int) && i < self.lista@.len(),
                    None => wlasciciel(self.lista@, koszyki@[q].slot) is None,
                },
            decreases koszyki@.len() - k,
        {
            let w = self.indeks_koszyka(koszyki[k].slot);
            proof {
                match w {
                    Some(i) => {
                        lemma_pierwszy_jedyny(self.lista@, koszyki@[k as int].slot, i as int);
                    },
                    None => {
                        assert(!exists|i: int| #[trigger] pierwszy_wlasciciel(self.lista@, koszyki@[k as int].slot, i));
                    },
                }
            }
            r.push(w);
            k = k + 1;
        }
        r
    }

    /// Hands the baskets restored after a restart to their engines, by the
    /// slot in the basket number alone: exactly the rule of the broker view.
    pub fn rozdaj_koszyki(&mut self, koszyki: Vec<KoszykTrasy>) -> (r: RaportPrzydzialu)
        ensures
            final(self).lista@.len() == old(self).lista@.len(),
            forall|j: int| 0 <= j < old(self).lista@.len() ==> {
                let a = #[trigger] final(self).lista@[j];
                let b = old(self).lista@[j];
                &&& a.format == b.format && a.preset == b.preset && a.slot == b.slot
                &&& a.zapasowy == b.zapasowy && a.tylko_zarzadzanie == b.tylko_zarzadzanie
                &&& a.z_pliku == b.z_pliku && a.powod == b.powod
                &&& a.engine.halted == b.engine.halted && a.engine.closed_today == b.engine.closed_today
                &&& a.engine.messages == b.engine.messages && a.engine.signals == b.engine.signals
                &&& a.engine.next_basket_id == b.engine.next_basket_id
                &&& a.engine.baskets@ == b.engine.baskets@ + kubelek(old(self).lista@, koszyki@, j)
            },
            final(self).lancuch == old(self).lancuch,
            final(self).poczekalnia == old(self).poczekalnia,
            final(self).sloty_przesuniete == old(self).sloty_przesuniete,
            r.po_slocie == po_slocie_spec(old(self).lista@, koszyki@).len(),
            r.na_zapas@ == numery(na_zapas_spec(old(self).lista@, koszyki@)),
            r.porzucone@ == numery(porzucone_spec(old(self).lista@, koszyki@)),
            r.na_silnik@.len() == na_silnik_spec(old(self).lista@, koszyki@, old(self).lista@.len() as int).len(),
            forall|q: int| 0 <= q < r.na_silnik@.len() ==> (#[trigger] r.na_silnik@[q]).0@
                == na_silnik_spec(old(self).lista@, koszyki@, old(self).lista@.len() as int)[q].0
                && r.na_silnik@[q].1 == na_silnik_spec(old(self).lista@, koszyki@, old(self).lista@.len() as int)[q].1,
    {
        let ghost lista0 = self.lista@;
        let w = self.wlasciciele(&koszyki);
        let mut po_slocie: usize = 0;
        let mut na_zapas: Vec<u32> = Vec::new();
        let mut porzucone: Vec<u32> = Vec::new();
        let mut k: usize = 0;
        while k < koszyki.len()
            invariant
                k <= koszyki@.len(),
                self.lista@ == lista0,
                self.lancuch == old(self).lancuch,
                self.poczekalnia == old(self).poczekalnia,
                self.sloty_przesuniete == old(self).sloty_przesuniete,
                lista0 == old(self).lista@,
                w@.len() == koszyki@.len(),
                forall|q: int| 0 <= q < koszyki@.len() ==> match #[trigger] w@[q] {
                    Some(i) => wlasciciel(lista0, koszyki@[q].slot) == Some(i as int) && i < lista0.len(),
                    None => wlasciciel(lista0, koszyki@[q].slot) is None,
                },
                po_slocie == po_slocie_spec(lista0, koszyki@.take(k as int)).len(),
                po_slocie <= k,
                na_zapas@ == numery(na_zapas_spec(lista0, koszyki@.take(k as int))),
                porzucone@ == numery(porzucone_spec(lista0, koszyki@.take(k as int))),
            decreases koszyki@.len() - k,
        {
            let b = koszyki[k];
            proof {
                assert(koszyki@.take(k + 1).drop_last() =~= koszyki@.take(k as int));
                assert(koszyki@.take(k + 1).last() == b);
                reveal(Seq::filter);
                lemma_filter_len_le(lista0, koszyki@.take(k as int));
            }
            match w[k] {
                Some(i) => {
                    if self.lista[i].slot == b.slot {
                        po_slocie = po_slocie + 1;
                    } else {
                        na_zapas.push(b.id);
                    }
                },
                None => {
                    porzucone.push(b.id);
                },
            }
            proof {
                let t1 = koszyki@.take(k + 1);
                assert(numery(na_zapas_spec(lista0, t1)) =~= if wlasciciel(lista0, b.slot) matches Some(i)
                    && lista0[i].slot != b.slot {
                    numery(na_zapas_spec(lista0, koszyki@.take(k as int))).push(b.id)
                } else {
                    numery(na_zapas_spec(lista0, koszyki@.take(k as int)))
                });
                assert(numery(porzucone_spec(lista0, t1)) =~= if wlasciciel(lista0, b.slot) is None {
                    numery(porzucone_spec(lista0, koszyki@.take(k as int))).push(b.id)
                } else {
                    numery(porzucone_spec(lista0, koszyki@.take(k as int)))
                });
            }
            k = k + 1;
        }
        assert(koszyki@.take(koszyki@.len() as int) =~= koszyki@);
        let mut na_silnik: Vec<(String, usize)> = Vec::new();
        let mut j: usize = 0;
        while j < self.lista.len()
            invariant
                j <= self.lista@.len(),
                self.lista@.len() == lista0.len(),
                self.lancuch == old(self).lancuch,
                self.poczekalnia == old(self).poczekalnia,
                self.sloty_przesuniete == old(self).sloty_przesuniete,
                lista0 == old(self).lista@,
                w@.len() == koszyki@.len(),
                forall|q: int| 0 <= q < koszyki@.len() ==> match #[trigger] w@[q] {
                    Some(i) => wlasciciel(lista0, koszyki@[q].slot) == Some(i as int) && i < lista0.len(),
                    None => wlasciciel(lista0, koszyki@[q].slot) is None,
                },
                forall|q: int| j <= q < lista0.len() ==> #[trigger] self.lista@[q] == lista0[q],
                forall|q: int| 0 <= q < j ==> {
                    let a = #[trigger] self.lista@[q];
                    let b = lista0[q];
                    &&& a.format == b.format && a.preset == b.preset && a.slot == b.slot
                    &&& a.zapasowy == b.zapasowy && a.tylko_zarzadzanie == b.tylko_zarzadzanie
                    &&& a.z_pliku == b.z_pliku && a.powod == b.powod
                    &&& a.engine.halted == b.engine.halted && a.engine.closed_today == b.engine.closed_today
                    &&& a.engine.messages == b.engine.messages && a.engine.signals == b.engine.signals
                    &&& a.engine.next_basket_id == b.engine.next_basket_id
                    &&& a.engine.baskets@ == b.engine.baskets@ + kubelek(lista0, koszyki@, q)
                },
                na_silnik@.len() == na_silnik_spec(lista0, koszyki@, j as int).len(),
                forall|q: int| 0 <= q < na_silnik@.len() ==> (#[trigger] na_silnik@[q]).0@
                    == na_silnik_spec(lista0, koszyki@, j as int)[q].0
                    && na_silnik@[q].1 == na_silnik_spec(lista0, koszyki@, j as int)[q].1,
            decreases lista0.len() - j,
        {
            let mut kub: Vec<KoszykTrasy> = Vec::new();
            let mut k: usize = 0;
            while k < koszyki.len()
                invariant
                    k <= koszyki@.len(),
                    j < lista0.len(),
                    w@.len() == koszyki@.len(),
                    forall|q: int| 0 <= q < koszyki@.len() ==> match #[trigger] w@[q] {
                        Some(i) => wlasciciel(lista0, koszyki@[q].slot) == Some(i as int) && i < lista0.len(),
                        None => wlasciciel(lista0, koszyki@[q].slot) is None,
                    },
                    kub@ == kubelek(lista0, koszyki@.take(k as int), j as int),
                decreases koszyki@.len() - k,
            {
                proof {
                    assert(koszyki@.take(k + 1).drop_last() =~= koszyki@.take(k as int));
                    assert(koszyki@.take(k + 1).last() == koszyki@[k as int]);
                    reveal(Seq::filter);
                }
                if w[k] == Some(j) {
                    kub.push(koszyki[k]);
                }
                k = k + 1;
            }
            assert(koszyki@.take(koszyki@.len() as int) =~= koszyki@);
            let n = kub.len();
            let mut s = self.lista.remove(j);
            if n > 0 {
                na_silnik.push((s.format.clone(), n));
            }
            let ghost stare = s.engine.baskets@;
            s.engine.baskets.append(&mut kub);
            self.lista.insert(j, s);
            proof {
                assert(na_silnik_spec(lista0, koszyki@, j + 1) == if kubelek(lista0, koszyki@, j as int).len() > 0 {
                    na_silnik_spec(lista0, koszyki@, j as int).push((lista0[j as int].format@, kubelek(lista0, koszyki@, j as int).len()))
                } else {
                    na_silnik_spec(lista0, koszyki@, j as int)
                });
            }
            j = j + 1;
        }
        RaportPrzydzialu { po_slocie, na_zapas, porzucone, na_silnik }
    }
}

proof fn lemma_filter_len_le(lista: Seq<Silnik>, koszyki: Seq<KoszykTrasy>)
    ensures
        po_slocie_spec(lista, koszyki).len() <= koszyki.len(),
{
    przydzial_liczy_kazdy_koszyk_raz(lista, koszyki);
}

/// Debug rendering of a list of numbers: `[1, 2, 3]`.
pub open spec fn lista_tekstem(v: Seq<u32>) -> Seq<char>
    decreases v.len(),
{
    "["@ + elementy_tekstem(v) + "]"@
}

pub open spec fn elementy_tekstem(v: Seq<u32>) -> Seq<char>
    decreases v.len(),
{
    if v.len() == 0 {
        Seq::empty()
    } else if v.len() == 1 {
        decimal_text(v[0] as int)
    } else {
        elementy_tekstem(v.drop_last()) + ", "@ + decimal_text(v.last() as int)
    }
}

fn lista_debug(v: &Vec<u32>) -> (r: String)
    ensures
        r@ == lista_tekstem(v@),
{
    let mut s = String::from_str("[");
    let mut k: usize = 0;
    proof {
        reveal_strlit("[");
        reveal_strlit(", ");
        reveal_strlit("]");
    }
    while k < v.len()
        invariant
            k <= v@.len(),
            s@ == "["@ + elementy_tekstem(v@.take(k as int)),
        decreases v@.len() - k,
    {
        proof {
            assert(v@.take(k + 1).drop_last() =~= v@.take(k as int));
        }
        if k > 0 {
            s.append(", ");
        }
        let n = liczba_tekstem(v[k] as u64);
        s.append(n.as_str());
        proof {
            if k == 0 {
                assert(v@.take(1) =~= seq![v@[0]]);
            }
            assert(s@ =~= "["@ + elementy_tekstem(v@.take(k + 1)));
        }
        k = k + 1;
    }
    s.append("]");
    assert(v@.take(v@.len() as int) =~= v@);
    assert(s@ =~= lista_tekstem(v@));
    s
}

/// The journal text of a basket distribution.
pub open spec fn opis_przydzialu(na_silnik: Seq<(Seq<char>, nat)>, na_zapas: Seq<u32>, porzucone: Seq<u32>) -> Seq<char> {
    let a = linie_silnikow(na_silnik);
    let b = if na_zapas.len() > 0 {
        a + "⚠ Koszyki bez własnego slotu oddane silnikowi ZAPASOWEMU: "@ + lista_tekstem(na_zapas)
            + "\nTo są albo numery sprzed wprowadzenia formatów (B1, B2, …), albo koszyki formatu, który wypadł z aktywnego łańcucha. Zarządza nimi preset silnika zapasowego, dopóki się nie domkną.\n"@
    } else {
        a
    };
    let c = if porzucone.len() > 0 {
        b + "⛔ Koszyki BEZ OPIEKI (żaden format nie handluje): "@ + lista_tekstem(porzucone)
            + "\nPozycje zostają na rachunku z żywym ryzykiem i NIKT nimi nie zarządza.\n"@
    } else {
        b
    };
    if c.len() == 0 {
        "nie było czego rozdzielać"@
    } else {
        c
    }
}

pub open spec fn linie_silnikow(na_silnik: Seq<(Seq<char>, nat)>) -> Seq<char>
    decreases na_silnik.len(),
{
    if na_silnik.len() == 0 {
        Seq::empty()
    } else {
        linie_silnikow(na_silnik.drop_last()) + na_silnik.last().0 + ": "@ + decimal_text(na_silnik.last().1 as int)
            + " koszyk(ów)\n"@
    }
}

pub open spec fn na_silnik_widok(v: Seq<(String, usize)>) -> Seq<(Seq<char>, nat)> {
    v.map_values(|p: (String, usize)| (p.0@, p.1 as nat))
}

impl RaportPrzydzialu {
    pub fn opis(&self) -> (r: String)
        ensures
            r@ == opis_przydzialu(na_silnik_widok(self.na_silnik@), self.na_zapas@, self.porzucone@),
    {
        let mut s = String::new();
        let mut k: usize = 0;
        proof {
            reveal_strlit(": ");
            reveal_strlit(" koszyk(ów)\n");
        }
        while k < self.na_silnik.len()
            invariant
                k <= self.na_silnik@.len(),
                s@ == linie_silnikow(na_silnik_widok(self.na_silnik@).take(k as int)),
            decreases self.na_silnik@.len() - k,
        {
            proof {
                assert(na_silnik_widok(self.na_silnik@).take(k + 1).drop_last()
                    =~= na_silnik_widok(self.na_silnik@).take(k as int));
            }
            s.append(self.na_silnik[k].0.as_str());
            s.append(": ");
            let n = liczba_tekstem(self.na_silnik[k].1 as u64);
            s.append(n.as_str());
            s.append(" koszyk(ów)\n");
            k = k + 1;
        }
        assert(na_silnik_widok(self.na_silnik@).take(self.na_silnik@.len() as int) =~= na_silnik_widok(self.na_silnik@));
        if self.na_zapas.len() > 0 {
            s.append("⚠ Koszyki bez własnego slotu oddane silnikowi ZAPASOWEMU: ");
            let l = lista_debug(&self.na_zapas);
            s.append(l.as_str());
            s.append("\nTo są albo numery sprzed wprowadzenia formatów (B1, B2, …), albo koszyki formatu, który wypadł z aktywnego łańcucha. Zarządza nimi preset silnika zapasowego, dopóki się nie domkną.\n");
        }
        if self.porzucone.len() > 0 {
            s.append("⛔ Koszyki BEZ OPIEKI (żaden format nie handluje): ");
            let l = lista_debug(&self.porzucone);
            s.append(l.as_str());
            s.append("\nPozycje zostają na rachunku z żywym ryzykiem i NIKT nimi nie zarządza.\n");
        }
        proof {
            reveal_strlit("⚠ Koszyki bez własnego slotu oddane silnikowi ZAPASOWEMU: ");
            reveal_strlit("\nTo są albo numery sprzed wprowadzenia formatów (B1, B2, …), albo koszyki formatu, który wypadł z aktywnego łańcucha. Zarządza nimi preset silnika zapasowego, dopóki się nie domkną.\n");
            reveal_strlit("⛔ Koszyki BEZ OPIEKI (żaden format nie handluje): ");
            reveal_strlit("\nPozycje zostają na rachunku z żywym ryzykiem i NIKT nimi nie zarządza.\n");
        }
        if s.unicode_len() == 0 {
            let r = String::from_str("nie było czego rozdzielać");
            proof {
                reveal_strlit("nie było czego rozdzielać");
            }
            return r;
        }
        s
    }
}

/// All baskets of the engines, engine after engine.
pub open spec fn wszystkie_koszyki(lista: Seq<Silnik>) -> Seq<KoszykTrasy>
    decreases lista.len(),
{
    if lista.len() == 0 {
        Seq::empty()
    } else {
        wszystkie_koszyki(lista.drop_last()) + lista.last().engine.baskets@
    }
}

pub open spec fn po_numerach(v: Seq<KoszykTrasy>) -> bool {
    forall|a: int, b: int| 0 <= a < b < v.len() ==> (#[trigger] v[a]).id <= (#[trigger] v[b]).id
}

/// Baskets of one number.
pub open spec fn o_numerze(y: u32) -> spec_fn(KoszykTrasy) -> bool {
    |b: KoszykTrasy| b.id == y
}

proof fn lemma_filtr_dopisany(s: Seq<KoszykTrasy>, x: KoszykTrasy, y: u32)
    ensures
        s.push(x).filter(o_numerze(y)) == (if x.id == y {
            s.filter(o_numerze(y)).push(x)
        } else {
            s.filter(o_numerze(y))
        }),
{
    reveal(Seq::filter);
    assert(s.push(x).drop_last() =~= s);
}

proof fn lemma_filtr_pusty(s: Seq<KoszykTrasy>, y: u32)
    requires
        forall|q: int| 0 <= q < s.len() ==> (#[trigger] s[q]).id != y,
    ensures
        s.filter(o_numerze(y)) == Seq::<KoszykTrasy>::empty(),
    decreases s.len(),
{
    reveal(Seq::filter);
    if s.len() > 0 {
        let t = s.drop_last();
        assert forall|q: int| 0 <= q < t.len() implies (#[trigger] t[q]).id != y by {
            assert(t[q] == s[q]);
        }
        lemma_filtr_pusty(t, y);
        assert(s[s.len() - 1].id != y);
    }
}

/// Inserting a basket before every basket of a higher number puts it last
/// among the baskets of its own number.
proof fn lemma_filtr_wstawiony(s: Seq<KoszykTrasy>, p: int, x: KoszykTrasy, y: u32)
    requires
        0 <= p <= s.len(),
        forall|q: int| p <= q < s.len() ==> (#[trigger] s[q]).id > x.id,
    ensures
        s.insert(p, x).filter(o_numerze(y)) == (if x.id == y {
            s.filter(o_numerze(y)).push(x)
        } else {
            s.filter(o_numerze(y))
        }),
{
    let a = s.take(p);
    let c = s.skip(p);
    let jeden = Seq::<KoszykTrasy>::empty().push(x);
    assert(s.insert(p, x) =~= (a + jeden) + c);
    assert(s =~= a + c);
    Seq::filter_distributes_over_add(a + jeden, c, o_numerze(y));
    Seq::filter_distributes_over_add(a, jeden, o_numerze(y));
    Seq::filter_distributes_over_add(a, c, o_numerze(y));
    lemma_filtr_dopisany(Seq::<KoszykTrasy>::empty(), x, y);
    reveal(Seq::filter);
    assert(Seq::<KoszykTrasy>::empty().filter(o_numerze(y)) =~= Seq::<KoszykTrasy>::empty());
    if x.id == y {
        assert forall|q: int| 0 <= q < c.len() implies (#[trigger] c[q]).id != y by {
            assert(c[q] == s[p + q]);
        }
        lemma_filtr_pusty(c, y);
        assert(a.filter(o_numerze(y)) + jeden.filter(o_numerze(y)) + c.filter(o_numerze(y))
            =~= (a.filter(o_numerze(y)) + c.filter(o_numerze(y))).push(x));
    } else {
        assert(a.filter(o_numerze(y)) + jeden.filter(o_numerze(y)) + c.filter(o_numerze(y))
            =~= a.filter(o_numerze(y)) + c.filter(o_numerze(y)));
    }
}

impl Silniki {
    /// All baskets of all engines, ordered by number: for the snapshot and
    /// the panel. The sort is stable: baskets of one number keep the order of
    /// the engines and of each engine's list.
    pub fn koszyki(&self) -> (r: Vec<KoszykTrasy>)
        ensures
            po_numerach(r@),
            r@.to_multiset() == wszystkie_koszyki(self.lista@).to_multiset(),
            forall|y: u32| #[trigger] r@.filter(o_numerze(y)) == wszystkie_koszyki(self.lista@).filter(o_numerze(y)),
    {
        let mut all: Vec<KoszykTrasy> = Vec::new();
        let mut j: usize = 0;
        while j < self.lista.len()
            invariant
                j <= self.lista@.len(),
                all@ == wszystkie_koszyki(self.lista@.take(j as int)),
            decreases self.lista@.len() - j,
        {
            proof {
                assert(self.lista@.take(j + 1).drop_last() =~= self.lista@.take(j as int));
            }
            let b = &self.lista[j].engine.baskets;
            let ghost przed = all@;
            let mut k: usize = 0;
            while k < b.len()
                invariant
                    k <= b@.len(),
                    all@ == przed + b@.take(k as int),
                decreases b@.len() - k,
            {
                all.push(b[k]);
                k = k + 1;
                assert(all@ =~= przed + b@.take(k as int));
            }
            assert(b@.take(b@.len() as int) =~= b@);
            j = j + 1;
        }
        assert(self.lista@.take(self.lista@.len() as int) =~= self.lista@);
        let mut out: Vec<KoszykTrasy> = Vec::new();
        let mut k: usize = 0;
        assert(out@ =~= all@.take(0));
        proof {
            reveal(Seq::filter);
        }
        while k < all.len()
            invariant
                k <= all@.len(),
                po_numerach(out@),
                out@.to_multiset() == all@.take(k as int).to_multiset(),
                forall|y: u32| #[trigger] out@.filter(o_numerze(y)) == all@.take(k as int).filter(o_numerze(y)),
            decreases all@.len() - k,
        {
            let x = all[k];
            let mut p: usize = 0;
            while p < out.len() && out[p].id <= x.id
                invariant
                    p <= out@.len(),
                    forall|q: int| 0 <= q < p ==> (#[trigger] out@[q]).id <= x.id,
                decreases out@.len() - p,
            {
                p = p + 1;
            }
            proof {
                assert(all@.take(k + 1) =~= all@.take(k as int).push(x));
                if p < out@.len() {
                    assert(out@[p as int].id > x.id);
                }
            }
            let ghost przed = out@;
            out.insert(p, x);
            proof {
                assert(out@ == przed.insert(p as int, x));
                if p < przed.len() {
                    assert forall|q: int| p <= q < przed.len() implies (#[trigger] przed[q]).id > x.id by {
                        if q > p {
                            assert(przed[p as int].id <= przed[q].id);
                        }
                    }
                }
                assert forall|y: u32| #[trigger] out@.filter(o_numerze(y)) == all@.take(k + 1).filter(o_numerze(y)) by {
                    lemma_filtr_wstawiony(przed, p as int, x, y);
                    lemma_filtr_dopisany(all@.take(k as int), x, y);
                }
                vstd::seq_lib::to_multiset_insert(przed, p as int, x);
                vstd::seq_lib::to_multiset_build(all@.take(k as int), x);
                assert forall|a: int, b: int| 0 <= a < b < out@.len() implies (#[trigger] out@[a]).id <= (#[trigger] out@[b]).id by {
                    if b < p {
                    } else if b == p {
                    } else if a < p {
                        if p < przed.len() {
                            assert(przed[p as int].id > x.id);
                        }
                    } else if a == p {
                        assert(przed[p as int].id > x.id);
                        assert(przed[b - 1].id >= przed[p as int].id);
                    } else {
                    }
                }
            }
            k = k + 1;
        }
        assert(all@.take(all@.len() as int) =~= all@);
        out
    }
}


/// Positions on one slot.
pub open spec fn pozycje_slotu(ps: Seq<PozycjaKonta>, slot: u32) -> nat
    decreases ps.len(),
{
    if ps.len() == 0 {
        0
    } else {
        pozycje_slotu(ps.drop_last(), slot) + if ps.last().slot == slot { 1nat } else { 0nat }
    }
}

/// Positions on the slots that some engine serves.
pub open spec fn obslugiwane(ps: Seq<PozycjaKonta>, znane: Seq<u32>) -> nat
    decreases ps.len(),
{
    if ps.len() == 0 {
        0
    } else {
        obslugiwane(ps.drop_last(), znane) + if znane.contains(ps.last().slot) { 1nat } else { 0nat }
    }
}

/// Volume units of the positions of one side.
pub open spec fn loty(ps: Seq<PozycjaKonta>, side: Side) -> nat
    decreases ps.len(),
{
    if ps.len() == 0 {
        0
    } else {
        loty(ps.drop_last(), side) + if ps.last().side == side { ps.last().volume_units as nat } else { 0nat }
    }
}

/// Volume units of the positions of one side on one slot.
pub open spec fn loty_slotu(ps: Seq<PozycjaKonta>, side: Side, slot: u32) -> nat
    decreases ps.len(),
{
    if ps.len() == 0 {
        0
    } else {
        loty_slotu(ps.drop_last(), side, slot) + if ps.last().side == side && ps.last().slot == slot {
            ps.last().volume_units as nat
        } else {
            0nat
        }
    }
}

/// Realized results of today over the engines.
pub open spec fn suma_zrealizowanych(lista: Seq<Silnik>) -> int
    decreases lista.len(),
{
    if lista.len() == 0 {
        0
    } else {
        suma_zrealizowanych(lista.drop_last()) + lista.last().engine.realized_today
    }
}

/// The positions engine `i` manages: those of its slot, and for the
/// fallback engine also those of slots no engine serves.
pub open spec fn moje_pozycje(lista: Seq<Silnik>, ps: Seq<PozycjaKonta>, i: int) -> int {
    pozycje_slotu(ps, lista[i].slot) + if lista[i].zapasowy { ps.len() - obslugiwane(ps, sloty(lista)) } else { 0 }
}

/// The load of the other engines as engine `i` sees it: everything on the
/// account or in the chain less its own part.
pub open spec fn obce_dla(lista: Seq<Silnik>, ps: Seq<PozycjaKonta>, strona: Option<Side>, i: int) -> ObceObciazenie {
    let k = zywe_w(lista[i].engine.baskets@);
    let moje = moje_pozycje(lista, ps, i);
    let buy = loty(ps, Side::Buy) - loty_slotu(ps, Side::Buy, lista[i].slot);
    let sell = loty(ps, Side::Sell) - loty_slotu(ps, Side::Sell, lista[i].slot);
    ObceObciazenie {
        pozycje: if ps.len() > moje { (ps.len() - moje) as u32 } else { 0 },
        koszyki: if suma_zywych(lista) > k { (suma_zywych(lista) - k) as u32 } else { 0 },
        zrealizowane_dzis: (suma_zrealizowanych(lista) - lista[i].engine.realized_today) as i64,
        loty_buy: if buy > 0 { buy as u64 } else { 0 },
        loty_sell: if sell > 0 { sell as u64 } else { 0 },
        przeciwny_kierunek: match strona {
            Some(Side::Buy) => sell > 0,
            Some(Side::Sell) => buy > 0,
            None => false,
        },
    }
}

proof fn lemma_pozycje_ograniczone(ps: Seq<PozycjaKonta>, znane: Seq<u32>, slot: u32, side: Side)
    ensures
        obslugiwane(ps, znane) <= ps.len(),
        znane.contains(slot) ==> pozycje_slotu(ps, slot) <= obslugiwane(ps, znane),
        loty_slotu(ps, side, slot) <= loty(ps, side),
    decreases ps.len(),
{
    if ps.len() > 0 {
        lemma_pozycje_ograniczone(ps.drop_last(), znane, slot, side);
    }
}

proof fn lemma_zywe_czesciowe(lista: Seq<Silnik>, j: int)
    requires
        0 <= j <= lista.len(),
    ensures
        0 <= suma_zywych(lista.take(j)) <= suma_zywych(lista),
        j < lista.len() ==> zywe_w(lista[j].engine.baskets@) <= suma_zywych(lista),
    decreases lista.len() - j,
{
    lemma_suma_zywych_nieujemna(lista);
    if j < lista.len() {
        lemma_zywe_czesciowe(lista, j + 1);
        assert(lista.take(j + 1).drop_last() =~= lista.take(j));
        lemma_suma_zywych_nieujemna(lista.take(j));
        lemma_zywe_nieujemne(lista[j].engine.baskets@);
        assert(lista.take(j + 1).last() == lista[j]);
    } else {
        assert(lista.take(j) =~= lista);
    }
}

proof fn lemma_suma_zywych_nieujemna(lista: Seq<Silnik>)
    ensures
        suma_zywych(lista) >= 0,
    decreases lista.len(),
{
    if lista.len() > 0 {
        lemma_suma_zywych_nieujemna(lista.drop_last());
        lemma_zywe_nieujemne(lista.last().engine.baskets@);
    }
}

proof fn lemma_zrealizowane_ograniczone(lista: Seq<Silnik>)
    ensures
        -(lista.len() * 9223372036854775808) <= suma_zrealizowanych(lista) <= lista.len() * 9223372036854775808,
    decreases lista.len(),
{
    if lista.len() > 0 {
        lemma_zrealizowane_ograniczone(lista.drop_last());
    }
}

/// What engine `i` manages are exactly the positions its ownership view
/// shows as its own.
pub proof fn moje_pozycje_wedlug_wlasnosci(lista: Seq<Silnik>, ps: Seq<PozycjaKonta>, i: int)
    requires
        0 <= i < lista.len(),
    ensures
        moje_pozycje(lista, ps, i) == ps.filter(|p: PozycjaKonta| moj_w(lista, i, Some(p.slot))).len(),
    decreases ps.len(),
{
    reveal(Seq::filter);
    assert(sloty(lista)[i] == lista[i].slot);
    assert(sloty(lista).contains(lista[i].slot));
    if ps.len() > 0 {
        moje_pozycje_wedlug_wlasnosci(lista, ps.drop_last(), i);
        lemma_pozycje_ograniczone(ps.drop_last(), sloty(lista), lista[i].slot, Side::Buy);
    }
}

impl Silniki {
    /// Today's realized result of the whole account, in cents.
    pub fn realized_today(&self) -> (r: i64)
        requires
            i64::MIN <= suma_zrealizowanych(self.lista@) <= i64::MAX,
        ensures
            r == suma_zrealizowanych(self.lista@),
    {
        let n = self.lista.len();
        let mut suma: i128 = 0;
        let mut j: usize = 0;
        while j < n
            invariant
                n == self.lista@.len(),
                j <= n,
                suma == suma_zrealizowanych(self.lista@.take(j as int)),
            decreases n - j,
        {
            proof {
                assert(self.lista@.take(j + 1).drop_last() =~= self.lista@.take(j as int));
                assert(self.lista@.take(j + 1).last() == self.lista@[j as int]);
                lemma_zrealizowane_ograniczone(self.lista@.take(j as int));
            }
            suma = suma + self.lista[j].engine.realized_today as i128;
            j = j + 1;
        }
        proof {
            assert(self.lista@.take(n as int) =~= self.lista@);
        }
        suma as i64
    }

    fn slot_znany(&self, slot: u32) -> (r: bool)
        ensures
            r == sloty(self.lista@).contains(slot),
    {
        let mut j: usize = 0;
        while j < self.lista.len()
            invariant
                j <= self.lista@.len(),
                forall|q: int| 0 <= q < j ==> (#[trigger] self.lista@[q]).slot != slot,
            decreases self.lista@.len() - j,
        {
            if self.lista[j].slot == slot {
                assert(sloty(self.lista@)[j as int] == slot);
                return true;
            }
            j = j + 1;
        }
        proof {
            if sloty(self.lista@).contains(slot) {
                let q = choose|q: int| 0 <= q < sloty(self.lista@).len() && sloty(self.lista@)[q] == slot;
                assert(self.lista@[q].slot == slot);
            }
        }
        false
    }

    /// Gives every engine the load of the others: all alive baskets of the
    /// chain, all positions on the account (read from the broker, the only
    /// place that shows what is really there) and today's realized results,
    /// each less the engine's own part. Positions of a slot no engine serves
    /// count as the fallback engine's own.
    pub fn przelicz_obce(&mut self, pozycje: &[PozycjaKonta], strona_sygnalu: Option<Side>)
        requires
            pozycje@.len() <= u32::MAX,
            suma_zywych(old(self).lista@) <= u32::MAX,
            loty(pozycje@, Side::Buy) <= u64::MAX,
            loty(pozycje@, Side::Sell) <= u64::MAX,
            forall|i: int| 0 <= i < old(self).lista@.len() ==> i64::MIN <= suma_zrealizowanych(old(self).lista@)
                - (#[trigger] old(self).lista@[i]).engine.realized_today <= i64::MAX,
        ensures
            final(self).lista@.len() == old(self).lista@.len(),
            forall|i: int| 0 <= i < old(self).lista@.len() ==> #[trigger] final(self).lista@[i] == (Silnik {
                engine: StanSilnika { obce: obce_dla(old(self).lista@, pozycje@, strona_sygnalu, i), ..old(self).lista@[i].engine },
                ..old(self).lista@[i]
            }),
            final(self).lancuch == old(self).lancuch,
            final(self).poczekalnia == old(self).poczekalnia,
            final(self).sloty_przesuniete == old(self).sloty_przesuniete,
    {
        let ghost lista0 = self.lista@;
        let ghost ps = pozycje@;
        let n = self.lista.len();
        // totals over the engines
        let mut koszyki_razem: u32 = 0;
        let mut dzis_razem: i128 = 0;
        let mut j: usize = 0;
        while j < n
            invariant
                n == lista0.len(),
                self.lista@ == lista0,
                j <= n,
                suma_zywych(lista0) <= u32::MAX,
                koszyki_razem == suma_zywych(lista0.take(j as int)),
                dzis_razem == suma_zrealizowanych(lista0.take(j as int)),
            decreases n - j,
        {
            proof {
                assert(lista0.take(j + 1).drop_last() =~= lista0.take(j as int));
                assert(lista0.take(j + 1).last() == lista0[j as int]);
                lemma_zywe_czesciowe(lista0, j + 1);
                lemma_zrealizowane_ograniczone(lista0.take(j as int));
                lemma_zywe_nieujemne(lista0[j as int].engine.baskets@);
            }
            let b = &self.lista[j].engine.baskets;
            let mut k: u32 = 0;
            let mut q: usize = 0;
            while q < b.len()
                invariant
                    q <= b@.len(),
                    k == zywe_w(b@.take(q as int)),
                    zywe_w(b@) + koszyki_razem <= u32::MAX,
                decreases b@.len() - q,
            {
                proof {
                    assert(b@.take(q + 1).drop_last() =~= b@.take(q as int));
                    lemma_zywe_czesciowe_w(b@, q as int);
                }
                if b[q].alive {
                    k = k + 1;
                }
                q = q + 1;
            }
            proof {
                assert(b@.take(b@.len() as int) =~= b@);
            }
            koszyki_razem = koszyki_razem + k;
            dzis_razem = dzis_razem + self.lista[j].engine.realized_today as i128;
            j = j + 1;
        }
        proof {
            assert(lista0.take(n as int) =~= lista0);
        }
        // totals over the positions
        let m = pozycje.len();
        let poz_razem: u32 = m as u32;
        let mut obsl: u32 = 0;
        let mut buy_razem: u64 = 0;
        let mut sell_razem: u64 = 0;
        let mut p: usize = 0;
        while p < m
            invariant
                m == ps.len(),
                ps == pozycje@,
                self.lista@ == lista0,
                m <= u32::MAX,
                p <= m,
                loty(ps, Side::Buy) <= u64::MAX,
                loty(ps, Side::Sell) <= u64::MAX,
                obsl == obslugiwane(ps.take(p as int), sloty(lista0)),
                buy_razem == loty(ps.take(p as int), Side::Buy),
                sell_razem == loty(ps.take(p as int), Side::Sell),
            decreases m - p,
        {
            proof {
                assert(ps.take(p + 1).drop_last() =~= ps.take(p as int));
                lemma_pozycje_ograniczone(ps.take(p + 1), sloty(lista0), 0, Side::Buy);
                lemma_loty_czesciowe(ps, p + 1, Side::Buy);
                lemma_loty_czesciowe(ps, p + 1, Side::Sell);
            }
            let x = pozycje[p];
            if self.slot_znany(x.slot) {
                obsl = obsl + 1;
            }
            match x.side {
                Side::Buy => {
                    buy_razem = buy_razem + x.volume_units;
                },
                Side::Sell => {
                    sell_razem = sell_razem + x.volume_units;
                },
            }
            p = p + 1;
        }
        proof {
            assert(ps.take(m as int) =~= ps);
            lemma_pozycje_ograniczone(ps, sloty(lista0), 0, Side::Buy);
        }
        // every engine gets the totals less its own part
        let mut i: usize = 0;
        while i < n
            invariant
                n == lista0.len(),
                m == ps.len(),
                ps == pozycje@,
                m <= u32::MAX,
                self.lista@.len() == n,
                poz_razem == m,
                obsl == obslugiwane(ps, sloty(lista0)),
                obsl <= m,
                buy_razem == loty(ps, Side::Buy),
                sell_razem == loty(ps, Side::Sell),
                koszyki_razem == suma_zywych(lista0),
                dzis_razem == suma_zrealizowanych(lista0),
                lista0 == old(self).lista@,
                forall|q: int| 0 <= q < n ==> i64::MIN <= suma_zrealizowanych(lista0)
                    - (#[trigger] lista0[q]).engine.realized_today <= i64::MAX,
                forall|q: int| i <= q < n ==> #[trigger] self.lista@[q] == lista0[q],
                forall|q: int| 0 <= q < i ==> #[trigger] self.lista@[q] == (Silnik {
                    engine: StanSilnika { obce: obce_dla(lista0, ps, strona_sygnalu, q), ..lista0[q].engine },
                    ..lista0[q]
                }),
                self.lancuch == old(self).lancuch,
                self.poczekalnia == old(self).poczekalnia,
                self.sloty_przesuniete == old(self).sloty_przesuniete,
            decreases n - i,
        {
            let slot = self.lista[i].slot;
            let zapasowy = self.lista[i].zapasowy;
            let d = self.lista[i].engine.realized_today;
            let ghost ii = i as int;
            proof {
                assert(sloty(lista0)[ii] == slot);
                lemma_pozycje_ograniczone(ps, sloty(lista0), slot, Side::Buy);
                lemma_pozycje_ograniczone(ps, sloty(lista0), slot, Side::Sell);
                lemma_zywe_czesciowe(lista0, ii);
            }
            // own alive baskets
            let b = &self.lista[i].engine.baskets;
            let mut k: u32 = 0;
            let mut q: usize = 0;
            while q < b.len()
                invariant
                    q <= b@.len(),
                    k == zywe_w(b@.take(q as int)),
                    zywe_w(b@) <= u32::MAX,
                decreases b@.len() - q,
            {
                proof {
                    assert(b@.take(q + 1).drop_last() =~= b@.take(q as int));
                    lemma_zywe_czesciowe_w(b@, q as int);
                }
                if b[q].alive {
                    k = k + 1;
                }
                q = q + 1;
            }
            proof {
                assert(b@.take(b@.len() as int) =~= b@);
            }
            // own positions and lots
            let mut na_slocie: u32 = 0;
            let mut mb: u64 = 0;
            let mut ms: u64 = 0;
            let mut p: usize = 0;
            while p < m
                invariant
                    m == ps.len(),
                    ps == pozycje@,
                    m <= u32::MAX,
                    p <= m,
                    pozycje_slotu(ps, slot) <= m,
                    loty_slotu(ps, Side::Buy, slot) <= u64::MAX,
                    loty_slotu(ps, Side::Sell, slot) <= u64::MAX,
                    na_slocie == pozycje_slotu(ps.take(p as int), slot),
                    mb == loty_slotu(ps.take(p as int), Side::Buy, slot),
                    ms == loty_slotu(ps.take(p as int), Side::Sell, slot),
                decreases m - p,
            {
                proof {
                    assert(ps.take(p + 1).drop_last() =~= ps.take(p as int));
                    lemma_slot_czesciowy(ps, p + 1, slot);
                }
                let x = pozycje[p];
                if x.slot == slot {
                    na_slocie = na_slocie + 1;
                    match x.side {
                        Side::Buy => {
                            mb = mb + x.volume_units;
                        },
                        Side::Sell => {
                            ms = ms + x.volume_units;
                        },
                    }
                }
                p = p + 1;
            }
            proof {
                assert(ps.take(m as int) =~= ps);
            }
            let moje: u32 = na_slocie + if zapasowy { poz_razem - obsl } else { 0 };
            let buy_inne = buy_razem - mb;
            let sell_inne = sell_razem - ms;
            let obce = ObceObciazenie {
                pozycje: poz_razem.saturating_sub(moje),
                koszyki: koszyki_razem.saturating_sub(k),
                zrealizowane_dzis: (dzis_razem - d as i128) as i64,
                loty_buy: buy_inne,
                loty_sell: sell_inne,
                przeciwny_kierunek: match strona_sygnalu {
                    Some(Side::Buy) => sell_inne > 0,
                    Some(Side::Sell) => buy_inne > 0,
                    None => false,
                },
            };
            let mut s = self.lista.remove(i);
            s.engine.obce = obce;
            self.lista.insert(i, s);
            proof {
                assert(obce == obce_dla(lista0, ps, strona_sygnalu, ii));
                assert forall|q: int| 0 <= q < ii + 1 implies #[trigger] self.lista@[q] == (Silnik {
                    engine: StanSilnika { obce: obce_dla(lista0, ps, strona_sygnalu, q), ..lista0[q].engine },
                    ..lista0[q]
                }) by {}
            }
            i = i + 1;
        }
    }
}

proof fn lemma_zywe_czesciowe_w(b: Seq<KoszykTrasy>, q: int)
    requires
        0 <= q < b.len(),
    ensures
        zywe_w(b.take(q + 1)) <= zywe_w(b),
    decreases b.len() - q,
{
    if q + 1 < b.len() {
        lemma_zywe_czesciowe_w(b, q + 1);
        assert(b.take(q + 2).drop_last() =~= b.take(q + 1));
    } else {
        assert(b.take(q + 1) =~= b);
    }
}

proof fn lemma_loty_czesciowe(ps: Seq<PozycjaKonta>, p: int, side: Side)
    requires
        0 <= p <= ps.len(),
    ensures
        loty(ps.take(p), side) <= loty(ps, side),
    decreases ps.len() - p,
{
    if p < ps.len() {
        lemma_loty_czesciowe(ps, p + 1, side);
        assert(ps.take(p + 1).drop_last() =~= ps.take(p));
    } else {
        assert(ps.take(p) =~= ps);
    }
}

proof fn lemma_slot_czesciowy(ps: Seq<PozycjaKonta>, p: int, slot: u32)
    requires
        0 <= p <= ps.len(),
    ensures
        pozycje_slotu(ps.take(p), slot) <= pozycje_slotu(ps, slot),
        loty_slotu(ps.take(p), Side::Buy, slot) <= loty_slotu(ps, Side::Buy, slot),
        loty_slotu(ps.take(p), Side::Sell, slot) <= loty_slotu(ps, Side::Sell, slot),
    decreases ps.len() - p,
{
    if p < ps.len() {
        lemma_slot_czesciowy(ps, p + 1, slot);
        assert(ps.take(p + 1).drop_last() =~= ps.take(p));
    } else {
        assert(ps.take(p) =~= ps);
    }
}


/// One leg of the active chain as the build plan needs it: the format, the
/// numbering slot it was given, the preset the chain names for it, and
/// whether a preset of that name exists.
#[derive(Debug, Clone)]
pub struct NogaPlanu {
    pub format: String,
    pub slot: u32,
    pub preset: String,
    pub preset_istnieje: bool,
}

/// What engine the build makes for a leg (or the emergency engine).
#[derive(Debug, Clone)]
pub struct PlanSilnika {
    pub format: String,
    pub preset: String,
    pub slot: u32,
    pub zapasowy: bool,
    pub tylko_zarzadzanie: bool,
    pub z_pliku: bool,
    pub powod: String,
}

/// The legs whose preset exists, in order.
pub open spec fn nogi_z_presetem(n: Seq<NogaPlanu>) -> Seq<NogaPlanu>
    decreases n.len(),
{
    if n.len() == 0 {
        Seq::empty()
    } else if n.last().preset_istnieje {
        nogi_z_presetem(n.drop_last()).push(n.last())
    } else {
        nogi_z_presetem(n.drop_last())
    }
}

/// The legs whose preset is missing, in order.
pub open spec fn nogi_bez_presetu(n: Seq<NogaPlanu>) -> Seq<NogaPlanu>
    decreases n.len(),
{
    if n.len() == 0 {
        Seq::empty()
    } else if !n.last().preset_istnieje {
        nogi_bez_presetu(n.drop_last()).push(n.last())
    } else {
        nogi_bez_presetu(n.drop_last())
    }
}

/// The spare engine among the built ones: the first of the format whose
/// baskets lie on the account from before formats ("ATFX"), else the first.
pub open spec fn zapasowy_w(z: Seq<NogaPlanu>, k: int) -> bool {
    ||| (z[k].format@ == "ATFX"@ && forall|j: int| 0 <= j < k ==> (#[trigger] z[j]).format@ != "ATFX"@)
    ||| (k == 0 && forall|j: int| 0 <= j < z.len() ==> (#[trigger] z[j]).format@ != "ATFX"@)
}

/// Why the emergency engine runs: the chain has no leg, or so many legs have
/// no preset file.
pub open spec fn powod_awaryjny(lancuch: Seq<char>, brakow: nat) -> Seq<char> {
    "AWARYJNY: łańcuch „"@ + lancuch + "” nie dał ani jednego silnika ("@
        + (if brakow == 0 { "łańcuch nie ma ani jednej nogi"@ } else { decimal_text(brakow as int) + " nóg bez pliku presetu"@ })
        + ") — tylko zarządzanie zastanym"@
}

fn powod_awaryjny_exec(lancuch: &str, brakow: usize) -> (r: String)
    ensures
        r@ == powod_awaryjny(lancuch@, brakow as nat),
{
    let mut s = String::from_str("AWARYJNY: łańcuch „");
    s.append(lancuch);
    s.append("” nie dał ani jednego silnika (");
    if brakow == 0 {
        s.append("łańcuch nie ma ani jednej nogi");
    } else {
        let n = liczba_tekstem(brakow as u64);
        s.append(n.as_str());
        s.append(" nóg bez pliku presetu");
    }
    s.append(") — tylko zarządzanie zastanym");
    s
}

/// The engines a chain gets and the legs reported for their missing preset:
/// one engine per leg with a preset, in order, from its file; when none is
/// made, one management-only emergency engine on the given slot that takes
/// in everything; and exactly one spare engine (see `zapasowy_w`).
pub fn plan_silnikow(nogi: &Vec<NogaPlanu>, lancuch: &str, slot_awaryjny: u32) -> (r: (Vec<PlanSilnika>, Vec<BrakTrasy>))
    ensures
        r.1@.len() == nogi_bez_presetu(nogi@).len(),
        forall|k: int| 0 <= k < r.1@.len() ==> (#[trigger] r.1@[k] matches BrakTrasy::PresetNieIstnieje { format, preset }
            && format@ == nogi_bez_presetu(nogi@)[k].format@ && preset@ == nogi_bez_presetu(nogi@)[k].preset@),
        nogi_z_presetem(nogi@).len() > 0 ==> {
            &&& r.0@.len() == nogi_z_presetem(nogi@).len()
            &&& forall|k: int| 0 <= k < r.0@.len() ==> {
                &&& (#[trigger] r.0@[k]).format@ == nogi_z_presetem(nogi@)[k].format@
                &&& r.0@[k].preset@ == nogi_z_presetem(nogi@)[k].preset@
                &&& r.0@[k].slot == nogi_z_presetem(nogi@)[k].slot
                &&& r.0@[k].zapasowy == zapasowy_w(nogi_z_presetem(nogi@), k)
                &&& !r.0@[k].tylko_zarzadzanie
                &&& r.0@[k].z_pliku
                &&& r.0@[k].powod@.len() == 0
            }
        },
        nogi_z_presetem(nogi@).len() == 0 ==> {
            &&& r.0@.len() == 1
            &&& r.0@[0].format@.len() == 0
            &&& r.0@[0].preset@.len() == 0
            &&& r.0@[0].slot == slot_awaryjny
            &&& r.0@[0].zapasowy
            &&& r.0@[0].tylko_zarzadzanie
            &&& !r.0@[0].z_pliku
            &&& r.0@[0].powod@ == powod_awaryjny(lancuch@, r.1@.len())
        },
{
    let mut lista: Vec<PlanSilnika> = Vec::new();
    let mut braki: Vec<BrakTrasy> = Vec::new();
    let mut k: usize = 0;
    while k < nogi.len()
        invariant
            k <= nogi@.len(),
            lista@.len() == nogi_z_presetem(nogi@.take(k as int)).len(),
            braki@.len() == nogi_bez_presetu(nogi@.take(k as int)).len(),
            forall|j: int| 0 <= j < braki@.len() ==> (#[trigger] braki@[j] matches BrakTrasy::PresetNieIstnieje { format, preset }
                && format@ == nogi_bez_presetu(nogi@.take(k as int))[j].format@
                && preset@ == nogi_bez_presetu(nogi@.take(k as int))[j].preset@),
            forall|j: int| 0 <= j < lista@.len() ==> {
                &&& (#[trigger] lista@[j]).format@ == nogi_z_presetem(nogi@.take(k as int))[j].format@
                &&& lista@[j].preset@ == nogi_z_presetem(nogi@.take(k as int))[j].preset@
                &&& lista@[j].slot == nogi_z_presetem(nogi@.take(k as int))[j].slot
                &&& !lista@[j].zapasowy
                &&& !lista@[j].tylko_zarzadzanie
                &&& lista@[j].z_pliku
                &&& lista@[j].powod@.len() == 0
            },
        decreases nogi@.len() - k,
    {
        let n = &nogi[k];
        proof {
            assert(nogi@.take(k + 1).drop_last() =~= nogi@.take(k as int));
            assert(nogi@.take(k + 1).last() == nogi@[k as int]);
        }
        let ghost l0 = lista@;
        let ghost b0 = braki@;
        if n.preset_istnieje {
            lista.push(PlanSilnika {
                format: n.format.clone(),
                preset: n.preset.clone(),
                slot: n.slot,
                zapasowy: false,
                tylko_zarzadzanie: false,
                z_pliku: true,
                powod: String::new(),
            });
            proof {
                assert forall|j: int| 0 <= j < lista@.len() implies {
                    &&& (#[trigger] lista@[j]).format@ == nogi_z_presetem(nogi@.take(k + 1))[j].format@
                    &&& lista@[j].preset@ == nogi_z_presetem(nogi@.take(k + 1))[j].preset@
                    &&& lista@[j].slot == nogi_z_presetem(nogi@.take(k + 1))[j].slot
                } by {
                    if j < l0.len() {
                        assert(lista@[j] == l0[j]);
                    }
                }
            }
        } else {
            braki.push(BrakTrasy::PresetNieIstnieje { format: n.format.clone(), preset: n.preset.clone() });
            proof {
                assert forall|j: int| 0 <= j < braki@.len() implies (#[trigger] braki@[j] matches BrakTrasy::PresetNieIstnieje { format, preset }
                    && format@ == nogi_bez_presetu(nogi@.take(k + 1))[j].format@
                    && preset@ == nogi_bez_presetu(nogi@.take(k + 1))[j].preset@) by {
                    if j < b0.len() {
                        assert(braki@[j] == b0[j]);
                    }
                }
            }
        }
        k = k + 1;
    }
    proof {
        assert(nogi@.take(nogi@.len() as int) =~= nogi@);
    }
    if lista.len() == 0 {
        let powod = powod_awaryjny_exec(lancuch, braki.len());
        lista.push(PlanSilnika {
            format: String::new(),
            preset: String::new(),
            slot: slot_awaryjny,
            zapasowy: true,
            tylko_zarzadzanie: true,
            z_pliku: false,
            powod,
        });
        return (lista, braki);
    }
    let ghost z = nogi_z_presetem(nogi@);
    let zapas = indeks_zapasowego(&lista);
    proof {
        let zz = zapas as int;
        assert forall|a: int| 0 <= a < z.len() implies (#[trigger] z[a]).format@ == lista@[a].format@ by {}
        if lista@[zz].format@ == "ATFX"@ && forall|a: int| 0 <= a < zz ==> (#[trigger] lista@[a]).format@ != "ATFX"@ {
            assert(z[zz].format@ == "ATFX"@);
            assert forall|k: int| 0 <= k < z.len() implies zapasowy_w(z, k) == (k == zz) by {
                if k < zz {
                    assert(z[k].format@ != "ATFX"@);
                } else if k > zz {
                    assert(z[zz].format@ == "ATFX"@);
                } else {
                    assert forall|j: int| 0 <= j < k implies (#[trigger] z[j]).format@ != "ATFX"@ by {
                        assert(lista@[j].format@ != "ATFX"@);
                    }
                }
            }
        } else {
            assert forall|j: int| 0 <= j < z.len() implies (#[trigger] z[j]).format@ != "ATFX"@ by {
                assert(lista@[j].format@ != "ATFX"@);
            }
            assert forall|k: int| 0 <= k < z.len() implies zapasowy_w(z, k) == (k == zz) by {
                assert(z[k].format@ != "ATFX"@);
            }
        }
    }
    let ghost przed = lista@;
    let mut wybrany = lista.remove(zapas);
    wybrany.zapasowy = true;
    let ghost w = wybrany;
    lista.insert(zapas, wybrany);
    proof {
        assert(lista@ =~= przed.update(zapas as int, w));
    }
    (lista, braki)
}

/// The index of the spare engine: the first "ATFX" one, else the first.
fn indeks_zapasowego(lista: &Vec<PlanSilnika>) -> (r: usize)
    requires
        lista@.len() > 0,
    ensures
        r < lista@.len(),
        (lista@[r as int].format@ == "ATFX"@ && forall|a: int| 0 <= a < r ==> (#[trigger] lista@[a]).format@ != "ATFX"@)
            || (r == 0 && lista@[0].format@ != "ATFX"@ && forall|a: int| 0 <= a < lista@.len() ==> (#[trigger] lista@[a]).format@ != "ATFX"@),
{
    let mut j: usize = 0;
    while j < lista.len()
        invariant
            j <= lista@.len(),
            forall|a: int| 0 <= a < j ==> (#[trigger] lista@[a]).format@ != "ATFX"@,
        decreases lista@.len() - j,
    {
        if rowne_teksty(lista[j].format.as_str(), "ATFX") {
            return j;
        }
        j = j + 1;
    }
    0
}

} // verus!
