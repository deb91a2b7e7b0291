use conduit_core::broker::SourceKey;
use conduit_core::broker::Side;
use conduit_core::routing::{
    plan_silnikow, BrakTrasy, KoszykTrasy, NogaPlanu, ObceObciazenie, PozycjaKonta, Silnik, Silniki,
    StanSilnika, Wlasnosc,
    Zamkniecie,
};

fn stan() -> StanSilnika {
    StanSilnika {
        baskets: Vec::new(),
        halted: None,
        closed_today: 0,
        messages: 0,
        signals: 0,
        next_basket_id: 1,
        realized_today: 0,
        obce: ObceObciazenie {
            pozycje: 0,
            koszyki: 0,
            zrealizowane_dzis: 0,
            loty_buy: 0,
            loty_sell: 0,
            przeciwny_kierunek: false,
        },
    }
}

fn silnik(format: &str, slot: u32, zapasowy: bool) -> Silnik {
    Silnik {
        format: format.to_string(),
        preset: format!("P-{format}"),
        slot,
        zapasowy,
        tylko_zarzadzanie: false,
        z_pliku: true,
        powod: String::new(),
        engine: stan(),
    }
}

/// Two engines as a chain with ATFX and Synergy builds them: ATFX is the
/// fallback engine.
fn at_syn() -> Silniki {
    Silniki {
        lista: vec![silnik("ATFX", 1, true), silnik("Synergy", 2, false)],
        lancuch: "TEST".to_string(),
        sloty_przesuniete: Vec::new(),
        poczekalnia: Vec::new(),
    }
}

#[test]
fn trasa_wybacza_wielkosc_liter_i_spacje_brzegowe() {
    let s = at_syn();
    let src = SourceKey::new(-1001, None);

    let wprost = s.trasa(&src, Some("ATFX".into())).unwrap();
    assert_eq!(s.trasa(&src, Some(" atfx ".into())).unwrap(), wprost);
    assert_eq!(
        s.trasa(&src, Some("SYNERGY".into())).unwrap(),
        s.indeks_formatu("Synergy").unwrap()
    );
    // same spacje to BRAK formatu, nie format o nazwie ze spacji
    assert!(matches!(
        s.trasa(&src, Some("   ".into())),
        Err(BrakTrasy::KanalBezFormatu { .. })
    ));
    // nieznany format dalej odpada z właściwym powodem
    assert!(matches!(
        s.trasa(&src, Some("ZEN".into())),
        Err(BrakTrasy::FormatNieHandluje { .. })
    ));
}

#[test]
fn trasa_bez_formatu_podaje_kanal_i_temat() {
    let s = at_syn();
    let e = s.trasa(&SourceKey::new(-1001, Some(7)), None).unwrap_err();
    assert_eq!(e, BrakTrasy::KanalBezFormatu { kanal: -1001, temat: Some(7) });
    assert_eq!(e.kod(), "KanalBezFormatu");
    assert_eq!(
        e.opis(),
        "Kanał -1001 (temat 7) nie ma przypisanego FORMATU, więc sygnał nie trafił do \
         żadnego silnika. Wejdź w Kanały i wybierz format dla tego źródła; \
         pusty wybór znaczy „nasłuchuj, ale nie handluj”."
    );
}

#[test]
fn zamrozony_silnik_nie_bierze_nowych_sygnalow() {
    let mut s = at_syn();
    s.lista[1].tylko_zarzadzanie = true;
    let e = s
        .trasa(&SourceKey::new(5, None), Some("Synergy".into()))
        .unwrap_err();
    assert_eq!(
        e,
        BrakTrasy::FormatNieHandluje { format: "Synergy".into(), lancuch: "TEST".into() }
    );
    assert_eq!(e.kod(), "FormatNieHandluje");
    assert!(e.opis().starts_with("Format „Synergy” nie ma przypisanego presetu"));
}

#[test]
fn dokladne_dopasowanie_ma_pierwszenstwo_przed_luznym() {
    let mut s = at_syn();
    s.lista.push(silnik("atfx", 3, false));
    let src = SourceKey::new(1, None);
    assert_eq!(s.trasa(&src, Some("atfx".into())).unwrap(), 2);
    assert_eq!(s.trasa(&src, Some("ATFX".into())).unwrap(), 0);
    assert_eq!(s.trasa(&src, Some(" Atfx".into())).unwrap(), 0);
}

#[test]
fn wlasnosc_slotow_i_zapasowego() {
    let s = at_syn();
    let a = s.wlasnosc(0);
    let b = s.wlasnosc(1);
    assert_eq!(a.znane_sloty, vec![1, 2]);
    assert!(a.moj(Some(1)) && !b.moj(Some(1)));
    assert!(b.moj(Some(2)) && !a.moj(Some(2)));
    // slot nikogo i brak koszyka trafiają do zapasowego
    assert!(a.moj(Some(9)) && !b.moj(Some(9)));
    assert!(a.moj(None) && !b.moj(None));
    let w = Wlasnosc { slot: 4, zapasowy: false, znane_sloty: vec![4] };
    assert!(!w.moj(Some(5)));
    assert_eq!(s.indeks_koszyka(2), Some(1));
    assert_eq!(s.indeks_koszyka(9), Some(0));
}

#[test]
fn rozdaj_koszyki_po_slocie_na_zapas_i_porzucone() {
    let mut s = at_syn();
    let koszyki = vec![
        KoszykTrasy { id: 1001, slot: 1, alive: true },
        KoszykTrasy { id: 2001, slot: 2, alive: true },
        KoszykTrasy { id: 7, slot: 0, alive: false },
    ];
    let r = s.rozdaj_koszyki(koszyki);
    assert_eq!(r.po_slocie, 2);
    assert_eq!(r.na_zapas, vec![7]);
    assert!(r.porzucone.is_empty());
    assert_eq!(r.na_silnik, vec![("ATFX".to_string(), 2), ("Synergy".to_string(), 1)]);
    assert_eq!(s.lista[0].engine.baskets.len(), 2);
    assert_eq!(s.lista[1].engine.baskets[0].id, 2001);
    assert_eq!(s.zywe_koszyki(), 2);
    assert_eq!(
        s.koszyki().iter().map(|b| b.id).collect::<Vec<_>>(),
        vec![7, 1001, 2001]
    );
    assert_eq!(
        r.opis(),
        "ATFX: 2 koszyk(ów)\nSynergy: 1 koszyk(ów)\n⚠ Koszyki bez własnego slotu oddane \
         silnikowi ZAPASOWEMU: [7]\nTo są albo numery sprzed wprowadzenia formatów (B1, B2, \
         …), albo koszyki formatu, który wypadł z aktywnego łańcucha. Zarządza nimi preset \
         silnika zapasowego, dopóki się nie domkną.\n"
    );
}

#[test]
fn bez_silnikow_koszyki_sa_porzucone() {
    let mut s = Silniki {
        lista: Vec::new(),
        lancuch: "PUSTY".into(),
        sloty_przesuniete: Vec::new(),
        poczekalnia: Vec::new(),
    };
    assert!(s.is_empty());
    let r = s.rozdaj_koszyki(vec![KoszykTrasy { id: 3, slot: 0, alive: true }]);
    assert_eq!(r.porzucone, vec![3]);
    assert!(r.opis().starts_with("⛔ Koszyki BEZ OPIEKI (żaden format nie handluje): [3]\n"));
    assert_eq!(s.next_basket_id(), 1);
}

#[test]
fn pusty_raport_mowi_ze_nie_bylo_czego_rozdzielac() {
    let mut s = at_syn();
    let r = s.rozdaj_koszyki(Vec::new());
    assert_eq!(r.opis(), "nie było czego rozdzielać");
}

#[test]
fn glowny_to_zapasowy_a_agregaty_sumuja_silniki() {
    let mut s = at_syn();
    s.lista[0].zapasowy = false;
    s.lista[1].zapasowy = true;
    assert_eq!(s.glowny().format, "Synergy");
    s.glowny_mut().powod = "x".into();
    assert_eq!(s.lista[1].powod, "x");
    s.lista[0].engine.closed_today = 2;
    s.lista[1].engine.closed_today = 3;
    s.lista[0].engine.messages = 10;
    s.lista[1].engine.signals = 4;
    s.lista[0].engine.next_basket_id = 1005;
    s.lista[1].engine.next_basket_id = 2003;
    assert_eq!(s.zamkniec_dzis(), 5);
    assert_eq!(s.wiadomosci_i_sygnaly(), (10, 4));
    assert_eq!(s.next_basket_id(), 2003);
}

#[test]
fn halted_nazywa_formaty_przy_wielu_silnikach() {
    let mut s = at_syn();
    assert_eq!(s.halted(), None);
    s.lista[1].engine.halted = Some("DD".into());
    assert_eq!(s.halted(), Some("Synergy: DD".into()));
    s.lista[0].engine.halted = Some("cel".into());
    assert_eq!(s.halted(), Some("ATFX: cel · Synergy: DD".into()));
    let mut jeden = Silniki::pojedynczy(stan(), 0, "ATFX".into(), "P".into(), "L".into(), true);
    jeden.lista[0].engine.halted = Some("DD".into());
    assert_eq!(jeden.halted(), Some("DD".into()));
}

#[test]
fn poczekalnia_oddaje_tylko_wlasne_zamkniecia() {
    let mut s = at_syn();
    let moje = s.odbierz_zamkniete(
        1,
        vec![
            Zamkniecie { ticket: 1, slot: Some(1) },
            Zamkniecie { ticket: 2, slot: Some(2) },
            Zamkniecie { ticket: 3, slot: None },
        ],
    );
    assert_eq!(moje, vec![Zamkniecie { ticket: 2, slot: Some(2) }]);
    assert_eq!(s.poczekalnia_len(), 2);
    let zapas = s.odbierz_zamkniete(0, Vec::new());
    assert_eq!(zapas.len(), 2);
    assert_eq!(s.poczekalnia_len(), 0);
}

#[test]
fn koszyki_o_rownym_numerze_zachowuja_kolejnosc() {
    let mut s = at_syn();
    s.lista[0].engine.baskets = vec![
        KoszykTrasy { id: 9, slot: 1, alive: true },
        KoszykTrasy { id: 4, slot: 1, alive: false },
    ];
    s.lista[1].engine.baskets = vec![
        KoszykTrasy { id: 4, slot: 2, alive: true },
        KoszykTrasy { id: 1, slot: 2, alive: true },
    ];
    let k = s.koszyki();
    assert_eq!(
        k.iter().map(|b| (b.id, b.slot)).collect::<Vec<_>>(),
        vec![(1, 2), (4, 1), (4, 2), (9, 1)]
    );
}

fn poz(slot: u32, side: Side, units: u64) -> PozycjaKonta {
    PozycjaKonta { slot, side, volume_units: units }
}

#[test]
fn kazdy_silnik_widzi_obciazenie_pozostalych_bez_siebie() {
    let mut s = at_syn();
    s.lista[0].engine.baskets = vec![
        KoszykTrasy { id: 1001, slot: 1, alive: true },
        KoszykTrasy { id: 1002, slot: 1, alive: false },
    ];
    s.lista[0].engine.realized_today = 1_500;
    s.lista[1].engine.baskets = vec![
        KoszykTrasy { id: 2001, slot: 2, alive: true },
        KoszykTrasy { id: 2002, slot: 2, alive: true },
    ];
    s.lista[1].engine.realized_today = -400;
    let pozycje = vec![
        poz(1, Side::Buy, 3),
        poz(2, Side::Sell, 5),
        poz(2, Side::Sell, 2),
        // a slot nobody serves: the fallback engine (ATFX) manages it
        poz(9, Side::Buy, 4),
    ];
    s.przelicz_obce(&pozycje, Some(Side::Buy));
    let atfx = s.lista[0].engine.obce;
    let syn = s.lista[1].engine.obce;
    assert_eq!(atfx.pozycje, 2);
    assert_eq!(atfx.koszyki, 2);
    assert_eq!(atfx.zrealizowane_dzis, -400);
    assert_eq!(atfx.loty_buy, 4);
    assert_eq!(atfx.loty_sell, 7);
    assert!(atfx.przeciwny_kierunek);
    assert_eq!(syn.pozycje, 2);
    assert_eq!(syn.koszyki, 1);
    assert_eq!(syn.zrealizowane_dzis, 1_500);
    assert_eq!(syn.loty_buy, 7);
    assert_eq!(syn.loty_sell, 0);
    assert!(!syn.przeciwny_kierunek);
    // the rest of the engines is untouched
    assert_eq!(s.lista[1].engine.baskets.len(), 2);
    assert_eq!(s.lista[0].engine.realized_today, 1_500);
    // a sell signal: other engines' buys are the opposite side
    s.przelicz_obce(&pozycje, Some(Side::Sell));
    assert!(s.lista[1].engine.obce.przeciwny_kierunek);
    // lots are counted by slot only: the unserved slot's buys are the
    // fallback engine's positions but not its own lots
    assert!(s.lista[0].engine.obce.przeciwny_kierunek);
    s.przelicz_obce(&pozycje, None);
    assert!(!s.lista[1].engine.obce.przeciwny_kierunek);
}

#[test]
fn bez_pozycji_obcych_nie_ma() {
    let mut s = at_syn();
    s.przelicz_obce(&[], Some(Side::Buy));
    for e in &s.lista {
        assert_eq!(e.engine.obce.pozycje, 0);
        assert_eq!(e.engine.obce.koszyki, 0);
        assert_eq!(e.engine.obce.loty_buy, 0);
        assert!(!e.engine.obce.przeciwny_kierunek);
    }
}

#[test]
fn wlasne_pozycje_to_te_ktore_pokazuje_widok_wlasnosci() {
    let mut s = at_syn();
    let pozycje = vec![
        poz(1, Side::Buy, 1),
        poz(2, Side::Buy, 1),
        poz(0, Side::Sell, 1),
        poz(7, Side::Sell, 1),
        poz(2, Side::Sell, 1),
    ];
    s.przelicz_obce(&pozycje, None);
    for i in 0..s.lista.len() {
        let w = s.wlasnosc(i);
        let wlasne = pozycje.iter().filter(|p| w.moj(Some(p.slot))).count() as u32;
        assert_eq!(wlasne + s.lista[i].engine.obce.pozycje, pozycje.len() as u32);
    }
    assert_eq!(s.lista[0].engine.obce.pozycje, 2);
    assert_eq!(s.lista[1].engine.obce.pozycje, 3);
}

#[test]
fn wynik_dnia_sumuje_silniki() {
    let mut s = at_syn();
    assert_eq!(s.realized_today(), 0);
    s.lista[0].engine.realized_today = 2_050;
    s.lista[1].engine.realized_today = -730;
    assert_eq!(s.realized_today(), 1_320);
}

/// A leg's realized result of the day is what the other legs see, never the
/// account's equity delta (the account has one equity; realized results are
/// in cents here).
#[test]
fn przelicz_obce_liczy_zrealizowane_nogi_a_nie_delte_equity_konta() {
    let mut s = at_syn();
    let ia = s.indeks_formatu("ATFX").unwrap();
    let ib = s.indeks_formatu("Synergy").unwrap();
    s.lista[ia].engine.realized_today = 3_000;
    s.lista[ib].engine.realized_today = 5_000;
    s.przelicz_obce(&[], None);
    assert_eq!(s.lista[ia].engine.obce.zrealizowane_dzis, 5_000);
    assert_eq!(s.lista[ib].engine.obce.zrealizowane_dzis, 3_000);
}

fn noga(format: &str, slot: u32, preset: &str, jest: bool) -> NogaPlanu {
    NogaPlanu { format: format.to_string(), slot, preset: preset.to_string(), preset_istnieje: jest }
}

#[test]
fn lancuch_bez_zadnego_presetu_dostaje_silnik_awaryjny_zamiast_paniki() {
    let nogi = vec![noga("ATFX", 1, "atfx_preset", false), noga("Synergy", 2, "syn_preset", false)];
    let (lista, braki) = plan_silnikow(&nogi, "AT+SYN", 0);
    assert_eq!(braki.len(), 2, "każda noga bez pliku musi zostać zgłoszona");
    assert_eq!(lista.len(), 1, "zamiast pustej listy — jeden silnik awaryjny");
    let g = &lista[0];
    assert!(g.zapasowy);
    assert!(g.tylko_zarzadzanie);
    assert!(!g.powod.is_empty());
    assert_eq!(g.slot, 0);
    assert_eq!(
        g.powod,
        "AWARYJNY: łańcuch „AT+SYN” nie dał ani jednego silnika (2 nóg bez pliku presetu) — tylko zarządzanie zastanym"
    );
}

#[test]
fn plan_takes_legs_with_presets_and_one_spare() {
    let nogi = vec![noga("Synergy", 2, "syn", true), noga("X", 3, "x", false), noga("ATFX", 1, "at", true)];
    let (lista, braki) = plan_silnikow(&nogi, "L", 0);
    assert_eq!(braki, vec![BrakTrasy::PresetNieIstnieje { format: "X".to_string(), preset: "x".to_string() }]);
    assert_eq!(lista.len(), 2);
    assert_eq!((lista[0].format.as_str(), lista[0].zapasowy), ("Synergy", false));
    assert_eq!((lista[1].format.as_str(), lista[1].zapasowy, lista[1].slot), ("ATFX", true, 1));
    assert!(lista.iter().all(|s| s.z_pliku && !s.tylko_zarzadzanie && s.powod.is_empty()));
    let (bez, _) = plan_silnikow(&vec![noga("A", 1, "a", true), noga("B", 2, "b", true)], "L", 0);
    assert!(bez[0].zapasowy && !bez[1].zapasowy);
    let (pusty, braki) = plan_silnikow(&vec![], "L", 0);
    assert!(braki.is_empty());
    assert!(pusty[0].powod.contains("łańcuch nie ma ani jednej nogi"));
}
