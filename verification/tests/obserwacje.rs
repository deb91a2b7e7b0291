use conduit_core::obserwacje::{
    dzien_miesiaca, kod, nazwa, nazwy, opisy, pierwsza_losowa, splitmix64, Komunikat, Rodzina, C, N_CECH,
    N_LOSOWYCH, WERSJA_OBSERWACJI,
};

#[test]
fn metadane_sa_spojne() {
    let opisy = opisy();
    assert_eq!(
        opisy.len(),
        N_CECH,
        "liczba opisów musi równać się długości wektora"
    );
    let mut widziane = std::collections::HashSet::new();
    for o in &opisy {
        assert!(
            widziane.insert(o.nazwa),
            "zduplikowana nazwa cechy: {}",
            o.nazwa
        );
    }
    // losowe muszą siedzieć na KOŃCU — inaczej dopisanie cechy przesuwa
    // kontrolę i unieważnia wagi modelu
    for i in pierwsza_losowa()..N_CECH {
        assert_eq!(
            opisy[i].rodzina,
            Rodzina::Losowa,
            "cecha {i} nie jest losowa"
        );
    }
    assert_eq!(N_CECH - pierwsza_losowa(), N_LOSOWYCH);
}

#[test]
fn uklad_wektora_jest_zamrozony() {
    assert_eq!(WERSJA_OBSERWACJI, 1);
    assert_eq!(N_CECH, 199, "zmiana liczby cech = zmiana układu");
    assert_eq!(pierwsza_losowa(), 179);

    // kotwice: pierwsza cecha każdej rodziny musi stać tam, gdzie stała
    assert_eq!(nazwa(C::cena_mid_usd), "cena_mid_usd");
    assert_eq!(C::cena_mid_usd.indeks(), 0);
    assert_eq!(nazwa(C::mom_1m_usd), "mom_1m_usd");
    assert_eq!(nazwa(C::n_sygnalow_1h), "n_sygnalow_1h");
    assert_eq!(nazwa(C::min_od_sygnalu), "min_od_sygnalu");
    assert_eq!(nazwa(C::n_koszykow_otwartych), "n_koszykow_otwartych");
    assert_eq!(nazwa(C::wiek_koszyka_min), "wiek_koszyka_min");
    assert_eq!(nazwa(C::losowa_01), "losowa_01");
    let opisy = opisy();
    assert_eq!(opisy[N_CECH - 1].nazwa, "losowa_20");

    // odcisk całej listy nazw w kolejności
    let mut h: u64 = 0xcbf2_9ce4_8422_2325;
    for o in &opisy {
        for b in o.nazwa.as_bytes() {
            h ^= *b as u64;
            h = h.wrapping_mul(0x0000_0100_0000_01B3);
        }
        h ^= 0xFF;
        h = h.wrapping_mul(0x0000_0100_0000_01B3);
    }
    assert_eq!(
        h, 0x411b_d351_abe2_147d,
        "kolejność albo nazwy cech się zmieniły — jeśli świadomie, \
         podnieś WERSJA_OBSERWACJI i wpisz nowy odcisk {h:#018x}"
    );
}

#[test]
fn nazwy_niosa_jednostke_albo_sa_jawne() {
    // reguła właściciela: `zmiennosc_1h_usd`, nie `vol1`
    for o in opisy() {
        assert!(o.nazwa.len() >= 5, "nazwa za krótka: {}", o.nazwa);
        assert!(
            !o.nazwa.chars().next().unwrap().is_ascii_digit(),
            "nazwa zaczyna się cyfrą: {}",
            o.nazwa
        );
    }
}

#[test]
fn nazwy_zgadzaja_sie_z_opisami_i_indeksami() {
    let n = nazwy();
    let o = opisy();
    assert_eq!(n.len(), N_CECH);
    for i in 0..N_CECH {
        assert_eq!(n[i], o[i].nazwa);
        assert_eq!(conduit_core::obserwacje::cecha(i).indeks(), i);
    }
    assert_eq!(conduit_core::obserwacje::cecha(N_CECH), C::KONIEC);
}

#[test]
fn kody_komunikatow_sa_rozne_i_stale() {
    let wszystkie = [
        Komunikat::TpHit,
        Komunikat::RiskFree,
        Komunikat::Spp,
        Komunikat::Be,
        Komunikat::OutAtEntry,
        Komunikat::Cancel,
        Komunikat::CloseAll,
        Komunikat::SlHit,
    ];
    for (i, k) in wszystkie.iter().enumerate() {
        assert_eq!(kod(*k) as usize, i);
    }
}

#[test]
fn splitmix64_zgadza_sie_z_wzorcem() {
    // reference outputs of SplitMix64 for the seeds 0 and 1
    assert_eq!(splitmix64(0), 0xe220_a839_7b1d_cdaf);
    assert_eq!(splitmix64(1), 0x910a_2dec_8902_5cc1);
}

#[test]
fn dzien_miesiaca_z_kalendarza() {
    assert_eq!(dzien_miesiaca(1_700_000_000_000), 14); // 2023-11-14
    assert_eq!(dzien_miesiaca(0), 1); // 1970-01-01
    assert_eq!(dzien_miesiaca(-1), 31); // 1969-12-31
    assert_eq!(dzien_miesiaca(951_782_400_000), 29); // 2000-02-29
    assert_eq!(dzien_miesiaca(951_868_800_000), 1); // 2000-03-01
}
