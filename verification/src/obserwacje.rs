//! Feature metadata of the observation vector: indices, names and families.
//!
//! The vector layout is frozen: trained model weights are stored by index, so
//! features are only ever appended before the random control block, and the
//! random controls always occupy the end of the vector.
use vstd::prelude::*;

verus! {

/// Version of the vector layout. Grows with EVERY change of order or meaning.
pub const WERSJA_OBSERWACJI: u32 = 1;

/// Number of purely random features at the end of the vector.
pub const N_LOSOWYCH: usize = 20;

/// Length of the observation vector.
pub const N_CECH: usize = 199;

/// Feature family.
#[derive(Debug, Clone, Copy, PartialEq, Eq, Structural)]
pub enum Rodzina {
    /// A: price dynamics of the approach to the zone
    Dynamika,
    /// B: market state
    Rynek,
    /// C: structure and trend
    Struktura,
    /// D: channel context and signal geometry
    Kanal,
    /// E: portfolio state
    Portfel,
    /// F: basket and position state
    Koszyk,
    /// control: a purely random feature, the significance threshold
    Losowa,
}

/// Deployment layer. A model may start from the core alone.
#[derive(Debug, Clone, Copy, PartialEq, Eq, Structural)]
pub enum Warstwa {
    Rdzen,
    Rozszerzenie,
    /// random control
    Kontrola,
}

/// When a feature can have a value at all.
#[derive(Debug, Clone, Copy, PartialEq, Eq, Structural)]
pub enum Dostepnosc {
    /// at a signal and during management
    Zawsze,
    /// only once a basket exists (management)
    TylkoKoszyk,
}

/// Metadata of one feature.
#[derive(Debug, Clone, Copy)]
pub struct OpisCechy {
    pub nazwa: &'static str,
    pub rodzina: Rodzina,
    pub warstwa: Warstwa,
    pub dostepnosc: Dostepnosc,
}

/// Index of a feature in the vector.
#[allow(non_camel_case_types)]
#[derive(Debug, Clone, Copy, PartialEq, Eq, Hash, Structural)]
pub enum C {
    cena_mid_usd,
    spread_usd,
    spread_do_mediany,
    zakres_5m_usd,
    zakres_60m_usd,
    zakres_240m_usd,
    zakres_1440m_usd,
    zmiennosc_5m_usd,
    zmiennosc_15m_usd,
    zmiennosc_60m_usd,
    zmiennosc_240m_usd,
    atr60_usd,
    tickow_na_minute,
    minut_ciszy_rynku,
    od_otwarcia_dnia_usd,
    do_maks_dnia_usd,
    do_min_dnia_usd,
    pozycja_w_zakresie_dnia,
    do_okraglego_10_usd,
    do_okraglego_50_usd,
    do_okraglego_100_usd,
    sesja_azja,
    sesja_londyn,
    sesja_ny,
    nakladanie_ldn_ny,
    nakladanie_azja_ldn,
    min_do_konca_sesji,
    godz_sin,
    godz_cos,
    dzien_pon,
    dzien_wt,
    dzien_sr,
    dzien_czw,
    dzien_pt,
    dzien_miesiaca,
    minut_od_polnocy,
    mom_1m_usd,
    mom_5m_usd,
    mom_15m_usd,
    mom_60m_usd,
    mom_240m_usd,
    mom_60m_w_atr,
    cena_minus_sr_60m_usd,
    cena_minus_sr_240m_usd,
    cena_minus_sr_1440m_usd,
    cena_minus_sr_tydzien_usd,
    nachylenie_sr_60m_usd_h,
    nachylenie_sr_240m_usd_h,
    nachylenie_sr_1440m_usd_h,
    do_maks_1d_usd,
    do_min_1d_usd,
    do_maks_5d_usd,
    do_min_5d_usd,
    udzial_minut_zgodnych_60m,
    cena_wzgledem_sygnalu_usd,
    n_sygnalow_1h,
    n_sygnalow_24h,
    min_od_poprzedniego_sygnalu,
    zgodnosc_kierunku_5,
    udzial_buy_24h,
    seria_wygranych,
    seria_przegranych,
    wynik_ostatnich_5_usd,
    min_od_tp_hit_kanalu,
    szerokosc_strefy_usd,
    szerokosc_strefy_w_atr,
    dystans_sl_usd,
    rr_krawedz_lepsza,
    rr_srodek_strefy,
    rr_krawedz_gorsza,
    rr_ostatni_cel_srodek,
    rozstaw_celow_usd,
    n_celow,
    tp_open,
    tag_high_risk,
    tag_may_not,
    tag_first_entry,
    jest_limit,
    jest_stop,
    cena_do_strefy_usd,
    cena_wzgl_strefy_norm,
    nakladanie_z_otwartym,
    jest_koszyk_przeciwny,
    n_koszykow_zgodnych,
    min_od_sygnalu,
    min_do_1_dotkniecia,
    predkosc_dojscia_usd_min,
    predkosc_60m_przed_sygnalem,
    luka_wejscia_usd,
    weszla_luka,
    n_dotkniec_strefy,
    max_glebokosc_usd,
    max_glebokosc_w_szer,
    przebita_na_wylot,
    min_w_strefie,
    min_od_wyjscia_ze_strefy,
    w_strefie_teraz,
    n_koszykow_otwartych,
    n_pozycji_otwartych,
    ekspozycja_lotow,
    ekspozycja_netto_lotow,
    saldo_usd,
    equity_usd,
    wolny_margines_usd,
    margines_uzyty_pct,
    wynik_dnia_zrealizowany_usd,
    wynik_niezrealizowany_usd,
    equity_do_szczytu_pct,
    equity_do_startu_dnia_pct,
    equity_do_salda_startowego_pct,
    min_od_ostatniego_zamkniecia,
    wiek_koszyka_min,
    wiek_najstarszej_pozycji_min,
    wiek_najnowszej_pozycji_min,
    lot_koszyka,
    srednia_wazona_cena_wejscia,
    cena_minus_srednia_wejscia_usd,
    zysk_koszyka_niezreal_usd,
    zrealizowane_koszyka_usd,
    wynik_koszyka_lacznie_usd,
    ryzyko_koszyka_usd,
    ryzyko_poczatkowe_koszyka_usd,
    wynik_koszyka_w_r,
    wynik_koszyka_w_r_poczatkowym,
    szczyt_wyniku_koszyka_usd,
    spadek_od_szczytu_koszyka_usd,
    udzial_szczytu_koszyka,
    min_od_szczytu_koszyka,
    warstwy_wypelnione,
    warstwy_czekajace,
    warstwy_zaplanowane,
    udzial_wypelnienia,
    udzial_ryzyka_w_rynku,
    glebokosc_wejscia_w_szer,
    do_sl_usd,
    do_sl_w_atr,
    do_tp1_usd,
    do_tp2_usd,
    do_tp3_usd,
    do_najblizszego_celu_w_atr,
    etap_tp,
    stan_armed,
    stan_working,
    stan_riskfree,
    zabezpieczony,
    n_reentries,
    n_rearms,
    min_od_kom_tp_hit,
    min_od_kom_risk_free,
    min_od_kom_spp,
    min_od_kom_be,
    min_od_kom_out_at_entry,
    min_od_kom_cancel,
    min_od_kom_close_all,
    min_od_dowolnego_komunikatu,
    byl_kom_tp_hit,
    byl_kom_risk_free,
    byl_kom_spp,
    dystans_do_be_koszyka_usd,
    dystans_do_be_koszyka_w_atr,
    rf_wykonalne,
    rf_ile_warstw_domknac,
    rf_zysk_po_domknieciu_usd,
    rf_be_reszty_usd,
    rf_lot_do_domkniecia,
    warstwa_1_wynik_usd,
    warstwa_2_wynik_usd,
    warstwa_3_wynik_usd,
    warstwa_4_wynik_usd,
    warstwa_5_wynik_usd,
    warstwa_6_wynik_usd,
    warstwa_1_cena_wejscia,
    warstwa_2_cena_wejscia,
    warstwa_3_cena_wejscia,
    warstwa_4_cena_wejscia,
    warstwa_5_cena_wejscia,
    warstwa_6_cena_wejscia,
    warstwa_najplytsza_wynik_usd,
    rozpietosc_wejsc_koszyka_usd,
    losowa_01,
    losowa_02,
    losowa_03,
    losowa_04,
    losowa_05,
    losowa_06,
    losowa_07,
    losowa_08,
    losowa_09,
    losowa_10,
    losowa_11,
    losowa_12,
    losowa_13,
    losowa_14,
    losowa_15,
    losowa_16,
    losowa_17,
    losowa_18,
    losowa_19,
    losowa_20,
    /// sentinel, not a feature
    KONIEC,
}

/// Position of a feature in the vector (the sentinel stands right after the last one).
pub open spec fn indeks_cechy(c: C) -> nat {
    match c {
        C::cena_mid_usd => 0,
        C::spread_usd => 1,
        C::spread_do_mediany => 2,
        C::zakres_5m_usd => 3,
        C::zakres_60m_usd => 4,
        C::zakres_240m_usd => 5,
        C::zakres_1440m_usd => 6,
        C::zmiennosc_5m_usd => 7,
        C::zmiennosc_15m_usd => 8,
        C::zmiennosc_60m_usd => 9,
        C::zmiennosc_240m_usd => 10,
        C::atr60_usd => 11,
        C::tickow_na_minute => 12,
        C::minut_ciszy_rynku => 13,
        C::od_otwarcia_dnia_usd => 14,
        C::do_maks_dnia_usd => 15,
        C::do_min_dnia_usd => 16,
        C::pozycja_w_zakresie_dnia => 17,
        C::do_okraglego_10_usd => 18,
        C::do_okraglego_50_usd => 19,
        C::do_okraglego_100_usd => 20,
        C::sesja_azja => 21,
        C::sesja_londyn => 22,
        C::sesja_ny => 23,
        C::nakladanie_ldn_ny => 24,
        C::nakladanie_azja_ldn => 25,
        C::min_do_konca_sesji => 26,
        C::godz_sin => 27,
        C::godz_cos => 28,
        C::dzien_pon => 29,
        C::dzien_wt => 30,
        C::dzien_sr => 31,
        C::dzien_czw => 32,
        C::dzien_pt => 33,
        C::dzien_miesiaca => 34,
        C::minut_od_polnocy => 35,
        C::mom_1m_usd => 36,
        C::mom_5m_usd => 37,
        C::mom_15m_usd => 38,
        C::mom_60m_usd => 39,
        C::mom_240m_usd => 40,
        C::mom_60m_w_atr => 41,
        C::cena_minus_sr_60m_usd => 42,
        C::cena_minus_sr_240m_usd => 43,
        C::cena_minus_sr_1440m_usd => 44,
        C::cena_minus_sr_tydzien_usd => 45,
        C::nachylenie_sr_60m_usd_h => 46,
        C::nachylenie_sr_240m_usd_h => 47,
        C::nachylenie_sr_1440m_usd_h => 48,
        C::do_maks_1d_usd => 49,
        C::do_min_1d_usd => 50,
        C::do_maks_5d_usd => 51,
        C::do_min_5d_usd => 52,
        C::udzial_minut_zgodnych_60m => 53,
        C::cena_wzgledem_sygnalu_usd => 54,
        C::n_sygnalow_1h => 55,
        C::n_sygnalow_24h => 56,
        C::min_od_poprzedniego_sygnalu => 57,
        C::zgodnosc_kierunku_5 => 58,
        C::udzial_buy_24h => 59,
        C::seria_wygranych => 60,
        C::seria_przegranych => 61,
        C::wynik_ostatnich_5_usd => 62,
        C::min_od_tp_hit_kanalu => 63,
        C::szerokosc_strefy_usd => 64,
        C::szerokosc_strefy_w_atr => 65,
        C::dystans_sl_usd => 66,
        C::rr_krawedz_lepsza => 67,
        C::rr_srodek_strefy => 68,
        C::rr_krawedz_gorsza => 69,
        C::rr_ostatni_cel_srodek => 70,
        C::rozstaw_celow_usd => 71,
        C::n_celow => 72,
        C::tp_open => 73,
        C::tag_high_risk => 74,
        C::tag_may_not => 75,
        C::tag_first_entry => 76,
        C::jest_limit => 77,
        C::jest_stop => 78,
        C::cena_do_strefy_usd => 79,
        C::cena_wzgl_strefy_norm => 80,
        C::nakladanie_z_otwartym => 81,
        C::jest_koszyk_przeciwny => 82,
        C::n_koszykow_zgodnych => 83,
        C::min_od_sygnalu => 84,
        C::min_do_1_dotkniecia => 85,
        C::predkosc_dojscia_usd_min => 86,
        C::predkosc_60m_przed_sygnalem => 87,
        C::luka_wejscia_usd => 88,
        C::weszla_luka => 89,
        C::n_dotkniec_strefy => 90,
        C::max_glebokosc_usd => 91,
        C::max_glebokosc_w_szer => 92,
        C::przebita_na_wylot => 93,
        C::min_w_strefie => 94,
        C::min_od_wyjscia_ze_strefy => 95,
        C::w_strefie_teraz => 96,
        C::n_koszykow_otwartych => 97,
        C::n_pozycji_otwartych => 98,
        C::ekspozycja_lotow => 99,
        C::ekspozycja_netto_lotow => 100,
        C::saldo_usd => 101,
        C::equity_usd => 102,
        C::wolny_margines_usd => 103,
        C::margines_uzyty_pct => 104,
        C::wynik_dnia_zrealizowany_usd => 105,
        C::wynik_niezrealizowany_usd => 106,
        C::equity_do_szczytu_pct => 107,
        C::equity_do_startu_dnia_pct => 108,
        C::equity_do_salda_startowego_pct => 109,
        C::min_od_ostatniego_zamkniecia => 110,
        C::wiek_koszyka_min => 111,
        C::wiek_najstarszej_pozycji_min => 112,
        C::wiek_najnowszej_pozycji_min => 113,
        C::lot_koszyka => 114,
        C::srednia_wazona_cena_wejscia => 115,
        C::cena_minus_srednia_wejscia_usd => 116,
        C::zysk_koszyka_niezreal_usd => 117,
        C::zrealizowane_koszyka_usd => 118,
        C::wynik_koszyka_lacznie_usd => 119,
        C::ryzyko_koszyka_usd => 120,
        C::ryzyko_poczatkowe_koszyka_usd => 121,
        C::wynik_koszyka_w_r => 122,
        C::wynik_koszyka_w_r_poczatkowym => 123,
        C::szczyt_wyniku_koszyka_usd => 124,
        C::spadek_od_szczytu_koszyka_usd => 125,
        C::udzial_szczytu_koszyka => 126,
        C::min_od_szczytu_koszyka => 127,
        C::warstwy_wypelnione => 128,
        C::warstwy_czekajace => 129,
        C::warstwy_zaplanowane => 130,
        C::udzial_wypelnienia => 131,
        C::udzial_ryzyka_w_rynku => 132,
        C::glebokosc_wejscia_w_szer => 133,
        C::do_sl_usd => 134,
        C::do_sl_w_atr => 135,
        C::do_tp1_usd => 136,
        C::do_tp2_usd => 137,
        C::do_tp3_usd => 138,
        C::do_najblizszego_celu_w_atr => 139,
        C::etap_tp => 140,
        C::stan_armed => 141,
        C::stan_working => 142,
        C::stan_riskfree => 143,
        C::zabezpieczony => 144,
        C::n_reentries => 145,
        C::n_rearms => 146,
        C::min_od_kom_tp_hit => 147,
        C::min_od_kom_risk_free => 148,
        C::min_od_kom_spp => 149,
        C::min_od_kom_be => 150,
        C::min_od_kom_out_at_entry => 151,
        C::min_od_kom_cancel => 152,
        C::min_od_kom_close_all => 153,
        C::min_od_dowolnego_komunikatu => 154,
        C::byl_kom_tp_hit => 155,
        C::byl_kom_risk_free => 156,
        C::byl_kom_spp => 157,
        C::dystans_do_be_koszyka_usd => 158,
        C::dystans_do_be_koszyka_w_atr => 159,
        C::rf_wykonalne => 160,
        C::rf_ile_warstw_domknac => 161,
        C::rf_zysk_po_domknieciu_usd => 162,
        C::rf_be_reszty_usd => 163,
        C::rf_lot_do_domkniecia => 164,
        C::warstwa_1_wynik_usd => 165,
        C::warstwa_2_wynik_usd => 166,
        C::warstwa_3_wynik_usd => 167,
        C::warstwa_4_wynik_usd => 168,
        C::warstwa_5_wynik_usd => 169,
        C::warstwa_6_wynik_usd => 170,
        C::warstwa_1_cena_wejscia => 171,
        C::warstwa_2_cena_wejscia => 172,
        C::warstwa_3_cena_wejscia => 173,
        C::warstwa_4_cena_wejscia => 174,
        C::warstwa_5_cena_wejscia => 175,
        C::warstwa_6_cena_wejscia => 176,
        C::warstwa_najplytsza_wynik_usd => 177,
        C::rozpietosc_wejsc_koszyka_usd => 178,
        C::losowa_01 => 179,
        C::losowa_02 => 180,
        C::losowa_03 => 181,
        C::losowa_04 => 182,
        C::losowa_05 => 183,
        C::losowa_06 => 184,
        C::losowa_07 => 185,
        C::losowa_08 => 186,
        C::losowa_09 => 187,
        C::losowa_10 => 188,
        C::losowa_11 => 189,
        C::losowa_12 => 190,
        C::losowa_13 => 191,
        C::losowa_14 => 192,
        C::losowa_15 => 193,
        C::losowa_16 => 194,
        C::losowa_17 => 195,
        C::losowa_18 => 196,
        C::losowa_19 => 197,
        C::losowa_20 => 198,
        C::KONIEC => 199,
    }
}

/// The feature at a position of the vector (the sentinel past its end).
pub open spec fn cecha_nr(i: int) -> C {
    if i == 0 {
        C::cena_mid_usd
    } else if i == 1 {
        C::spread_usd
    } else if i == 2 {
        C::spread_do_mediany
    } else if i == 3 {
        C::zakres_5m_usd
    } else if i == 4 {
        C::zakres_60m_usd
    } else if i == 5 {
        C::zakres_240m_usd
    } else if i == 6 {
        C::zakres_1440m_usd
    } else if i == 7 {
        C::zmiennosc_5m_usd
    } else if i == 8 {
        C::zmiennosc_15m_usd
    } else if i == 9 {
        C::zmiennosc_60m_usd
    } else if i == 10 {
        C::zmiennosc_240m_usd
    } else if i == 11 {
        C::atr60_usd
    } else if i == 12 {
        C::tickow_na_minute
    } else if i == 13 {
        C::minut_ciszy_rynku
    } else if i == 14 {
        C::od_otwarcia_dnia_usd
    } else if i == 15 {
        C::do_maks_dnia_usd
    } else if i == 16 {
        C::do_min_dnia_usd
    } else if i == 17 {
        C::pozycja_w_zakresie_dnia
    } else if i == 18 {
        C::do_okraglego_10_usd
    } else if i == 19 {
        C::do_okraglego_50_usd
    } else if i == 20 {
        C::do_okraglego_100_usd
    } else if i == 21 {
        C::sesja_azja
    } else if i == 22 {
        C::sesja_londyn
    } else if i == 23 {
        C::sesja_ny
    } else if i == 24 {
        C::nakladanie_ldn_ny
    } else if i == 25 {
        C::nakladanie_azja_ldn
    } else if i == 26 {
        C::min_do_konca_sesji
    } else if i == 27 {
        C::godz_sin
    } else if i == 28 {
        C::godz_cos
    } else if i == 29 {
        C::dzien_pon
    } else if i == 30 {
        C::dzien_wt
    } else if i == 31 {
        C::dzien_sr
    } else if i == 32 {
        C::dzien_czw
    } else if i == 33 {
        C::dzien_pt
    } else if i == 34 {
        C::dzien_miesiaca
    } else if i == 35 {
        C::minut_od_polnocy
    } else if i == 36 {
        C::mom_1m_usd
    } else if i == 37 {
        C::mom_5m_usd
    } else if i == 38 {
        C::mom_15m_usd
    } else if i == 39 {
        C::mom_60m_usd
    } else if i == 40 {
        C::mom_240m_usd
    } else if i == 41 {
        C::mom_60m_w_atr
    } else if i == 42 {
        C::cena_minus_sr_60m_usd
    } else if i == 43 {
        C::cena_minus_sr_240m_usd
    } else if i == 44 {
        C::cena_minus_sr_1440m_usd
    } else if i == 45 {
        C::cena_minus_sr_tydzien_usd
    } else if i == 46 {
        C::nachylenie_sr_60m_usd_h
    } else if i == 47 {
        C::nachylenie_sr_240m_usd_h
    } else if i == 48 {
        C::nachylenie_sr_1440m_usd_h
    } else if i == 49 {
        C::do_maks_1d_usd
    } else if i == 50 {
        C::do_min_1d_usd
    } else if i == 51 {
        C::do_maks_5d_usd
    } else if i == 52 {
        C::do_min_5d_usd
    } else if i == 53 {
        C::udzial_minut_zgodnych_60m
    } else if i == 54 {
        C::cena_wzgledem_sygnalu_usd
    } else if i == 55 {
        C::n_sygnalow_1h
    } else if i == 56 {
        C::n_sygnalow_24h
    } else if i == 57 {
        C::min_od_poprzedniego_sygnalu
    } else if i == 58 {
        C::zgodnosc_kierunku_5
    } else if i == 59 {
        C::udzial_buy_24h
    } else if i == 60 {
        C::seria_wygranych
    } else if i == 61 {
        C::seria_przegranych
    } else if i == 62 {
        C::wynik_ostatnich_5_usd
    } else if i == 63 {
        C::min_od_tp_hit_kanalu
    } else if i == 64 {
        C::szerokosc_strefy_usd
    } else if i == 65 {
        C::szerokosc_strefy_w_atr
    } else if i == 66 {
        C::dystans_sl_usd
    } else if i == 67 {
        C::rr_krawedz_lepsza
    } else if i == 68 {
        C::rr_srodek_strefy
    } else if i == 69 {
        C::rr_krawedz_gorsza
    } else if i == 70 {
        C::rr_ostatni_cel_srodek
    } else if i == 71 {
        C::rozstaw_celow_usd
    } else if i == 72 {
        C::n_celow
    } else if i == 73 {
        C::tp_open
    } else if i == 74 {
        C::tag_high_risk
    } else if i == 75 {
        C::tag_may_not
    } else if i == 76 {
        C::tag_first_entry
    } else if i == 77 {
        C::jest_limit
    } else if i == 78 {
        C::jest_stop
    } else if i == 79 {
        C::cena_do_strefy_usd
    } else if i == 80 {
        C::cena_wzgl_strefy_norm
    } else if i == 81 {
        C::nakladanie_z_otwartym
    } else if i == 82 {
        C::jest_koszyk_przeciwny
    } else if i == 83 {
        C::n_koszykow_zgodnych
    } else if i == 84 {
        C::min_od_sygnalu
    } else if i == 85 {
        C::min_do_1_dotkniecia
    } else if i == 86 {
        C::predkosc_dojscia_usd_min
    } else if i == 87 {
        C::predkosc_60m_przed_sygnalem
    } else if i == 88 {
        C::luka_wejscia_usd
    } else if i == 89 {
        C::weszla_luka
    } else if i == 90 {
        C::n_dotkniec_strefy
    } else if i == 91 {
        C::max_glebokosc_usd
    } else if i == 92 {
        C::max_glebokosc_w_szer
    } else if i == 93 {
        C::przebita_na_wylot
    } else if i == 94 {
        C::min_w_strefie
    } else if i == 95 {
        C::min_od_wyjscia_ze_strefy
    } else if i == 96 {
        C::w_strefie_teraz
    } else if i == 97 {
        C::n_koszykow_otwartych
    } else if i == 98 {
        C::n_pozycji_otwartych
    } else if i == 99 {
        C::ekspozycja_lotow
    } else if i == 100 {
        C::ekspozycja_netto_lotow
    } else if i == 101 {
        C::saldo_usd
    } else if i == 102 {
        C::equity_usd
    } else if i == 103 {
        C::wolny_margines_usd
    } else if i == 104 {
        C::margines_uzyty_pct
    } else if i == 105 {
        C::wynik_dnia_zrealizowany_usd
    } else if i == 106 {
        C::wynik_niezrealizowany_usd
    } else if i == 107 {
        C::equity_do_szczytu_pct
    } else if i == 108 {
        C::equity_do_startu_dnia_pct
    } else if i == 109 {
        C::equity_do_salda_startowego_pct
    } else if i == 110 {
        C::min_od_ostatniego_zamkniecia
    } else if i == 111 {
        C::wiek_koszyka_min
    } else if i == 112 {
        C::wiek_najstarszej_pozycji_min
    } else if i == 113 {
        C::wiek_najnowszej_pozycji_min
    } else if i == 114 {
        C::lot_koszyka
    } else if i == 115 {
        C::srednia_wazona_cena_wejscia
    } else if i == 116 {
        C::cena_minus_srednia_wejscia_usd
    } else if i == 117 {
        C::zysk_koszyka_niezreal_usd
    } else if i == 118 {
        C::zrealizowane_koszyka_usd
    } else if i == 119 {
        C::wynik_koszyka_lacznie_usd
    } else if i == 120 {
        C::ryzyko_koszyka_usd
    } else if i == 121 {
        C::ryzyko_poczatkowe_koszyka_usd
    } else if i == 122 {
        C::wynik_koszyka_w_r
    } else if i == 123 {
        C::wynik_koszyka_w_r_poczatkowym
    } else if i == 124 {
        C::szczyt_wyniku_koszyka_usd
    } else if i == 125 {
        C::spadek_od_szczytu_koszyka_usd
    } else if i == 126 {
        C::udzial_szczytu_koszyka
    } else if i == 127 {
        C::min_od_szczytu_koszyka
    } else if i == 128 {
        C::warstwy_wypelnione
    } else if i == 129 {
        C::warstwy_czekajace
    } else if i == 130 {
        C::warstwy_zaplanowane
    } else if i == 131 {
        C::udzial_wypelnienia
    } else if i == 132 {
        C::udzial_ryzyka_w_rynku
    } else if i == 133 {
        C::glebokosc_wejscia_w_szer
    } else if i == 134 {
        C::do_sl_usd
    } else if i == 135 {
        C::do_sl_w_atr
    } else if i == 136 {
        C::do_tp1_usd
    } else if i == 137 {
        C::do_tp2_usd
    } else if i == 138 {
        C::do_tp3_usd
    } else if i == 139 {
        C::do_najblizszego_celu_w_atr
    } else if i == 140 {
        C::etap_tp
    } else if i == 141 {
        C::stan_armed
    } else if i == 142 {
        C::stan_working
    } else if i == 143 {
        C::stan_riskfree
    } else if i == 144 {
        C::zabezpieczony
    } else if i == 145 {
        C::n_reentries
    } else if i == 146 {
        C::n_rearms
    } else if i == 147 {
        C::min_od_kom_tp_hit
    } else if i == 148 {
        C::min_od_kom_risk_free
    } else if i == 149 {
        C::min_od_kom_spp
    } else if i == 150 {
        C::min_od_kom_be
    } else if i == 151 {
        C::min_od_kom_out_at_entry
    } else if i == 152 {
        C::min_od_kom_cancel
    } else if i == 153 {
        C::min_od_kom_close_all
    } else if i == 154 {
        C::min_od_dowolnego_komunikatu
    } else if i == 155 {
        C::byl_kom_tp_hit
    } else if i == 156 {
        C::byl_kom_risk_free
    } else if i == 157 {
        C::byl_kom_spp
    } else if i == 158 {
        C::dystans_do_be_koszyka_usd
    } else if i == 159 {
        C::dystans_do_be_koszyka_w_atr
    } else if i == 160 {
        C::rf_wykonalne
    } else if i == 161 {
        C::rf_ile_warstw_domknac
    } else if i == 162 {
        C::rf_zysk_po_domknieciu_usd
    } else if i == 163 {
        C::rf_be_reszty_usd
    } else if i == 164 {
        C::rf_lot_do_domkniecia
    } else if i == 165 {
        C::warstwa_1_wynik_usd
    } else if i == 166 {
        C::warstwa_2_wynik_usd
    } else if i == 167 {
        C::warstwa_3_wynik_usd
    } else if i == 168 {
        C::warstwa_4_wynik_usd
    } else if i == 169 {
        C::warstwa_5_wynik_usd
    } else if i == 170 {
        C::warstwa_6_wynik_usd
    } else if i == 171 {
        C::warstwa_1_cena_wejscia
    } else if i == 172 {
        C::warstwa_2_cena_wejscia
    } else if i == 173 {
        C::warstwa_3_cena_wejscia
    } else if i == 174 {
        C::warstwa_4_cena_wejscia
    } else if i == 175 {
        C::warstwa_5_cena_wejscia
    } else if i == 176 {
        C::warstwa_6_cena_wejscia
    } else if i == 177 {
        C::warstwa_najplytsza_wynik_usd
    } else if i == 178 {
        C::rozpietosc_wejsc_koszyka_usd
    } else if i == 179 {
        C::losowa_01
    } else if i == 180 {
        C::losowa_02
    } else if i == 181 {
        C::losowa_03
    } else if i == 182 {
        C::losowa_04
    } else if i == 183 {
        C::losowa_05
    } else if i == 184 {
        C::losowa_06
    } else if i == 185 {
        C::losowa_07
    } else if i == 186 {
        C::losowa_08
    } else if i == 187 {
        C::losowa_09
    } else if i == 188 {
        C::losowa_10
    } else if i == 189 {
        C::losowa_11
    } else if i == 190 {
        C::losowa_12
    } else if i == 191 {
        C::losowa_13
    } else if i == 192 {
        C::losowa_14
    } else if i == 193 {
        C::losowa_15
    } else if i == 194 {
        C::losowa_16
    } else if i == 195 {
        C::losowa_17
    } else if i == 196 {
        C::losowa_18
    } else if i == 197 {
        C::losowa_19
    } else if i == 198 {
        C::losowa_20
    } else {
        C::KONIEC
    }
}

/// Name, family, layer and availability of a feature.
pub open spec fn opis_cechy(c: C) -> (Seq<char>, Rodzina, Warstwa, Dostepnosc) {
    match c {
        C::cena_mid_usd => ("cena_mid_usd"@, Rodzina::Rynek, Warstwa::Rozszerzenie, Dostepnosc::Zawsze),
        C::spread_usd => ("spread_usd"@, Rodzina::Rynek, Warstwa::Rdzen, Dostepnosc::Zawsze),
        C::spread_do_mediany => ("spread_do_mediany"@, Rodzina::Rynek, Warstwa::Rdzen, Dostepnosc::Zawsze),
        C::zakres_5m_usd => ("zakres_5m_usd"@, Rodzina::Rynek, Warstwa::Rozszerzenie, Dostepnosc::Zawsze),
        C::zakres_60m_usd => ("zakres_60m_usd"@, Rodzina::Rynek, Warstwa::Rdzen, Dostepnosc::Zawsze),
        C::zakres_240m_usd => ("zakres_240m_usd"@, Rodzina::Rynek, Warstwa::Rozszerzenie, Dostepnosc::Zawsze),
        C::zakres_1440m_usd => ("zakres_1440m_usd"@, Rodzina::Rynek, Warstwa::Rozszerzenie, Dostepnosc::Zawsze),
        C::zmiennosc_5m_usd => ("zmiennosc_5m_usd"@, Rodzina::Rynek, Warstwa::Rozszerzenie, Dostepnosc::Zawsze),
        C::zmiennosc_15m_usd => ("zmiennosc_15m_usd"@, Rodzina::Rynek, Warstwa::Rdzen, Dostepnosc::Zawsze),
        C::zmiennosc_60m_usd => ("zmiennosc_60m_usd"@, Rodzina::Rynek, Warstwa::Rdzen, Dostepnosc::Zawsze),
        C::zmiennosc_240m_usd => ("zmiennosc_240m_usd"@, Rodzina::Rynek, Warstwa::Rozszerzenie, Dostepnosc::Zawsze),
        C::atr60_usd => ("atr60_usd"@, Rodzina::Rynek, Warstwa::Rdzen, Dostepnosc::Zawsze),
        C::tickow_na_minute => ("tickow_na_minute"@, Rodzina::Rynek, Warstwa::Rozszerzenie, Dostepnosc::Zawsze),
        C::minut_ciszy_rynku => ("minut_ciszy_rynku"@, Rodzina::Rynek, Warstwa::Rozszerzenie, Dostepnosc::Zawsze),
        C::od_otwarcia_dnia_usd => ("od_otwarcia_dnia_usd"@, Rodzina::Rynek, Warstwa::Rozszerzenie, Dostepnosc::Zawsze),
        C::do_maks_dnia_usd => ("do_maks_dnia_usd"@, Rodzina::Rynek, Warstwa::Rozszerzenie, Dostepnosc::Zawsze),
        C::do_min_dnia_usd => ("do_min_dnia_usd"@, Rodzina::Rynek, Warstwa::Rozszerzenie, Dostepnosc::Zawsze),
        C::pozycja_w_zakresie_dnia => ("pozycja_w_zakresie_dnia"@, Rodzina::Rynek, Warstwa::Rozszerzenie, Dostepnosc::Zawsze),
        C::do_okraglego_10_usd => ("do_okraglego_10_usd"@, Rodzina::Rynek, Warstwa::Rozszerzenie, Dostepnosc::Zawsze),
        C::do_okraglego_50_usd => ("do_okraglego_50_usd"@, Rodzina::Rynek, Warstwa::Rozszerzenie, Dostepnosc::Zawsze),
        C::do_okraglego_100_usd => ("do_okraglego_100_usd"@, Rodzina::Rynek, Warstwa::Rozszerzenie, Dostepnosc::Zawsze),
        C::sesja_azja => ("sesja_azja"@, Rodzina::Rynek, Warstwa::Rozszerzenie, Dostepnosc::Zawsze),
        C::sesja_londyn => ("sesja_londyn"@, Rodzina::Rynek, Warstwa::Rdzen, Dostepnosc::Zawsze),
        C::sesja_ny => ("sesja_ny"@, Rodzina::Rynek, Warstwa::Rozszerzenie, Dostepnosc::Zawsze),
        C::nakladanie_ldn_ny => ("nakladanie_ldn_ny"@, Rodzina::Rynek, Warstwa::Rozszerzenie, Dostepnosc::Zawsze),
        C::nakladanie_azja_ldn => ("nakladanie_azja_ldn"@, Rodzina::Rynek, Warstwa::Rozszerzenie, Dostepnosc::Zawsze),
        C::min_do_konca_sesji => ("min_do_konca_sesji"@, Rodzina::Rynek, Warstwa::Rozszerzenie, Dostepnosc::Zawsze),
        C::godz_sin => ("godz_sin"@, Rodzina::Rynek, Warstwa::Rdzen, Dostepnosc::Zawsze),
        C::godz_cos => ("godz_cos"@, Rodzina::Rynek, Warstwa::Rdzen, Dostepnosc::Zawsze),
        C::dzien_pon => ("dzien_pon"@, Rodzina::Rynek, Warstwa::Rozszerzenie, Dostepnosc::Zawsze),
        C::dzien_wt => ("dzien_wt"@, Rodzina::Rynek, Warstwa::Rozszerzenie, Dostepnosc::Zawsze),
        C::dzien_sr => ("dzien_sr"@, Rodzina::Rynek, Warstwa::Rozszerzenie, Dostepnosc::Zawsze),
        C::dzien_czw => ("dzien_czw"@, Rodzina::Rynek, Warstwa::Rozszerzenie, Dostepnosc::Zawsze),
        C::dzien_pt => ("dzien_pt"@, Rodzina::Rynek, Warstwa::Rozszerzenie, Dostepnosc::Zawsze),
        C::dzien_miesiaca => ("dzien_miesiaca"@, Rodzina::Rynek, Warstwa::Rozszerzenie, Dostepnosc::Zawsze),
        C::minut_od_polnocy => ("minut_od_polnocy"@, Rodzina::Rynek, Warstwa::Rozszerzenie, Dostepnosc::Zawsze),
        C::mom_1m_usd => ("mom_1m_usd"@, Rodzina::Struktura, Warstwa::Rdzen, Dostepnosc::Zawsze),
        C::mom_5m_usd => ("mom_5m_usd"@, Rodzina::Struktura, Warstwa::Rdzen, Dostepnosc::Zawsze),
        C::mom_15m_usd => ("mom_15m_usd"@, Rodzina::Struktura, Warstwa::Rozszerzenie, Dostepnosc::Zawsze),
        C::mom_60m_usd => ("mom_60m_usd"@, Rodzina::Struktura, Warstwa::Rdzen, Dostepnosc::Zawsze),
        C::mom_240m_usd => ("mom_240m_usd"@, Rodzina::Struktura, Warstwa::Rozszerzenie, Dostepnosc::Zawsze),
        C::mom_60m_w_atr => ("mom_60m_w_atr"@, Rodzina::Struktura, Warstwa::Rdzen, Dostepnosc::Zawsze),
        C::cena_minus_sr_60m_usd => ("cena_minus_sr_60m_usd"@, Rodzina::Struktura, Warstwa::Rdzen, Dostepnosc::Zawsze),
        C::cena_minus_sr_240m_usd => ("cena_minus_sr_240m_usd"@, Rodzina::Struktura, Warstwa::Rozszerzenie, Dostepnosc::Zawsze),
        C::cena_minus_sr_1440m_usd => ("cena_minus_sr_1440m_usd"@, Rodzina::Struktura, Warstwa::Rozszerzenie, Dostepnosc::Zawsze),
        C::cena_minus_sr_tydzien_usd => ("cena_minus_sr_tydzien_usd"@, Rodzina::Struktura, Warstwa::Rozszerzenie, Dostepnosc::Zawsze),
        C::nachylenie_sr_60m_usd_h => ("nachylenie_sr_60m_usd_h"@, Rodzina::Struktura, Warstwa::Rozszerzenie, Dostepnosc::Zawsze),
        C::nachylenie_sr_240m_usd_h => ("nachylenie_sr_240m_usd_h"@, Rodzina::Struktura, Warstwa::Rozszerzenie, Dostepnosc::Zawsze),
        C::nachylenie_sr_1440m_usd_h => ("nachylenie_sr_1440m_usd_h"@, Rodzina::Struktura, Warstwa::Rozszerzenie, Dostepnosc::Zawsze),
        C::do_maks_1d_usd => ("do_maks_1d_usd"@, Rodzina::Struktura, Warstwa::Rozszerzenie, Dostepnosc::Zawsze),
        C::do_min_1d_usd => ("do_min_1d_usd"@, Rodzina::Struktura, Warstwa::Rozszerzenie, Dostepnosc::Zawsze),
        C::do_maks_5d_usd => ("do_maks_5d_usd"@, Rodzina::Struktura, Warstwa::Rozszerzenie, Dostepnosc::Zawsze),
        C::do_min_5d_usd => ("do_min_5d_usd"@, Rodzina::Struktura, Warstwa::Rozszerzenie, Dostepnosc::Zawsze),
        C::udzial_minut_zgodnych_60m => ("udzial_minut_zgodnych_60m"@, Rodzina::Struktura, Warstwa::Rozszerzenie, Dostepnosc::Zawsze),
        C::cena_wzgledem_sygnalu_usd => ("cena_wzgledem_sygnalu_usd"@, Rodzina::Struktura, Warstwa::Rdzen, Dostepnosc::TylkoKoszyk),
        C::n_sygnalow_1h => ("n_sygnalow_1h"@, Rodzina::Kanal, Warstwa::Rozszerzenie, Dostepnosc::Zawsze),
        C::n_sygnalow_24h => ("n_sygnalow_24h"@, Rodzina::Kanal, Warstwa::Rdzen, Dostepnosc::Zawsze),
        C::min_od_poprzedniego_sygnalu => ("min_od_poprzedniego_sygnalu"@, Rodzina::Kanal, Warstwa::Rozszerzenie, Dostepnosc::Zawsze),
        C::zgodnosc_kierunku_5 => ("zgodnosc_kierunku_5"@, Rodzina::Kanal, Warstwa::Rozszerzenie, Dostepnosc::Zawsze),
        C::udzial_buy_24h => ("udzial_buy_24h"@, Rodzina::Kanal, Warstwa::Rozszerzenie, Dostepnosc::Zawsze),
        C::seria_wygranych => ("seria_wygranych"@, Rodzina::Kanal, Warstwa::Rozszerzenie, Dostepnosc::Zawsze),
        C::seria_przegranych => ("seria_przegranych"@, Rodzina::Kanal, Warstwa::Rozszerzenie, Dostepnosc::Zawsze),
        C::wynik_ostatnich_5_usd => ("wynik_ostatnich_5_usd"@, Rodzina::Kanal, Warstwa::Rozszerzenie, Dostepnosc::Zawsze),
        C::min_od_tp_hit_kanalu => ("min_od_tp_hit_kanalu"@, Rodzina::Kanal, Warstwa::Rozszerzenie, Dostepnosc::Zawsze),
        C::szerokosc_strefy_usd => ("szerokosc_strefy_usd"@, Rodzina::Kanal, Warstwa::Rdzen, Dostepnosc::Zawsze),
        C::szerokosc_strefy_w_atr => ("szerokosc_strefy_w_atr"@, Rodzina::Kanal, Warstwa::Rozszerzenie, Dostepnosc::Zawsze),
        C::dystans_sl_usd => ("dystans_sl_usd"@, Rodzina::Kanal, Warstwa::Rdzen, Dostepnosc::Zawsze),
        C::rr_krawedz_lepsza => ("rr_krawedz_lepsza"@, Rodzina::Kanal, Warstwa::Rdzen, Dostepnosc::Zawsze),
        C::rr_srodek_strefy => ("rr_srodek_strefy"@, Rodzina::Kanal, Warstwa::Rozszerzenie, Dostepnosc::Zawsze),
        C::rr_krawedz_gorsza => ("rr_krawedz_gorsza"@, Rodzina::Kanal, Warstwa::Rozszerzenie, Dostepnosc::Zawsze),
        C::rr_ostatni_cel_srodek => ("rr_ostatni_cel_srodek"@, Rodzina::Kanal, Warstwa::Rozszerzenie, Dostepnosc::Zawsze),
        C::rozstaw_celow_usd => ("rozstaw_celow_usd"@, Rodzina::Kanal, Warstwa::Rozszerzenie, Dostepnosc::Zawsze),
        C::n_celow => ("n_celow"@, Rodzina::Kanal, Warstwa::Rozszerzenie, Dostepnosc::Zawsze),
        C::tp_open => ("tp_open"@, Rodzina::Kanal, Warstwa::Rozszerzenie, Dostepnosc::Zawsze),
        C::tag_high_risk => ("tag_high_risk"@, Rodzina::Kanal, Warstwa::Rozszerzenie, Dostepnosc::Zawsze),
        C::tag_may_not => ("tag_may_not"@, Rodzina::Kanal, Warstwa::Rozszerzenie, Dostepnosc::Zawsze),
        C::tag_first_entry => ("tag_first_entry"@, Rodzina::Kanal, Warstwa::Rozszerzenie, Dostepnosc::Zawsze),
        C::jest_limit => ("jest_limit"@, Rodzina::Kanal, Warstwa::Rdzen, Dostepnosc::Zawsze),
        C::jest_stop => ("jest_stop"@, Rodzina::Kanal, Warstwa::Rozszerzenie, Dostepnosc::Zawsze),
        C::cena_do_strefy_usd => ("cena_do_strefy_usd"@, Rodzina::Kanal, Warstwa::Rdzen, Dostepnosc::Zawsze),
        C::cena_wzgl_strefy_norm => ("cena_wzgl_strefy_norm"@, Rodzina::Kanal, Warstwa::Rdzen, Dostepnosc::Zawsze),
        C::nakladanie_z_otwartym => ("nakladanie_z_otwartym"@, Rodzina::Kanal, Warstwa::Rozszerzenie, Dostepnosc::Zawsze),
        C::jest_koszyk_przeciwny => ("jest_koszyk_przeciwny"@, Rodzina::Kanal, Warstwa::Rozszerzenie, Dostepnosc::Zawsze),
        C::n_koszykow_zgodnych => ("n_koszykow_zgodnych"@, Rodzina::Kanal, Warstwa::Rozszerzenie, Dostepnosc::Zawsze),
        C::min_od_sygnalu => ("min_od_sygnalu"@, Rodzina::Dynamika, Warstwa::Rdzen, Dostepnosc::TylkoKoszyk),
        C::min_do_1_dotkniecia => ("min_do_1_dotkniecia"@, Rodzina::Dynamika, Warstwa::Rdzen, Dostepnosc::TylkoKoszyk),
        C::predkosc_dojscia_usd_min => ("predkosc_dojscia_usd_min"@, Rodzina::Dynamika, Warstwa::Rdzen, Dostepnosc::TylkoKoszyk),
        C::predkosc_60m_przed_sygnalem => ("predkosc_60m_przed_sygnalem"@, Rodzina::Dynamika, Warstwa::Rozszerzenie, Dostepnosc::TylkoKoszyk),
        C::luka_wejscia_usd => ("luka_wejscia_usd"@, Rodzina::Dynamika, Warstwa::Rozszerzenie, Dostepnosc::TylkoKoszyk),
        C::weszla_luka => ("weszla_luka"@, Rodzina::Dynamika, Warstwa::Rozszerzenie, Dostepnosc::TylkoKoszyk),
        C::n_dotkniec_strefy => ("n_dotkniec_strefy"@, Rodzina::Dynamika, Warstwa::Rdzen, Dostepnosc::TylkoKoszyk),
        C::max_glebokosc_usd => ("max_glebokosc_usd"@, Rodzina::Dynamika, Warstwa::Rozszerzenie, Dostepnosc::TylkoKoszyk),
        C::max_glebokosc_w_szer => ("max_glebokosc_w_szer"@, Rodzina::Dynamika, Warstwa::Rdzen, Dostepnosc::TylkoKoszyk),
        C::przebita_na_wylot => ("przebita_na_wylot"@, Rodzina::Dynamika, Warstwa::Rozszerzenie, Dostepnosc::TylkoKoszyk),
        C::min_w_strefie => ("min_w_strefie"@, Rodzina::Dynamika, Warstwa::Rozszerzenie, Dostepnosc::TylkoKoszyk),
        C::min_od_wyjscia_ze_strefy => ("min_od_wyjscia_ze_strefy"@, Rodzina::Dynamika, Warstwa::Rozszerzenie, Dostepnosc::TylkoKoszyk),
        C::w_strefie_teraz => ("w_strefie_teraz"@, Rodzina::Dynamika, Warstwa::Rdzen, Dostepnosc::TylkoKoszyk),
        C::n_koszykow_otwartych => ("n_koszykow_otwartych"@, Rodzina::Portfel, Warstwa::Rdzen, Dostepnosc::Zawsze),
        C::n_pozycji_otwartych => ("n_pozycji_otwartych"@, Rodzina::Portfel, Warstwa::Rdzen, Dostepnosc::Zawsze),
        C::ekspozycja_lotow => ("ekspozycja_lotow"@, Rodzina::Portfel, Warstwa::Rdzen, Dostepnosc::Zawsze),
        C::ekspozycja_netto_lotow => ("ekspozycja_netto_lotow"@, Rodzina::Portfel, Warstwa::Rozszerzenie, Dostepnosc::Zawsze),
        C::saldo_usd => ("saldo_usd"@, Rodzina::Portfel, Warstwa::Rdzen, Dostepnosc::Zawsze),
        C::equity_usd => ("equity_usd"@, Rodzina::Portfel, Warstwa::Rdzen, Dostepnosc::Zawsze),
        C::wolny_margines_usd => ("wolny_margines_usd"@, Rodzina::Portfel, Warstwa::Rdzen, Dostepnosc::Zawsze),
        C::margines_uzyty_pct => ("margines_uzyty_pct"@, Rodzina::Portfel, Warstwa::Rdzen, Dostepnosc::Zawsze),
        C::wynik_dnia_zrealizowany_usd => ("wynik_dnia_zrealizowany_usd"@, Rodzina::Portfel, Warstwa::Rdzen, Dostepnosc::Zawsze),
        C::wynik_niezrealizowany_usd => ("wynik_niezrealizowany_usd"@, Rodzina::Portfel, Warstwa::Rdzen, Dostepnosc::Zawsze),
        C::equity_do_szczytu_pct => ("equity_do_szczytu_pct"@, Rodzina::Portfel, Warstwa::Rdzen, Dostepnosc::Zawsze),
        C::equity_do_startu_dnia_pct => ("equity_do_startu_dnia_pct"@, Rodzina::Portfel, Warstwa::Rozszerzenie, Dostepnosc::Zawsze),
        C::equity_do_salda_startowego_pct => ("equity_do_salda_startowego_pct"@, Rodzina::Portfel, Warstwa::Rozszerzenie, Dostepnosc::Zawsze),
        C::min_od_ostatniego_zamkniecia => ("min_od_ostatniego_zamkniecia"@, Rodzina::Portfel, Warstwa::Rozszerzenie, Dostepnosc::Zawsze),
        C::wiek_koszyka_min => ("wiek_koszyka_min"@, Rodzina::Koszyk, Warstwa::Rdzen, Dostepnosc::TylkoKoszyk),
        C::wiek_najstarszej_pozycji_min => ("wiek_najstarszej_pozycji_min"@, Rodzina::Koszyk, Warstwa::Rdzen, Dostepnosc::TylkoKoszyk),
        C::wiek_najnowszej_pozycji_min => ("wiek_najnowszej_pozycji_min"@, Rodzina::Koszyk, Warstwa::Rozszerzenie, Dostepnosc::TylkoKoszyk),
        C::lot_koszyka => ("lot_koszyka"@, Rodzina::Koszyk, Warstwa::Rdzen, Dostepnosc::TylkoKoszyk),
        C::srednia_wazona_cena_wejscia => ("srednia_wazona_cena_wejscia"@, Rodzina::Koszyk, Warstwa::Rdzen, Dostepnosc::TylkoKoszyk),
        C::cena_minus_srednia_wejscia_usd => ("cena_minus_srednia_wejscia_usd"@, Rodzina::Koszyk, Warstwa::Rdzen, Dostepnosc::TylkoKoszyk),
        C::zysk_koszyka_niezreal_usd => ("zysk_koszyka_niezreal_usd"@, Rodzina::Koszyk, Warstwa::Rdzen, Dostepnosc::TylkoKoszyk),
        C::zrealizowane_koszyka_usd => ("zrealizowane_koszyka_usd"@, Rodzina::Koszyk, Warstwa::Rdzen, Dostepnosc::TylkoKoszyk),
        C::wynik_koszyka_lacznie_usd => ("wynik_koszyka_lacznie_usd"@, Rodzina::Koszyk, Warstwa::Rdzen, Dostepnosc::TylkoKoszyk),
        C::ryzyko_koszyka_usd => ("ryzyko_koszyka_usd"@, Rodzina::Koszyk, Warstwa::Rdzen, Dostepnosc::TylkoKoszyk),
        C::ryzyko_poczatkowe_koszyka_usd => ("ryzyko_poczatkowe_koszyka_usd"@, Rodzina::Koszyk, Warstwa::Rdzen, Dostepnosc::TylkoKoszyk),
        C::wynik_koszyka_w_r => ("wynik_koszyka_w_r"@, Rodzina::Koszyk, Warstwa::Rdzen, Dostepnosc::TylkoKoszyk),
        C::wynik_koszyka_w_r_poczatkowym => ("wynik_koszyka_w_r_poczatkowym"@, Rodzina::Koszyk, Warstwa::Rdzen, Dostepnosc::TylkoKoszyk),
        C::szczyt_wyniku_koszyka_usd => ("szczyt_wyniku_koszyka_usd"@, Rodzina::Koszyk, Warstwa::Rdzen, Dostepnosc::TylkoKoszyk),
        C::spadek_od_szczytu_koszyka_usd => ("spadek_od_szczytu_koszyka_usd"@, Rodzina::Koszyk, Warstwa::Rdzen, Dostepnosc::TylkoKoszyk),
        C::udzial_szczytu_koszyka => ("udzial_szczytu_koszyka"@, Rodzina::Koszyk, Warstwa::Rdzen, Dostepnosc::TylkoKoszyk),
        C::min_od_szczytu_koszyka => ("min_od_szczytu_koszyka"@, Rodzina::Koszyk, Warstwa::Rdzen, Dostepnosc::TylkoKoszyk),
        C::warstwy_wypelnione => ("warstwy_wypelnione"@, Rodzina::Koszyk, Warstwa::Rdzen, Dostepnosc::TylkoKoszyk),
        C::warstwy_czekajace => ("warstwy_czekajace"@, Rodzina::Koszyk, Warstwa::Rdzen, Dostepnosc::TylkoKoszyk),
        C::warstwy_zaplanowane => ("warstwy_zaplanowane"@, Rodzina::Koszyk, Warstwa::Rozszerzenie, Dostepnosc::TylkoKoszyk),
        C::udzial_wypelnienia => ("udzial_wypelnienia"@, Rodzina::Koszyk, Warstwa::Rdzen, Dostepnosc::TylkoKoszyk),
        C::udzial_ryzyka_w_rynku => ("udzial_ryzyka_w_rynku"@, Rodzina::Koszyk, Warstwa::Rdzen, Dostepnosc::TylkoKoszyk),
        C::glebokosc_wejscia_w_szer => ("glebokosc_wejscia_w_szer"@, Rodzina::Koszyk, Warstwa::Rozszerzenie, Dostepnosc::TylkoKoszyk),
        C::do_sl_usd => ("do_sl_usd"@, Rodzina::Koszyk, Warstwa::Rdzen, Dostepnosc::TylkoKoszyk),
        C::do_sl_w_atr => ("do_sl_w_atr"@, Rodzina::Koszyk, Warstwa::Rozszerzenie, Dostepnosc::TylkoKoszyk),
        C::do_tp1_usd => ("do_tp1_usd"@, Rodzina::Koszyk, Warstwa::Rdzen, Dostepnosc::TylkoKoszyk),
        C::do_tp2_usd => ("do_tp2_usd"@, Rodzina::Koszyk, Warstwa::Rozszerzenie, Dostepnosc::TylkoKoszyk),
        C::do_tp3_usd => ("do_tp3_usd"@, Rodzina::Koszyk, Warstwa::Rozszerzenie, Dostepnosc::TylkoKoszyk),
        C::do_najblizszego_celu_w_atr => ("do_najblizszego_celu_w_atr"@, Rodzina::Koszyk, Warstwa::Rozszerzenie, Dostepnosc::TylkoKoszyk),
        C::etap_tp => ("etap_tp"@, Rodzina::Koszyk, Warstwa::Rdzen, Dostepnosc::TylkoKoszyk),
        C::stan_armed => ("stan_armed"@, Rodzina::Koszyk, Warstwa::Rozszerzenie, Dostepnosc::TylkoKoszyk),
        C::stan_working => ("stan_working"@, Rodzina::Koszyk, Warstwa::Rdzen, Dostepnosc::TylkoKoszyk),
        C::stan_riskfree => ("stan_riskfree"@, Rodzina::Koszyk, Warstwa::Rdzen, Dostepnosc::TylkoKoszyk),
        C::zabezpieczony => ("zabezpieczony"@, Rodzina::Koszyk, Warstwa::Rozszerzenie, Dostepnosc::TylkoKoszyk),
        C::n_reentries => ("n_reentries"@, Rodzina::Koszyk, Warstwa::Rozszerzenie, Dostepnosc::TylkoKoszyk),
        C::n_rearms => ("n_rearms"@, Rodzina::Koszyk, Warstwa::Rozszerzenie, Dostepnosc::TylkoKoszyk),
        C::min_od_kom_tp_hit => ("min_od_kom_tp_hit"@, Rodzina::Koszyk, Warstwa::Rdzen, Dostepnosc::TylkoKoszyk),
        C::min_od_kom_risk_free => ("min_od_kom_risk_free"@, Rodzina::Koszyk, Warstwa::Rdzen, Dostepnosc::TylkoKoszyk),
        C::min_od_kom_spp => ("min_od_kom_spp"@, Rodzina::Koszyk, Warstwa::Rdzen, Dostepnosc::TylkoKoszyk),
        C::min_od_kom_be => ("min_od_kom_be"@, Rodzina::Koszyk, Warstwa::Rozszerzenie, Dostepnosc::TylkoKoszyk),
        C::min_od_kom_out_at_entry => ("min_od_kom_out_at_entry"@, Rodzina::Koszyk, Warstwa::Rozszerzenie, Dostepnosc::TylkoKoszyk),
        C::min_od_kom_cancel => ("min_od_kom_cancel"@, Rodzina::Koszyk, Warstwa::Rozszerzenie, Dostepnosc::TylkoKoszyk),
        C::min_od_kom_close_all => ("min_od_kom_close_all"@, Rodzina::Koszyk, Warstwa::Rozszerzenie, Dostepnosc::TylkoKoszyk),
        C::min_od_dowolnego_komunikatu => ("min_od_dowolnego_komunikatu"@, Rodzina::Koszyk, Warstwa::Rozszerzenie, Dostepnosc::TylkoKoszyk),
        C::byl_kom_tp_hit => ("byl_kom_tp_hit"@, Rodzina::Koszyk, Warstwa::Rozszerzenie, Dostepnosc::TylkoKoszyk),
        C::byl_kom_risk_free => ("byl_kom_risk_free"@, Rodzina::Koszyk, Warstwa::Rozszerzenie, Dostepnosc::TylkoKoszyk),
        C::byl_kom_spp => ("byl_kom_spp"@, Rodzina::Koszyk, Warstwa::Rozszerzenie, Dostepnosc::TylkoKoszyk),
        C::dystans_do_be_koszyka_usd => ("dystans_do_be_koszyka_usd"@, Rodzina::Koszyk, Warstwa::Rdzen, Dostepnosc::TylkoKoszyk),
        C::dystans_do_be_koszyka_w_atr => ("dystans_do_be_koszyka_w_atr"@, Rodzina::Koszyk, Warstwa::Rdzen, Dostepnosc::TylkoKoszyk),
        C::rf_wykonalne => ("rf_wykonalne"@, Rodzina::Koszyk, Warstwa::Rdzen, Dostepnosc::TylkoKoszyk),
        C::rf_ile_warstw_domknac => ("rf_ile_warstw_domknac"@, Rodzina::Koszyk, Warstwa::Rdzen, Dostepnosc::TylkoKoszyk),
        C::rf_zysk_po_domknieciu_usd => ("rf_zysk_po_domknieciu_usd"@, Rodzina::Koszyk, Warstwa::Rdzen, Dostepnosc::TylkoKoszyk),
        C::rf_be_reszty_usd => ("rf_be_reszty_usd"@, Rodzina::Koszyk, Warstwa::Rdzen, Dostepnosc::TylkoKoszyk),
        C::rf_lot_do_domkniecia => ("rf_lot_do_domkniecia"@, Rodzina::Koszyk, Warstwa::Rozszerzenie, Dostepnosc::TylkoKoszyk),
        C::warstwa_1_wynik_usd => ("warstwa_1_wynik_usd"@, Rodzina::Koszyk, Warstwa::Rozszerzenie, Dostepnosc::TylkoKoszyk),
        C::warstwa_2_wynik_usd => ("warstwa_2_wynik_usd"@, Rodzina::Koszyk, Warstwa::Rozszerzenie, Dostepnosc::TylkoKoszyk),
        C::warstwa_3_wynik_usd => ("warstwa_3_wynik_usd"@, Rodzina::Koszyk, Warstwa::Rozszerzenie, Dostepnosc::TylkoKoszyk),
        C::warstwa_4_wynik_usd => ("warstwa_4_wynik_usd"@, Rodzina::Koszyk, Warstwa::Rozszerzenie, Dostepnosc::TylkoKoszyk),
        C::warstwa_5_wynik_usd => ("warstwa_5_wynik_usd"@, Rodzina::Koszyk, Warstwa::Rozszerzenie, Dostepnosc::TylkoKoszyk),
        C::warstwa_6_wynik_usd => ("warstwa_6_wynik_usd"@, Rodzina::Koszyk, Warstwa::Rozszerzenie, Dostepnosc::TylkoKoszyk),
        C::warstwa_1_cena_wejscia => ("warstwa_1_cena_wejscia"@, Rodzina::Koszyk, Warstwa::Rozszerzenie, Dostepnosc::TylkoKoszyk),
        C::warstwa_2_cena_wejscia => ("warstwa_2_cena_wejscia"@, Rodzina::Koszyk, Warstwa::Rozszerzenie, Dostepnosc::TylkoKoszyk),
        C::warstwa_3_cena_wejscia => ("warstwa_3_cena_wejscia"@, Rodzina::Koszyk, Warstwa::Rozszerzenie, Dostepnosc::TylkoKoszyk),
        C::warstwa_4_cena_wejscia => ("warstwa_4_cena_wejscia"@, Rodzina::Koszyk, Warstwa::Rozszerzenie, Dostepnosc::TylkoKoszyk),
        C::warstwa_5_cena_wejscia => ("warstwa_5_cena_wejscia"@, Rodzina::Koszyk, Warstwa::Rozszerzenie, Dostepnosc::TylkoKoszyk),
        C::warstwa_6_cena_wejscia => ("warstwa_6_cena_wejscia"@, Rodzina::Koszyk, Warstwa::Rozszerzenie, Dostepnosc::TylkoKoszyk),
        C::warstwa_najplytsza_wynik_usd => ("warstwa_najplytsza_wynik_usd"@, Rodzina::Koszyk, Warstwa::Rdzen, Dostepnosc::TylkoKoszyk),
        C::rozpietosc_wejsc_koszyka_usd => ("rozpietosc_wejsc_koszyka_usd"@, Rodzina::Koszyk, Warstwa::Rdzen, Dostepnosc::TylkoKoszyk),
        C::losowa_01 => ("losowa_01"@, Rodzina::Losowa, Warstwa::Kontrola, Dostepnosc::Zawsze),
        C::losowa_02 => ("losowa_02"@, Rodzina::Losowa, Warstwa::Kontrola, Dostepnosc::Zawsze),
        C::losowa_03 => ("losowa_03"@, Rodzina::Losowa, Warstwa::Kontrola, Dostepnosc::Zawsze),
        C::losowa_04 => ("losowa_04"@, Rodzina::Losowa, Warstwa::Kontrola, Dostepnosc::Zawsze),
        C::losowa_05 => ("losowa_05"@, Rodzina::Losowa, Warstwa::Kontrola, Dostepnosc::Zawsze),
        C::losowa_06 => ("losowa_06"@, Rodzina::Losowa, Warstwa::Kontrola, Dostepnosc::Zawsze),
        C::losowa_07 => ("losowa_07"@, Rodzina::Losowa, Warstwa::Kontrola, Dostepnosc::Zawsze),
        C::losowa_08 => ("losowa_08"@, Rodzina::Losowa, Warstwa::Kontrola, Dostepnosc::Zawsze),
        C::losowa_09 => ("losowa_09"@, Rodzina::Losowa, Warstwa::Kontrola, Dostepnosc::Zawsze),
        C::losowa_10 => ("losowa_10"@, Rodzina::Losowa, Warstwa::Kontrola, Dostepnosc::Zawsze),
        C::losowa_11 => ("losowa_11"@, Rodzina::Losowa, Warstwa::Kontrola, Dostepnosc::Zawsze),
        C::losowa_12 => ("losowa_12"@, Rodzina::Losowa, Warstwa::Kontrola, Dostepnosc::Zawsze),
        C::losowa_13 => ("losowa_13"@, Rodzina::Losowa, Warstwa::Kontrola, Dostepnosc::Zawsze),
        C::losowa_14 => ("losowa_14"@, Rodzina::Losowa, Warstwa::Kontrola, Dostepnosc::Zawsze),
        C::losowa_15 => ("losowa_15"@, Rodzina::Losowa, Warstwa::Kontrola, Dostepnosc::Zawsze),
        C::losowa_16 => ("losowa_16"@, Rodzina::Losowa, Warstwa::Kontrola, Dostepnosc::Zawsze),
        C::losowa_17 => ("losowa_17"@, Rodzina::Losowa, Warstwa::Kontrola, Dostepnosc::Zawsze),
        C::losowa_18 => ("losowa_18"@, Rodzina::Losowa, Warstwa::Kontrola, Dostepnosc::Zawsze),
        C::losowa_19 => ("losowa_19"@, Rodzina::Losowa, Warstwa::Kontrola, Dostepnosc::Zawsze),
        C::losowa_20 => ("losowa_20"@, Rodzina::Losowa, Warstwa::Kontrola, Dostepnosc::Zawsze),
        C::KONIEC => (""@, Rodzina::Losowa, Warstwa::Kontrola, Dostepnosc::Zawsze),
    }
}

/// A feature's metadata record matches the table line it was written from.
pub open spec fn opis_zgodny(o: OpisCechy, c: C) -> bool {
    &&& o.nazwa@ == opis_cechy(c).0
    &&& o.rodzina == opis_cechy(c).1
    &&& o.warstwa == opis_cechy(c).2
    &&& o.dostepnosc == opis_cechy(c).3
}

impl C {
    /// Position of the feature in the vector.
    pub fn indeks(self) -> (r: usize)
        ensures
            r == indeks_cechy(self),
    {
        match self {
            C::cena_mid_usd => 0,
            C::spread_usd => 1,
            C::spread_do_mediany => 2,
            C::zakres_5m_usd => 3,
            C::zakres_60m_usd => 4,
            C::zakres_240m_usd => 5,
            C::zakres_1440m_usd => 6,
            C::zmiennosc_5m_usd => 7,
            C::zmiennosc_15m_usd => 8,
            C::zmiennosc_60m_usd => 9,
            C::zmiennosc_240m_usd => 10,
            C::atr60_usd => 11,
            C::tickow_na_minute => 12,
            C::minut_ciszy_rynku => 13,
            C::od_otwarcia_dnia_usd => 14,
            C::do_maks_dnia_usd => 15,
            C::do_min_dnia_usd => 16,
            C::pozycja_w_zakresie_dnia => 17,
            C::do_okraglego_10_usd => 18,
            C::do_okraglego_50_usd => 19,
            C::do_okraglego_100_usd => 20,
            C::sesja_azja => 21,
            C::sesja_londyn => 22,
            C::sesja_ny => 23,
            C::nakladanie_ldn_ny => 24,
            C::nakladanie_azja_ldn => 25,
            C::min_do_konca_sesji => 26,
            C::godz_sin => 27,
            C::godz_cos => 28,
            C::dzien_pon => 29,
            C::dzien_wt => 30,
            C::dzien_sr => 31,
            C::dzien_czw => 32,
            C::dzien_pt => 33,
            C::dzien_miesiaca => 34,
            C::minut_od_polnocy => 35,
            C::mom_1m_usd => 36,
            C::mom_5m_usd => 37,
            C::mom_15m_usd => 38,
            C::mom_60m_usd => 39,
            C::mom_240m_usd => 40,
            C::mom_60m_w_atr => 41,
            C::cena_minus_sr_60m_usd => 42,
            C::cena_minus_sr_240m_usd => 43,
            C::cena_minus_sr_1440m_usd => 44,
            C::cena_minus_sr_tydzien_usd => 45,
            C::nachylenie_sr_60m_usd_h => 46,
            C::nachylenie_sr_240m_usd_h => 47,
            C::nachylenie_sr_1440m_usd_h => 48,
            C::do_maks_1d_usd => 49,
            C::do_min_1d_usd => 50,
            C::do_maks_5d_usd => 51,
            C::do_min_5d_usd => 52,
            C::udzial_minut_zgodnych_60m => 53,
            C::cena_wzgledem_sygnalu_usd => 54,
            C::n_sygnalow_1h => 55,
            C::n_sygnalow_24h => 56,
            C::min_od_poprzedniego_sygnalu => 57,
            C::zgodnosc_kierunku_5 => 58,
            C::udzial_buy_24h => 59,
            C::seria_wygranych => 60,
            C::seria_przegranych => 61,
            C::wynik_ostatnich_5_usd => 62,
            C::min_od_tp_hit_kanalu => 63,
            C::szerokosc_strefy_usd => 64,
            C::szerokosc_strefy_w_atr => 65,
            C::dystans_sl_usd => 66,
            C::rr_krawedz_lepsza => 67,
            C::rr_srodek_strefy => 68,
            C::rr_krawedz_gorsza => 69,
            C::rr_ostatni_cel_srodek => 70,
            C::rozstaw_celow_usd => 71,
            C::n_celow => 72,
            C::tp_open => 73,
            C::tag_high_risk => 74,
            C::tag_may_not => 75,
            C::tag_first_entry => 76,
            C::jest_limit => 77,
            C::jest_stop => 78,
            C::cena_do_strefy_usd => 79,
            C::cena_wzgl_strefy_norm => 80,
            C::nakladanie_z_otwartym => 81,
            C::jest_koszyk_przeciwny => 82,
            C::n_koszykow_zgodnych => 83,
            C::min_od_sygnalu => 84,
            C::min_do_1_dotkniecia => 85,
            C::predkosc_dojscia_usd_min => 86,
            C::predkosc_60m_przed_sygnalem => 87,
            C::luka_wejscia_usd => 88,
            C::weszla_luka => 89,
            C::n_dotkniec_strefy => 90,
            C::max_glebokosc_usd => 91,
            C::max_glebokosc_w_szer => 92,
            C::przebita_na_wylot => 93,
            C::min_w_strefie => 94,
            C::min_od_wyjscia_ze_strefy => 95,
            C::w_strefie_teraz => 96,
            C::n_koszykow_otwartych => 97,
            C::n_pozycji_otwartych => 98,
            C::ekspozycja_lotow => 99,
            C::ekspozycja_netto_lotow => 100,
            C::saldo_usd => 101,
            C::equity_usd => 102,
            C::wolny_margines_usd => 103,
            C::margines_uzyty_pct => 104,
            C::wynik_dnia_zrealizowany_usd => 105,
            C::wynik_niezrealizowany_usd => 106,
            C::equity_do_szczytu_pct => 107,
            C::equity_do_startu_dnia_pct => 108,
            C::equity_do_salda_startowego_pct => 109,
            C::min_od_ostatniego_zamkniecia => 110,
            C::wiek_koszyka_min => 111,
            C::wiek_najstarszej_pozycji_min => 112,
            C::wiek_najnowszej_pozycji_min => 113,
            C::lot_koszyka => 114,
            C::srednia_wazona_cena_wejscia => 115,
            C::cena_minus_srednia_wejscia_usd => 116,
            C::zysk_koszyka_niezreal_usd => 117,
            C::zrealizowane_koszyka_usd => 118,
            C::wynik_koszyka_lacznie_usd => 119,
            C::ryzyko_koszyka_usd => 120,
            C::ryzyko_poczatkowe_koszyka_usd => 121,
            C::wynik_koszyka_w_r => 122,
            C::wynik_koszyka_w_r_poczatkowym => 123,
            C::szczyt_wyniku_koszyka_usd => 124,
            C::spadek_od_szczytu_koszyka_usd => 125,
            C::udzial_szczytu_koszyka => 126,
            C::min_od_szczytu_koszyka => 127,
            C::warstwy_wypelnione => 128,
            C::warstwy_czekajace => 129,
            C::warstwy_zaplanowane => 130,
            C::udzial_wypelnienia => 131,
            C::udzial_ryzyka_w_rynku => 132,
            C::glebokosc_wejscia_w_szer => 133,
            C::do_sl_usd => 134,
            C::do_sl_w_atr => 135,
            C::do_tp1_usd => 136,
            C::do_tp2_usd => 137,
            C::do_tp3_usd => 138,
            C::do_najblizszego_celu_w_atr => 139,
            C::etap_tp => 140,
            C::stan_armed => 141,
            C::stan_working => 142,
            C::stan_riskfree => 143,
            C::zabezpieczony => 144,
            C::n_reentries => 145,
            C::n_rearms => 146,
            C::min_od_kom_tp_hit => 147,
            C::min_od_kom_risk_free => 148,
            C::min_od_kom_spp => 149,
            C::min_od_kom_be => 150,
            C::min_od_kom_out_at_entry => 151,
            C::min_od_kom_cancel => 152,
            C::min_od_kom_close_all => 153,
            C::min_od_dowolnego_komunikatu => 154,
            C::byl_kom_tp_hit => 155,
            C::byl_kom_risk_free => 156,
            C::byl_kom_spp => 157,
            C::dystans_do_be_koszyka_usd => 158,
            C::dystans_do_be_koszyka_w_atr => 159,
            C::rf_wykonalne => 160,
            C::rf_ile_warstw_domknac => 161,
            C::rf_zysk_po_domknieciu_usd => 162,
            C::rf_be_reszty_usd => 163,
            C::rf_lot_do_domkniecia => 164,
            C::warstwa_1_wynik_usd => 165,
            C::warstwa_2_wynik_usd => 166,
            C::warstwa_3_wynik_usd => 167,
            C::warstwa_4_wynik_usd => 168,
            C::warstwa_5_wynik_usd => 169,
            C::warstwa_6_wynik_usd => 170,
            C::warstwa_1_cena_wejscia => 171,
            C::warstwa_2_cena_wejscia => 172,
            C::warstwa_3_cena_wejscia => 173,
            C::warstwa_4_cena_wejscia => 174,
            C::warstwa_5_cena_wejscia => 175,
            C::warstwa_6_cena_wejscia => 176,
            C::warstwa_najplytsza_wynik_usd => 177,
            C::rozpietosc_wejsc_koszyka_usd => 178,
            C::losowa_01 => 179,
            C::losowa_02 => 180,
            C::losowa_03 => 181,
            C::losowa_04 => 182,
            C::losowa_05 => 183,
            C::losowa_06 => 184,
            C::losowa_07 => 185,
            C::losowa_08 => 186,
            C::losowa_09 => 187,
            C::losowa_10 => 188,
            C::losowa_11 => 189,
            C::losowa_12 => 190,
            C::losowa_13 => 191,
            C::losowa_14 => 192,
            C::losowa_15 => 193,
            C::losowa_16 => 194,
            C::losowa_17 => 195,
            C::losowa_18 => 196,
            C::losowa_19 => 197,
            C::losowa_20 => 198,
            C::KONIEC => 199,
        }
    }
}

/// Metadata of one feature.
pub fn opis(c: C) -> (r: OpisCechy)
    requires
        c != C::KONIEC,
    ensures
        opis_zgodny(r, c),
{
    match c {
        C::cena_mid_usd => OpisCechy { nazwa: "cena_mid_usd", rodzina: Rodzina::Rynek, warstwa: Warstwa::Rozszerzenie, dostepnosc: Dostepnosc::Zawsze },
        C::spread_usd => OpisCechy { nazwa: "spread_usd", rodzina: Rodzina::Rynek, warstwa: Warstwa::Rdzen, dostepnosc: Dostepnosc::Zawsze },
        C::spread_do_mediany => OpisCechy { nazwa: "spread_do_mediany", rodzina: Rodzina::Rynek, warstwa: Warstwa::Rdzen, dostepnosc: Dostepnosc::Zawsze },
        C::zakres_5m_usd => OpisCechy { nazwa: "zakres_5m_usd", rodzina: Rodzina::Rynek, warstwa: Warstwa::Rozszerzenie, dostepnosc: Dostepnosc::Zawsze },
        C::zakres_60m_usd => OpisCechy { nazwa: "zakres_60m_usd", rodzina: Rodzina::Rynek, warstwa: Warstwa::Rdzen, dostepnosc: Dostepnosc::Zawsze },
        C::zakres_240m_usd => OpisCechy { nazwa: "zakres_240m_usd", rodzina: Rodzina::Rynek, warstwa: Warstwa::Rozszerzenie, dostepnosc: Dostepnosc::Zawsze },
        C::zakres_1440m_usd => OpisCechy { nazwa: "zakres_1440m_usd", rodzina: Rodzina::Rynek, warstwa: Warstwa::Rozszerzenie, dostepnosc: Dostepnosc::Zawsze },
        C::zmiennosc_5m_usd => OpisCechy { nazwa: "zmiennosc_5m_usd", rodzina: Rodzina::Rynek, warstwa: Warstwa::Rozszerzenie, dostepnosc: Dostepnosc::Zawsze },
        C::zmiennosc_15m_usd => OpisCechy { nazwa: "zmiennosc_15m_usd", rodzina: Rodzina::Rynek, warstwa: Warstwa::Rdzen, dostepnosc: Dostepnosc::Zawsze },
        C::zmiennosc_60m_usd => OpisCechy { nazwa: "zmiennosc_60m_usd", rodzina: Rodzina::Rynek, warstwa: Warstwa::Rdzen, dostepnosc: Dostepnosc::Zawsze },
        C::zmiennosc_240m_usd => OpisCechy { nazwa: "zmiennosc_240m_usd", rodzina: Rodzina::Rynek, warstwa: Warstwa::Rozszerzenie, dostepnosc: Dostepnosc::Zawsze },
        C::atr60_usd => OpisCechy { nazwa: "atr60_usd", rodzina: Rodzina::Rynek, warstwa: Warstwa::Rdzen, dostepnosc: Dostepnosc::Zawsze },
        C::tickow_na_minute => OpisCechy { nazwa: "tickow_na_minute", rodzina: Rodzina::Rynek, warstwa: Warstwa::Rozszerzenie, dostepnosc: Dostepnosc::Zawsze },
        C::minut_ciszy_rynku => OpisCechy { nazwa: "minut_ciszy_rynku", rodzina: Rodzina::Rynek, warstwa: Warstwa::Rozszerzenie, dostepnosc: Dostepnosc::Zawsze },
        C::od_otwarcia_dnia_usd => OpisCechy { nazwa: "od_otwarcia_dnia_usd", rodzina: Rodzina::Rynek, warstwa: Warstwa::Rozszerzenie, dostepnosc: Dostepnosc::Zawsze },
        C::do_maks_dnia_usd => OpisCechy { nazwa: "do_maks_dnia_usd", rodzina: Rodzina::Rynek, warstwa: Warstwa::Rozszerzenie, dostepnosc: Dostepnosc::Zawsze },
        C::do_min_dnia_usd => OpisCechy { nazwa: "do_min_dnia_usd", rodzina: Rodzina::Rynek, warstwa: Warstwa::Rozszerzenie, dostepnosc: Dostepnosc::Zawsze },
        C::pozycja_w_zakresie_dnia => OpisCechy { nazwa: "pozycja_w_zakresie_dnia", rodzina: Rodzina::Rynek, warstwa: Warstwa::Rozszerzenie, dostepnosc: Dostepnosc::Zawsze },
        C::do_okraglego_10_usd => OpisCechy { nazwa: "do_okraglego_10_usd", rodzina: Rodzina::Rynek, warstwa: Warstwa::Rozszerzenie, dostepnosc: Dostepnosc::Zawsze },
        C::do_okraglego_50_usd => OpisCechy { nazwa: "do_okraglego_50_usd", rodzina: Rodzina::Rynek, warstwa: Warstwa::Rozszerzenie, dostepnosc: Dostepnosc::Zawsze },
        C::do_okraglego_100_usd => OpisCechy { nazwa: "do_okraglego_100_usd", rodzina: Rodzina::Rynek, warstwa: Warstwa::Rozszerzenie, dostepnosc: Dostepnosc::Zawsze },
        C::sesja_azja => OpisCechy { nazwa: "sesja_azja", rodzina: Rodzina::Rynek, warstwa: Warstwa::Rozszerzenie, dostepnosc: Dostepnosc::Zawsze },
        C::sesja_londyn => OpisCechy { nazwa: "sesja_londyn", rodzina: Rodzina::Rynek, warstwa: Warstwa::Rdzen, dostepnosc: Dostepnosc::Zawsze },
        C::sesja_ny => OpisCechy { nazwa: "sesja_ny", rodzina: Rodzina::Rynek, warstwa: Warstwa::Rozszerzenie, dostepnosc: Dostepnosc::Zawsze },
        C::nakladanie_ldn_ny => OpisCechy { nazwa: "nakladanie_ldn_ny", rodzina: Rodzina::Rynek, warstwa: Warstwa::Rozszerzenie, dostepnosc: Dostepnosc::Zawsze },
        C::nakladanie_azja_ldn => OpisCechy { nazwa: "nakladanie_azja_ldn", rodzina: Rodzina::Rynek, warstwa: Warstwa::Rozszerzenie, dostepnosc: Dostepnosc::Zawsze },
        C::min_do_konca_sesji => OpisCechy { nazwa: "min_do_konca_sesji", rodzina: Rodzina::Rynek, warstwa: Warstwa::Rozszerzenie, dostepnosc: Dostepnosc::Zawsze },
        C::godz_sin => OpisCechy { nazwa: "godz_sin", rodzina: Rodzina::Rynek, warstwa: Warstwa::Rdzen, dostepnosc: Dostepnosc::Zawsze },
        C::godz_cos => OpisCechy { nazwa: "godz_cos", rodzina: Rodzina::Rynek, warstwa: Warstwa::Rdzen, dostepnosc: Dostepnosc::Zawsze },
        C::dzien_pon => OpisCechy { nazwa: "dzien_pon", rodzina: Rodzina::Rynek, warstwa: Warstwa::Rozszerzenie, dostepnosc: Dostepnosc::Zawsze },
        C::dzien_wt => OpisCechy { nazwa: "dzien_wt", rodzina: Rodzina::Rynek, warstwa: Warstwa::Rozszerzenie, dostepnosc: Dostepnosc::Zawsze },
        C::dzien_sr => OpisCechy { nazwa: "dzien_sr", rodzina: Rodzina::Rynek, warstwa: Warstwa::Rozszerzenie, dostepnosc: Dostepnosc::Zawsze },
        C::dzien_czw => OpisCechy { nazwa: "dzien_czw", rodzina: Rodzina::Rynek, warstwa: Warstwa::Rozszerzenie, dostepnosc: Dostepnosc::Zawsze },
        C::dzien_pt => OpisCechy { nazwa: "dzien_pt", rodzina: Rodzina::Rynek, warstwa: Warstwa::Rozszerzenie, dostepnosc: Dostepnosc::Zawsze },
        C::dzien_miesiaca => OpisCechy { nazwa: "dzien_miesiaca", rodzina: Rodzina::Rynek, warstwa: Warstwa::Rozszerzenie, dostepnosc: Dostepnosc::Zawsze },
        C::minut_od_polnocy => OpisCechy { nazwa: "minut_od_polnocy", rodzina: Rodzina::Rynek, warstwa: Warstwa::Rozszerzenie, dostepnosc: Dostepnosc::Zawsze },
        C::mom_1m_usd => OpisCechy { nazwa: "mom_1m_usd", rodzina: Rodzina::Struktura, warstwa: Warstwa::Rdzen, dostepnosc: Dostepnosc::Zawsze },
        C::mom_5m_usd => OpisCechy { nazwa: "mom_5m_usd", rodzina: Rodzina::Struktura, warstwa: Warstwa::Rdzen, dostepnosc: Dostepnosc::Zawsze },
        C::mom_15m_usd => OpisCechy { nazwa: "mom_15m_usd", rodzina: Rodzina::Struktura, warstwa: Warstwa::Rozszerzenie, dostepnosc: Dostepnosc::Zawsze },
        C::mom_60m_usd => OpisCechy { nazwa: "mom_60m_usd", rodzina: Rodzina::Struktura, warstwa: Warstwa::Rdzen, dostepnosc: Dostepnosc::Zawsze },
        C::mom_240m_usd => OpisCechy { nazwa: "mom_240m_usd", rodzina: Rodzina::Struktura, warstwa: Warstwa::Rozszerzenie, dostepnosc: Dostepnosc::Zawsze },
        C::mom_60m_w_atr => OpisCechy { nazwa: "mom_60m_w_atr", rodzina: Rodzina::Struktura, warstwa: Warstwa::Rdzen, dostepnosc: Dostepnosc::Zawsze },
        C::cena_minus_sr_60m_usd => OpisCechy { nazwa: "cena_minus_sr_60m_usd", rodzina: Rodzina::Struktura, warstwa: Warstwa::Rdzen, dostepnosc: Dostepnosc::Zawsze },
        C::cena_minus_sr_240m_usd => OpisCechy { nazwa: "cena_minus_sr_240m_usd", rodzina: Rodzina::Struktura, warstwa: Warstwa::Rozszerzenie, dostepnosc: Dostepnosc::Zawsze },
        C::cena_minus_sr_1440m_usd => OpisCechy { nazwa: "cena_minus_sr_1440m_usd", rodzina: Rodzina::Struktura, warstwa: Warstwa::Rozszerzenie, dostepnosc: Dostepnosc::Zawsze },
        C::cena_minus_sr_tydzien_usd => OpisCechy { nazwa: "cena_minus_sr_tydzien_usd", rodzina: Rodzina::Struktura, warstwa: Warstwa::Rozszerzenie, dostepnosc: Dostepnosc::Zawsze },
        C::nachylenie_sr_60m_usd_h => OpisCechy { nazwa: "nachylenie_sr_60m_usd_h", rodzina: Rodzina::Struktura, warstwa: Warstwa::Rozszerzenie, dostepnosc: Dostepnosc::Zawsze },
        C::nachylenie_sr_240m_usd_h => OpisCechy { nazwa: "nachylenie_sr_240m_usd_h", rodzina: Rodzina::Struktura, warstwa: Warstwa::Rozszerzenie, dostepnosc: Dostepnosc::Zawsze },
        C::nachylenie_sr_1440m_usd_h => OpisCechy { nazwa: "nachylenie_sr_1440m_usd_h", rodzina: Rodzina::Struktura, warstwa: Warstwa::Rozszerzenie, dostepnosc: Dostepnosc::Zawsze },
        C::do_maks_1d_usd => OpisCechy { nazwa: "do_maks_1d_usd", rodzina: Rodzina::Struktura, warstwa: Warstwa::Rozszerzenie, dostepnosc: Dostepnosc::Zawsze },
        C::do_min_1d_usd => OpisCechy { nazwa: "do_min_1d_usd", rodzina: Rodzina::Struktura, warstwa: Warstwa::Rozszerzenie, dostepnosc: Dostepnosc::Zawsze },
        C::do_maks_5d_usd => OpisCechy { nazwa: "do_maks_5d_usd", rodzina: Rodzina::Struktura, warstwa: Warstwa::Rozszerzenie, dostepnosc: Dostepnosc::Zawsze },
        C::do_min_5d_usd => OpisCechy { nazwa: "do_min_5d_usd", rodzina: Rodzina::Struktura, warstwa: Warstwa::Rozszerzenie, dostepnosc: Dostepnosc::Zawsze },
        C::udzial_minut_zgodnych_60m => OpisCechy { nazwa: "udzial_minut_zgodnych_60m", rodzina: Rodzina::Struktura, warstwa: Warstwa::Rozszerzenie, dostepnosc: Dostepnosc::Zawsze },
        C::cena_wzgledem_sygnalu_usd => OpisCechy { nazwa: "cena_wzgledem_sygnalu_usd", rodzina: Rodzina::Struktura, warstwa: Warstwa::Rdzen, dostepnosc: Dostepnosc::TylkoKoszyk },
        C::n_sygnalow_1h => OpisCechy { nazwa: "n_sygnalow_1h", rodzina: Rodzina::Kanal, warstwa: Warstwa::Rozszerzenie, dostepnosc: Dostepnosc::Zawsze },
        C::n_sygnalow_24h => OpisCechy { nazwa: "n_sygnalow_24h", rodzina: Rodzina::Kanal, warstwa: Warstwa::Rdzen, dostepnosc: Dostepnosc::Zawsze },
        C::min_od_poprzedniego_sygnalu => OpisCechy { nazwa: "min_od_poprzedniego_sygnalu", rodzina: Rodzina::Kanal, warstwa: Warstwa::Rozszerzenie, dostepnosc: Dostepnosc::Zawsze },
        C::zgodnosc_kierunku_5 => OpisCechy { nazwa: "zgodnosc_kierunku_5", rodzina: Rodzina::Kanal, warstwa: Warstwa::Rozszerzenie, dostepnosc: Dostepnosc::Zawsze },
        C::udzial_buy_24h => OpisCechy { nazwa: "udzial_buy_24h", rodzina: Rodzina::Kanal, warstwa: Warstwa::Rozszerzenie, dostepnosc: Dostepnosc::Zawsze },
        C::seria_wygranych => OpisCechy { nazwa: "seria_wygranych", rodzina: Rodzina::Kanal, warstwa: Warstwa::Rozszerzenie, dostepnosc: Dostepnosc::Zawsze },
        C::seria_przegranych => OpisCechy { nazwa: "seria_przegranych", rodzina: Rodzina::Kanal, warstwa: Warstwa::Rozszerzenie, dostepnosc: Dostepnosc::Zawsze },
        C::wynik_ostatnich_5_usd => OpisCechy { nazwa: "wynik_ostatnich_5_usd", rodzina: Rodzina::Kanal, warstwa: Warstwa::Rozszerzenie, dostepnosc: Dostepnosc::Zawsze },
        C::min_od_tp_hit_kanalu => OpisCechy { nazwa: "min_od_tp_hit_kanalu", rodzina: Rodzina::Kanal, warstwa: Warstwa::Rozszerzenie, dostepnosc: Dostepnosc::Zawsze },
        C::szerokosc_strefy_usd => OpisCechy { nazwa: "szerokosc_strefy_usd", rodzina: Rodzina::Kanal, warstwa: Warstwa::Rdzen, dostepnosc: Dostepnosc::Zawsze },
        C::szerokosc_strefy_w_atr => OpisCechy { nazwa: "szerokosc_strefy_w_atr", rodzina: Rodzina::Kanal, warstwa: Warstwa::Rozszerzenie, dostepnosc: Dostepnosc::Zawsze },
        C::dystans_sl_usd => OpisCechy { nazwa: "dystans_sl_usd", rodzina: Rodzina::Kanal, warstwa: Warstwa::Rdzen, dostepnosc: Dostepnosc::Zawsze },
        C::rr_krawedz_lepsza => OpisCechy { nazwa: "rr_krawedz_lepsza", rodzina: Rodzina::Kanal, warstwa: Warstwa::Rdzen, dostepnosc: Dostepnosc::Zawsze },
        C::rr_srodek_strefy => OpisCechy { nazwa: "rr_srodek_strefy", rodzina: Rodzina::Kanal, warstwa: Warstwa::Rozszerzenie, dostepnosc: Dostepnosc::Zawsze },
        C::rr_krawedz_gorsza => OpisCechy { nazwa: "rr_krawedz_gorsza", rodzina: Rodzina::Kanal, warstwa: Warstwa::Rozszerzenie, dostepnosc: Dostepnosc::Zawsze },
        C::rr_ostatni_cel_srodek => OpisCechy { nazwa: "rr_ostatni_cel_srodek", rodzina: Rodzina::Kanal, warstwa: Warstwa::Rozszerzenie, dostepnosc: Dostepnosc::Zawsze },
        C::rozstaw_celow_usd => OpisCechy { nazwa: "rozstaw_celow_usd", rodzina: Rodzina::Kanal, warstwa: Warstwa::Rozszerzenie, dostepnosc: Dostepnosc::Zawsze },
        C::n_celow => OpisCechy { nazwa: "n_celow", rodzina: Rodzina::Kanal, warstwa: Warstwa::Rozszerzenie, dostepnosc: Dostepnosc::Zawsze },
        C::tp_open => OpisCechy { nazwa: "tp_open", rodzina: Rodzina::Kanal, warstwa: Warstwa::Rozszerzenie, dostepnosc: Dostepnosc::Zawsze },
        C::tag_high_risk => OpisCechy { nazwa: "tag_high_risk", rodzina: Rodzina::Kanal, warstwa: Warstwa::Rozszerzenie, dostepnosc: Dostepnosc::Zawsze },
        C::tag_may_not => OpisCechy { nazwa: "tag_may_not", rodzina: Rodzina::Kanal, warstwa: Warstwa::Rozszerzenie, dostepnosc: Dostepnosc::Zawsze },
        C::tag_first_entry => OpisCechy { nazwa: "tag_first_entry", rodzina: Rodzina::Kanal, warstwa: Warstwa::Rozszerzenie, dostepnosc: Dostepnosc::Zawsze },
        C::jest_limit => OpisCechy { nazwa: "jest_limit", rodzina: Rodzina::Kanal, warstwa: Warstwa::Rdzen, dostepnosc: Dostepnosc::Zawsze },
        C::jest_stop => OpisCechy { nazwa: "jest_stop", rodzina: Rodzina::Kanal, warstwa: Warstwa::Rozszerzenie, dostepnosc: Dostepnosc::Zawsze },
        C::cena_do_strefy_usd => OpisCechy { nazwa: "cena_do_strefy_usd", rodzina: Rodzina::Kanal, warstwa: Warstwa::Rdzen, dostepnosc: Dostepnosc::Zawsze },
        C::cena_wzgl_strefy_norm => OpisCechy { nazwa: "cena_wzgl_strefy_norm", rodzina: Rodzina::Kanal, warstwa: Warstwa::Rdzen, dostepnosc: Dostepnosc::Zawsze },
        C::nakladanie_z_otwartym => OpisCechy { nazwa: "nakladanie_z_otwartym", rodzina: Rodzina::Kanal, warstwa: Warstwa::Rozszerzenie, dostepnosc: Dostepnosc::Zawsze },
        C::jest_koszyk_przeciwny => OpisCechy { nazwa: "jest_koszyk_przeciwny", rodzina: Rodzina::Kanal, warstwa: Warstwa::Rozszerzenie, dostepnosc: Dostepnosc::Zawsze },
        C::n_koszykow_zgodnych => OpisCechy { nazwa: "n_koszykow_zgodnych", rodzina: Rodzina::Kanal, warstwa: Warstwa::Rozszerzenie, dostepnosc: Dostepnosc::Zawsze },
        C::min_od_sygnalu => OpisCechy { nazwa: "min_od_sygnalu", rodzina: Rodzina::Dynamika, warstwa: Warstwa::Rdzen, dostepnosc: Dostepnosc::TylkoKoszyk },
        C::min_do_1_dotkniecia => OpisCechy { nazwa: "min_do_1_dotkniecia", rodzina: Rodzina::Dynamika, warstwa: Warstwa::Rdzen, dostepnosc: Dostepnosc::TylkoKoszyk },
        C::predkosc_dojscia_usd_min => OpisCechy { nazwa: "predkosc_dojscia_usd_min", rodzina: Rodzina::Dynamika, warstwa: Warstwa::Rdzen, dostepnosc: Dostepnosc::TylkoKoszyk },
        C::predkosc_60m_przed_sygnalem => OpisCechy { nazwa: "predkosc_60m_przed_sygnalem", rodzina: Rodzina::Dynamika, warstwa: Warstwa::Rozszerzenie, dostepnosc: Dostepnosc::TylkoKoszyk },
        C::luka_wejscia_usd => OpisCechy { nazwa: "luka_wejscia_usd", rodzina: Rodzina::Dynamika, warstwa: Warstwa::Rozszerzenie, dostepnosc: Dostepnosc::TylkoKoszyk },
        C::weszla_luka => OpisCechy { nazwa: "weszla_luka", rodzina: Rodzina::Dynamika, warstwa: Warstwa::Rozszerzenie, dostepnosc: Dostepnosc::TylkoKoszyk },
        C::n_dotkniec_strefy => OpisCechy { nazwa: "n_dotkniec_strefy", rodzina: Rodzina::Dynamika, warstwa: Warstwa::Rdzen, dostepnosc: Dostepnosc::TylkoKoszyk },
        C::max_glebokosc_usd => OpisCechy { nazwa: "max_glebokosc_usd", rodzina: Rodzina::Dynamika, warstwa: Warstwa::Rozszerzenie, dostepnosc: Dostepnosc::TylkoKoszyk },
        C::max_glebokosc_w_szer => OpisCechy { nazwa: "max_glebokosc_w_szer", rodzina: Rodzina::Dynamika, warstwa: Warstwa::Rdzen, dostepnosc: Dostepnosc::TylkoKoszyk },
        C::przebita_na_wylot => OpisCechy { nazwa: "przebita_na_wylot", rodzina: Rodzina::Dynamika, warstwa: Warstwa::Rozszerzenie, dostepnosc: Dostepnosc::TylkoKoszyk },
        C::min_w_strefie => OpisCechy { nazwa: "min_w_strefie", rodzina: Rodzina::Dynamika, warstwa: Warstwa::Rozszerzenie, dostepnosc: Dostepnosc::TylkoKoszyk },
        C::min_od_wyjscia_ze_strefy => OpisCechy { nazwa: "min_od_wyjscia_ze_strefy", rodzina: Rodzina::Dynamika, warstwa: Warstwa::Rozszerzenie, dostepnosc: Dostepnosc::TylkoKoszyk },
        C::w_strefie_teraz => OpisCechy { nazwa: "w_strefie_teraz", rodzina: Rodzina::Dynamika, warstwa: Warstwa::Rdzen, dostepnosc: Dostepnosc::TylkoKoszyk },
        C::n_koszykow_otwartych => OpisCechy { nazwa: "n_koszykow_otwartych", rodzina: Rodzina::Portfel, warstwa: Warstwa::Rdzen, dostepnosc: Dostepnosc::Zawsze },
        C::n_pozycji_otwartych => OpisCechy { nazwa: "n_pozycji_otwartych", rodzina: Rodzina::Portfel, warstwa: Warstwa::Rdzen, dostepnosc: Dostepnosc::Zawsze },
        C::ekspozycja_lotow => OpisCechy { nazwa: "ekspozycja_lotow", rodzina: Rodzina::Portfel, warstwa: Warstwa::Rdzen, dostepnosc: Dostepnosc::Zawsze },
        C::ekspozycja_netto_lotow => OpisCechy { nazwa: "ekspozycja_netto_lotow", rodzina: Rodzina::Portfel, warstwa: Warstwa::Rozszerzenie, dostepnosc: Dostepnosc::Zawsze },
        C::saldo_usd => OpisCechy { nazwa: "saldo_usd", rodzina: Rodzina::Portfel, warstwa: Warstwa::Rdzen, dostepnosc: Dostepnosc::Zawsze },
        C::equity_usd => OpisCechy { nazwa: "equity_usd", rodzina: Rodzina::Portfel, warstwa: Warstwa::Rdzen, dostepnosc: Dostepnosc::Zawsze },
        C::wolny_margines_usd => OpisCechy { nazwa: "wolny_margines_usd", rodzina: Rodzina::Portfel, warstwa: Warstwa::Rdzen, dostepnosc: Dostepnosc::Zawsze },
        C::margines_uzyty_pct => OpisCechy { nazwa: "margines_uzyty_pct", rodzina: Rodzina::Portfel, warstwa: Warstwa::Rdzen, dostepnosc: Dostepnosc::Zawsze },
        C::wynik_dnia_zrealizowany_usd => OpisCechy { nazwa: "wynik_dnia_zrealizowany_usd", rodzina: Rodzina::Portfel, warstwa: Warstwa::Rdzen, dostepnosc: Dostepnosc::Zawsze },
        C::wynik_niezrealizowany_usd => OpisCechy { nazwa: "wynik_niezrealizowany_usd", rodzina: Rodzina::Portfel, warstwa: Warstwa::Rdzen, dostepnosc: Dostepnosc::Zawsze },
        C::equity_do_szczytu_pct => OpisCechy { nazwa: "equity_do_szczytu_pct", rodzina: Rodzina::Portfel, warstwa: Warstwa::Rdzen, dostepnosc: Dostepnosc::Zawsze },
        C::equity_do_startu_dnia_pct => OpisCechy { nazwa: "equity_do_startu_dnia_pct", rodzina: Rodzina::Portfel, warstwa: Warstwa::Rozszerzenie, dostepnosc: Dostepnosc::Zawsze },
        C::equity_do_salda_startowego_pct => OpisCechy { nazwa: "equity_do_salda_startowego_pct", rodzina: Rodzina::Portfel, warstwa: Warstwa::Rozszerzenie, dostepnosc: Dostepnosc::Zawsze },
        C::min_od_ostatniego_zamkniecia => OpisCechy { nazwa: "min_od_ostatniego_zamkniecia", rodzina: Rodzina::Portfel, warstwa: Warstwa::Rozszerzenie, dostepnosc: Dostepnosc::Zawsze },
        C::wiek_koszyka_min => OpisCechy { nazwa: "wiek_koszyka_min", rodzina: Rodzina::Koszyk, warstwa: Warstwa::Rdzen, dostepnosc: Dostepnosc::TylkoKoszyk },
        C::wiek_najstarszej_pozycji_min => OpisCechy { nazwa: "wiek_najstarszej_pozycji_min", rodzina: Rodzina::Koszyk, warstwa: Warstwa::Rdzen, dostepnosc: Dostepnosc::TylkoKoszyk },
        C::wiek_najnowszej_pozycji_min => OpisCechy { nazwa: "wiek_najnowszej_pozycji_min", rodzina: Rodzina::Koszyk, warstwa: Warstwa::Rozszerzenie, dostepnosc: Dostepnosc::TylkoKoszyk },
        C::lot_koszyka => OpisCechy { nazwa: "lot_koszyka", rodzina: Rodzina::Koszyk, warstwa: Warstwa::Rdzen, dostepnosc: Dostepnosc::TylkoKoszyk },
        C::srednia_wazona_cena_wejscia => OpisCechy { nazwa: "srednia_wazona_cena_wejscia", rodzina: Rodzina::Koszyk, warstwa: Warstwa::Rdzen, dostepnosc: Dostepnosc::TylkoKoszyk },
        C::cena_minus_srednia_wejscia_usd => OpisCechy { nazwa: "cena_minus_srednia_wejscia_usd", rodzina: Rodzina::Koszyk, warstwa: Warstwa::Rdzen, dostepnosc: Dostepnosc::TylkoKoszyk },
        C::zysk_koszyka_niezreal_usd => OpisCechy { nazwa: "zysk_koszyka_niezreal_usd", rodzina: Rodzina::Koszyk, warstwa: Warstwa::Rdzen, dostepnosc: Dostepnosc::TylkoKoszyk },
        C::zrealizowane_koszyka_usd => OpisCechy { nazwa: "zrealizowane_koszyka_usd", rodzina: Rodzina::Koszyk, warstwa: Warstwa::Rdzen, dostepnosc: Dostepnosc::TylkoKoszyk },
        C::wynik_koszyka_lacznie_usd => OpisCechy { nazwa: "wynik_koszyka_lacznie_usd", rodzina: Rodzina::Koszyk, warstwa: Warstwa::Rdzen, dostepnosc: Dostepnosc::TylkoKoszyk },
        C::ryzyko_koszyka_usd => OpisCechy { nazwa: "ryzyko_koszyka_usd", rodzina: Rodzina::Koszyk, warstwa: Warstwa::Rdzen, dostepnosc: Dostepnosc::TylkoKoszyk },
        C::ryzyko_poczatkowe_koszyka_usd => OpisCechy { nazwa: "ryzyko_poczatkowe_koszyka_usd", rodzina: Rodzina::Koszyk, warstwa: Warstwa::Rdzen, dostepnosc: Dostepnosc::TylkoKoszyk },
        C::wynik_koszyka_w_r => OpisCechy { nazwa: "wynik_koszyka_w_r", rodzina: Rodzina::Koszyk, warstwa: Warstwa::Rdzen, dostepnosc: Dostepnosc::TylkoKoszyk },
        C::wynik_koszyka_w_r_poczatkowym => OpisCechy { nazwa: "wynik_koszyka_w_r_poczatkowym", rodzina: Rodzina::Koszyk, warstwa: Warstwa::Rdzen, dostepnosc: Dostepnosc::TylkoKoszyk },
        C::szczyt_wyniku_koszyka_usd => OpisCechy { nazwa: "szczyt_wyniku_koszyka_usd", rodzina: Rodzina::Koszyk, warstwa: Warstwa::Rdzen, dostepnosc: Dostepnosc::TylkoKoszyk },
        C::spadek_od_szczytu_koszyka_usd => OpisCechy { nazwa: "spadek_od_szczytu_koszyka_usd", rodzina: Rodzina::Koszyk, warstwa: Warstwa::Rdzen, dostepnosc: Dostepnosc::TylkoKoszyk },
        C::udzial_szczytu_koszyka => OpisCechy { nazwa: "udzial_szczytu_koszyka", rodzina: Rodzina::Koszyk, warstwa: Warstwa::Rdzen, dostepnosc: Dostepnosc::TylkoKoszyk },
        C::min_od_szczytu_koszyka => OpisCechy { nazwa: "min_od_szczytu_koszyka", rodzina: Rodzina::Koszyk, warstwa: Warstwa::Rdzen, dostepnosc: Dostepnosc::TylkoKoszyk },
        C::warstwy_wypelnione => OpisCechy { nazwa: "warstwy_wypelnione", rodzina: Rodzina::Koszyk, warstwa: Warstwa::Rdzen, dostepnosc: Dostepnosc::TylkoKoszyk },
        C::warstwy_czekajace => OpisCechy { nazwa: "warstwy_czekajace", rodzina: Rodzina::Koszyk, warstwa: Warstwa::Rdzen, dostepnosc: Dostepnosc::TylkoKoszyk },
        C::warstwy_zaplanowane => OpisCechy { nazwa: "warstwy_zaplanowane", rodzina: Rodzina::Koszyk, warstwa: Warstwa::Rozszerzenie, dostepnosc: Dostepnosc::TylkoKoszyk },
        C::udzial_wypelnienia => OpisCechy { nazwa: "udzial_wypelnienia", rodzina: Rodzina::Koszyk, warstwa: Warstwa::Rdzen, dostepnosc: Dostepnosc::TylkoKoszyk },
        C::udzial_ryzyka_w_rynku => OpisCechy { nazwa: "udzial_ryzyka_w_rynku", rodzina: Rodzina::Koszyk, warstwa: Warstwa::Rdzen, dostepnosc: Dostepnosc::TylkoKoszyk },
        C::glebokosc_wejscia_w_szer => OpisCechy { nazwa: "glebokosc_wejscia_w_szer", rodzina: Rodzina::Koszyk, warstwa: Warstwa::Rozszerzenie, dostepnosc: Dostepnosc::TylkoKoszyk },
        C::do_sl_usd => OpisCechy { nazwa: "do_sl_usd", rodzina: Rodzina::Koszyk, warstwa: Warstwa::Rdzen, dostepnosc: Dostepnosc::TylkoKoszyk },
        C::do_sl_w_atr => OpisCechy { nazwa: "do_sl_w_atr", rodzina: Rodzina::Koszyk, warstwa: Warstwa::Rozszerzenie, dostepnosc: Dostepnosc::TylkoKoszyk },
        C::do_tp1_usd => OpisCechy { nazwa: "do_tp1_usd", rodzina: Rodzina::Koszyk, warstwa: Warstwa::Rdzen, dostepnosc: Dostepnosc::TylkoKoszyk },
        C::do_tp2_usd => OpisCechy { nazwa: "do_tp2_usd", rodzina: Rodzina::Koszyk, warstwa: Warstwa::Rozszerzenie, dostepnosc: Dostepnosc::TylkoKoszyk },
        C::do_tp3_usd => OpisCechy { nazwa: "do_tp3_usd", rodzina: Rodzina::Koszyk, warstwa: Warstwa::Rozszerzenie, dostepnosc: Dostepnosc::TylkoKoszyk },
        C::do_najblizszego_celu_w_atr => OpisCechy { nazwa: "do_najblizszego_celu_w_atr", rodzina: Rodzina::Koszyk, warstwa: Warstwa::Rozszerzenie, dostepnosc: Dostepnosc::TylkoKoszyk },
        C::etap_tp => OpisCechy { nazwa: "etap_tp", rodzina: Rodzina::Koszyk, warstwa: Warstwa::Rdzen, dostepnosc: Dostepnosc::TylkoKoszyk },
        C::stan_armed => OpisCechy { nazwa: "stan_armed", rodzina: Rodzina::Koszyk, warstwa: Warstwa::Rozszerzenie, dostepnosc: Dostepnosc::TylkoKoszyk },
        C::stan_working => OpisCechy { nazwa: "stan_working", rodzina: Rodzina::Koszyk, warstwa: Warstwa::Rdzen, dostepnosc: Dostepnosc::TylkoKoszyk },
        C::stan_riskfree => OpisCechy { nazwa: "stan_riskfree", rodzina: Rodzina::Koszyk, warstwa: Warstwa::Rdzen, dostepnosc: Dostepnosc::TylkoKoszyk },
        C::zabezpieczony => OpisCechy { nazwa: "zabezpieczony", rodzina: Rodzina::Koszyk, warstwa: Warstwa::Rozszerzenie, dostepnosc: Dostepnosc::TylkoKoszyk },
        C::n_reentries => OpisCechy { nazwa: "n_reentries", rodzina: Rodzina::Koszyk, warstwa: Warstwa::Rozszerzenie, dostepnosc: Dostepnosc::TylkoKoszyk },
        C::n_rearms => OpisCechy { nazwa: "n_rearms", rodzina: Rodzina::Koszyk, warstwa: Warstwa::Rozszerzenie, dostepnosc: Dostepnosc::TylkoKoszyk },
        C::min_od_kom_tp_hit => OpisCechy { nazwa: "min_od_kom_tp_hit", rodzina: Rodzina::Koszyk, warstwa: Warstwa::Rdzen, dostepnosc: Dostepnosc::TylkoKoszyk },
        C::min_od_kom_risk_free => OpisCechy { nazwa: "min_od_kom_risk_free", rodzina: Rodzina::Koszyk, warstwa: Warstwa::Rdzen, dostepnosc: Dostepnosc::TylkoKoszyk },
        C::min_od_kom_spp => OpisCechy { nazwa: "min_od_kom_spp", rodzina: Rodzina::Koszyk, warstwa: Warstwa::Rdzen, dostepnosc: Dostepnosc::TylkoKoszyk },
        C::min_od_kom_be => OpisCechy { nazwa: "min_od_kom_be", rodzina: Rodzina::Koszyk, warstwa: Warstwa::Rozszerzenie, dostepnosc: Dostepnosc::TylkoKoszyk },
        C::min_od_kom_out_at_entry => OpisCechy { nazwa: "min_od_kom_out_at_entry", rodzina: Rodzina::Koszyk, warstwa: Warstwa::Rozszerzenie, dostepnosc: Dostepnosc::TylkoKoszyk },
        C::min_od_kom_cancel => OpisCechy { nazwa: "min_od_kom_cancel", rodzina: Rodzina::Koszyk, warstwa: Warstwa::Rozszerzenie, dostepnosc: Dostepnosc::TylkoKoszyk },
        C::min_od_kom_close_all => OpisCechy { nazwa: "min_od_kom_close_all", rodzina: Rodzina::Koszyk, warstwa: Warstwa::Rozszerzenie, dostepnosc: Dostepnosc::TylkoKoszyk },
        C::min_od_dowolnego_komunikatu => OpisCechy { nazwa: "min_od_dowolnego_komunikatu", rodzina: Rodzina::Koszyk, warstwa: Warstwa::Rozszerzenie, dostepnosc: Dostepnosc::TylkoKoszyk },
        C::byl_kom_tp_hit => OpisCechy { nazwa: "byl_kom_tp_hit", rodzina: Rodzina::Koszyk, warstwa: Warstwa::Rozszerzenie, dostepnosc: Dostepnosc::TylkoKoszyk },
        C::byl_kom_risk_free => OpisCechy { nazwa: "byl_kom_risk_free", rodzina: Rodzina::Koszyk, warstwa: Warstwa::Rozszerzenie, dostepnosc: Dostepnosc::TylkoKoszyk },
        C::byl_kom_spp => OpisCechy { nazwa: "byl_kom_spp", rodzina: Rodzina::Koszyk, warstwa: Warstwa::Rozszerzenie, dostepnosc: Dostepnosc::TylkoKoszyk },
        C::dystans_do_be_koszyka_usd => OpisCechy { nazwa: "dystans_do_be_koszyka_usd", rodzina: Rodzina::Koszyk, warstwa: Warstwa::Rdzen, dostepnosc: Dostepnosc::TylkoKoszyk },
        C::dystans_do_be_koszyka_w_atr => OpisCechy { nazwa: "dystans_do_be_koszyka_w_atr", rodzina: Rodzina::Koszyk, warstwa: Warstwa::Rdzen, dostepnosc: Dostepnosc::TylkoKoszyk },
        C::rf_wykonalne => OpisCechy { nazwa: "rf_wykonalne", rodzina: Rodzina::Koszyk, warstwa: Warstwa::Rdzen, dostepnosc: Dostepnosc::TylkoKoszyk },
        C::rf_ile_warstw_domknac => OpisCechy { nazwa: "rf_ile_warstw_domknac", rodzina: Rodzina::Koszyk, warstwa: Warstwa::Rdzen, dostepnosc: Dostepnosc::TylkoKoszyk },
        C::rf_zysk_po_domknieciu_usd => OpisCechy { nazwa: "rf_zysk_po_domknieciu_usd", rodzina: Rodzina::Koszyk, warstwa: Warstwa::Rdzen, dostepnosc: Dostepnosc::TylkoKoszyk },
        C::rf_be_reszty_usd => OpisCechy { nazwa: "rf_be_reszty_usd", rodzina: Rodzina::Koszyk, warstwa: Warstwa::Rdzen, dostepnosc: Dostepnosc::TylkoKoszyk },
        C::rf_lot_do_domkniecia => OpisCechy { nazwa: "rf_lot_do_domkniecia", rodzina: Rodzina::Koszyk, warstwa: Warstwa::Rozszerzenie, dostepnosc: Dostepnosc::TylkoKoszyk },
        C::warstwa_1_wynik_usd => OpisCechy { nazwa: "warstwa_1_wynik_usd", rodzina: Rodzina::Koszyk, warstwa: Warstwa::Rozszerzenie, dostepnosc: Dostepnosc::TylkoKoszyk },
        C::warstwa_2_wynik_usd => OpisCechy { nazwa: "warstwa_2_wynik_usd", rodzina: Rodzina::Koszyk, warstwa: Warstwa::Rozszerzenie, dostepnosc: Dostepnosc::TylkoKoszyk },
        C::warstwa_3_wynik_usd => OpisCechy { nazwa: "warstwa_3_wynik_usd", rodzina: Rodzina::Koszyk, warstwa: Warstwa::Rozszerzenie, dostepnosc: Dostepnosc::TylkoKoszyk },
        C::warstwa_4_wynik_usd => OpisCechy { nazwa: "warstwa_4_wynik_usd", rodzina: Rodzina::Koszyk, warstwa: Warstwa::Rozszerzenie, dostepnosc: Dostepnosc::TylkoKoszyk },
        C::warstwa_5_wynik_usd => OpisCechy { nazwa: "warstwa_5_wynik_usd", rodzina: Rodzina::Koszyk, warstwa: Warstwa::Rozszerzenie, dostepnosc: Dostepnosc::TylkoKoszyk },
        C::warstwa_6_wynik_usd => OpisCechy { nazwa: "warstwa_6_wynik_usd", rodzina: Rodzina::Koszyk, warstwa: Warstwa::Rozszerzenie, dostepnosc: Dostepnosc::TylkoKoszyk },
        C::warstwa_1_cena_wejscia => OpisCechy { nazwa: "warstwa_1_cena_wejscia", rodzina: Rodzina::Koszyk, warstwa: Warstwa::Rozszerzenie, dostepnosc: Dostepnosc::TylkoKoszyk },
        C::warstwa_2_cena_wejscia => OpisCechy { nazwa: "warstwa_2_cena_wejscia", rodzina: Rodzina::Koszyk, warstwa: Warstwa::Rozszerzenie, dostepnosc: Dostepnosc::TylkoKoszyk },
        C::warstwa_3_cena_wejscia => OpisCechy { nazwa: "warstwa_3_cena_wejscia", rodzina: Rodzina::Koszyk, warstwa: Warstwa::Rozszerzenie, dostepnosc: Dostepnosc::TylkoKoszyk },
        C::warstwa_4_cena_wejscia => OpisCechy { nazwa: "warstwa_4_cena_wejscia", rodzina: Rodzina::Koszyk, warstwa: Warstwa::Rozszerzenie, dostepnosc: Dostepnosc::TylkoKoszyk },
        C::warstwa_5_cena_wejscia => OpisCechy { nazwa: "warstwa_5_cena_wejscia", rodzina: Rodzina::Koszyk, warstwa: Warstwa::Rozszerzenie, dostepnosc: Dostepnosc::TylkoKoszyk },
        C::warstwa_6_cena_wejscia => OpisCechy { nazwa: "warstwa_6_cena_wejscia", rodzina: Rodzina::Koszyk, warstwa: Warstwa::Rozszerzenie, dostepnosc: Dostepnosc::TylkoKoszyk },
        C::warstwa_najplytsza_wynik_usd => OpisCechy { nazwa: "warstwa_najplytsza_wynik_usd", rodzina: Rodzina::Koszyk, warstwa: Warstwa::Rdzen, dostepnosc: Dostepnosc::TylkoKoszyk },
        C::rozpietosc_wejsc_koszyka_usd => OpisCechy { nazwa: "rozpietosc_wejsc_koszyka_usd", rodzina: Rodzina::Koszyk, warstwa: Warstwa::Rdzen, dostepnosc: Dostepnosc::TylkoKoszyk },
        C::losowa_01 => OpisCechy { nazwa: "losowa_01", rodzina: Rodzina::Losowa, warstwa: Warstwa::Kontrola, dostepnosc: Dostepnosc::Zawsze },
        C::losowa_02 => OpisCechy { nazwa: "losowa_02", rodzina: Rodzina::Losowa, warstwa: Warstwa::Kontrola, dostepnosc: Dostepnosc::Zawsze },
        C::losowa_03 => OpisCechy { nazwa: "losowa_03", rodzina: Rodzina::Losowa, warstwa: Warstwa::Kontrola, dostepnosc: Dostepnosc::Zawsze },
        C::losowa_04 => OpisCechy { nazwa: "losowa_04", rodzina: Rodzina::Losowa, warstwa: Warstwa::Kontrola, dostepnosc: Dostepnosc::Zawsze },
        C::losowa_05 => OpisCechy { nazwa: "losowa_05", rodzina: Rodzina::Losowa, warstwa: Warstwa::Kontrola, dostepnosc: Dostepnosc::Zawsze },
        C::losowa_06 => OpisCechy { nazwa: "losowa_06", rodzina: Rodzina::Losowa, warstwa: Warstwa::Kontrola, dostepnosc: Dostepnosc::Zawsze },
        C::losowa_07 => OpisCechy { nazwa: "losowa_07", rodzina: Rodzina::Losowa, warstwa: Warstwa::Kontrola, dostepnosc: Dostepnosc::Zawsze },
        C::losowa_08 => OpisCechy { nazwa: "losowa_08", rodzina: Rodzina::Losowa, warstwa: Warstwa::Kontrola, dostepnosc: Dostepnosc::Zawsze },
        C::losowa_09 => OpisCechy { nazwa: "losowa_09", rodzina: Rodzina::Losowa, warstwa: Warstwa::Kontrola, dostepnosc: Dostepnosc::Zawsze },
        C::losowa_10 => OpisCechy { nazwa: "losowa_10", rodzina: Rodzina::Losowa, warstwa: Warstwa::Kontrola, dostepnosc: Dostepnosc::Zawsze },
        C::losowa_11 => OpisCechy { nazwa: "losowa_11", rodzina: Rodzina::Losowa, warstwa: Warstwa::Kontrola, dostepnosc: Dostepnosc::Zawsze },
        C::losowa_12 => OpisCechy { nazwa: "losowa_12", rodzina: Rodzina::Losowa, warstwa: Warstwa::Kontrola, dostepnosc: Dostepnosc::Zawsze },
        C::losowa_13 => OpisCechy { nazwa: "losowa_13", rodzina: Rodzina::Losowa, warstwa: Warstwa::Kontrola, dostepnosc: Dostepnosc::Zawsze },
        C::losowa_14 => OpisCechy { nazwa: "losowa_14", rodzina: Rodzina::Losowa, warstwa: Warstwa::Kontrola, dostepnosc: Dostepnosc::Zawsze },
        C::losowa_15 => OpisCechy { nazwa: "losowa_15", rodzina: Rodzina::Losowa, warstwa: Warstwa::Kontrola, dostepnosc: Dostepnosc::Zawsze },
        C::losowa_16 => OpisCechy { nazwa: "losowa_16", rodzina: Rodzina::Losowa, warstwa: Warstwa::Kontrola, dostepnosc: Dostepnosc::Zawsze },
        C::losowa_17 => OpisCechy { nazwa: "losowa_17", rodzina: Rodzina::Losowa, warstwa: Warstwa::Kontrola, dostepnosc: Dostepnosc::Zawsze },
        C::losowa_18 => OpisCechy { nazwa: "losowa_18", rodzina: Rodzina::Losowa, warstwa: Warstwa::Kontrola, dostepnosc: Dostepnosc::Zawsze },
        C::losowa_19 => OpisCechy { nazwa: "losowa_19", rodzina: Rodzina::Losowa, warstwa: Warstwa::Kontrola, dostepnosc: Dostepnosc::Zawsze },
        C::losowa_20 => OpisCechy { nazwa: "losowa_20", rodzina: Rodzina::Losowa, warstwa: Warstwa::Kontrola, dostepnosc: Dostepnosc::Zawsze },
        C::KONIEC => OpisCechy { nazwa: "", rodzina: Rodzina::Losowa, warstwa: Warstwa::Kontrola, dostepnosc: Dostepnosc::Zawsze },
    }
}

/// Name of a feature.
pub fn nazwa(c: C) -> (r: &'static str)
    requires
        c != C::KONIEC,
    ensures
        r@ == opis_cechy(c).0,
{
    opis(c).nazwa
}

/// The feature at a position of the vector.
pub fn cecha(i: usize) -> (r: C)
    ensures
        r == cecha_nr(i as int),
{
    match i {
        0 => C::cena_mid_usd,
        1 => C::spread_usd,
        2 => C::spread_do_mediany,
        3 => C::zakres_5m_usd,
        4 => C::zakres_60m_usd,
        5 => C::zakres_240m_usd,
        6 => C::zakres_1440m_usd,
        7 => C::zmiennosc_5m_usd,
        8 => C::zmiennosc_15m_usd,
        9 => C::zmiennosc_60m_usd,
        10 => C::zmiennosc_240m_usd,
        11 => C::atr60_usd,
        12 => C::tickow_na_minute,
        13 => C::minut_ciszy_rynku,
        14 => C::od_otwarcia_dnia_usd,
        15 => C::do_maks_dnia_usd,
        16 => C::do_min_dnia_usd,
        17 => C::pozycja_w_zakresie_dnia,
        18 => C::do_okraglego_10_usd,
        19 => C::do_okraglego_50_usd,
        20 => C::do_okraglego_100_usd,
        21 => C::sesja_azja,
        22 => C::sesja_londyn,
        23 => C::sesja_ny,
        24 => C::nakladanie_ldn_ny,
        25 => C::nakladanie_azja_ldn,
        26 => C::min_do_konca_sesji,
        27 => C::godz_sin,
        28 => C::godz_cos,
        29 => C::dzien_pon,
        30 => C::dzien_wt,
        31 => C::dzien_sr,
        32 => C::dzien_czw,
        33 => C::dzien_pt,
        34 => C::dzien_miesiaca,
        35 => C::minut_od_polnocy,
        36 => C::mom_1m_usd,
        37 => C::mom_5m_usd,
        38 => C::mom_15m_usd,
        39 => C::mom_60m_usd,
        40 => C::mom_240m_usd,
        41 => C::mom_60m_w_atr,
        42 => C::cena_minus_sr_60m_usd,
        43 => C::cena_minus_sr_240m_usd,
        44 => C::cena_minus_sr_1440m_usd,
        45 => C::cena_minus_sr_tydzien_usd,
        46 => C::nachylenie_sr_60m_usd_h,
        47 => C::nachylenie_sr_240m_usd_h,
        48 => C::nachylenie_sr_1440m_usd_h,
        49 => C::do_maks_1d_usd,
        50 => C::do_min_1d_usd,
        51 => C::do_maks_5d_usd,
        52 => C::do_min_5d_usd,
        53 => C::udzial_minut_zgodnych_60m,
        54 => C::cena_wzgledem_sygnalu_usd,
        55 => C::n_sygnalow_1h,
        56 => C::n_sygnalow_24h,
        57 => C::min_od_poprzedniego_sygnalu,
        58 => C::zgodnosc_kierunku_5,
        59 => C::udzial_buy_24h,
        60 => C::seria_wygranych,
        61 => C::seria_przegranych,
        62 => C::wynik_ostatnich_5_usd,
        63 => C::min_od_tp_hit_kanalu,
        64 => C::szerokosc_strefy_usd,
        65 => C::szerokosc_strefy_w_atr,
        66 => C::dystans_sl_usd,
        67 => C::rr_krawedz_lepsza,
        68 => C::rr_srodek_strefy,
        69 => C::rr_krawedz_gorsza,
        70 => C::rr_ostatni_cel_srodek,
        71 => C::rozstaw_celow_usd,
        72 => C::n_celow,
        73 => C::tp_open,
        74 => C::tag_high_risk,
        75 => C::tag_may_not,
        76 => C::tag_first_entry,
        77 => C::jest_limit,
        78 => C::jest_stop,
        79 => C::cena_do_strefy_usd,
        80 => C::cena_wzgl_strefy_norm,
        81 => C::nakladanie_z_otwartym,
        82 => C::jest_koszyk_przeciwny,
        83 => C::n_koszykow_zgodnych,
        84 => C::min_od_sygnalu,
        85 => C::min_do_1_dotkniecia,
        86 => C::predkosc_dojscia_usd_min,
        87 => C::predkosc_60m_przed_sygnalem,
        88 => C::luka_wejscia_usd,
        89 => C::weszla_luka,
        90 => C::n_dotkniec_strefy,
        91 => C::max_glebokosc_usd,
        92 => C::max_glebokosc_w_szer,
        93 => C::przebita_na_wylot,
        94 => C::min_w_strefie,
        95 => C::min_od_wyjscia_ze_strefy,
        96 => C::w_strefie_teraz,
        97 => C::n_koszykow_otwartych,
        98 => C::n_pozycji_otwartych,
        99 => C::ekspozycja_lotow,
        100 => C::ekspozycja_netto_lotow,
        101 => C::saldo_usd,
        102 => C::equity_usd,
        103 => C::wolny_margines_usd,
        104 => C::margines_uzyty_pct,
        105 => C::wynik_dnia_zrealizowany_usd,
        106 => C::wynik_niezrealizowany_usd,
        107 => C::equity_do_szczytu_pct,
        108 => C::equity_do_startu_dnia_pct,
        109 => C::equity_do_salda_startowego_pct,
        110 => C::min_od_ostatniego_zamkniecia,
        111 => C::wiek_koszyka_min,
        112 => C::wiek_najstarszej_pozycji_min,
        113 => C::wiek_najnowszej_pozycji_min,
        114 => C::lot_koszyka,
        115 => C::srednia_wazona_cena_wejscia,
        116 => C::cena_minus_srednia_wejscia_usd,
        117 => C::zysk_koszyka_niezreal_usd,
        118 => C::zrealizowane_koszyka_usd,
        119 => C::wynik_koszyka_lacznie_usd,
        120 => C::ryzyko_koszyka_usd,
        121 => C::ryzyko_poczatkowe_koszyka_usd,
        122 => C::wynik_koszyka_w_r,
        123 => C::wynik_koszyka_w_r_poczatkowym,
        124 => C::szczyt_wyniku_koszyka_usd,
        125 => C::spadek_od_szczytu_koszyka_usd,
        126 => C::udzial_szczytu_koszyka,
        127 => C::min_od_szczytu_koszyka,
        128 => C::warstwy_wypelnione,
        129 => C::warstwy_czekajace,
        130 => C::warstwy_zaplanowane,
        131 => C::udzial_wypelnienia,
        132 => C::udzial_ryzyka_w_rynku,
        133 => C::glebokosc_wejscia_w_szer,
        134 => C::do_sl_usd,
        135 => C::do_sl_w_atr,
        136 => C::do_tp1_usd,
        137 => C::do_tp2_usd,
        138 => C::do_tp3_usd,
        139 => C::do_najblizszego_celu_w_atr,
        140 => C::etap_tp,
        141 => C::stan_armed,
        142 => C::stan_working,
        143 => C::stan_riskfree,
        144 => C::zabezpieczony,
        145 => C::n_reentries,
        146 => C::n_rearms,
        147 => C::min_od_kom_tp_hit,
        148 => C::min_od_kom_risk_free,
        149 => C::min_od_kom_spp,
        150 => C::min_od_kom_be,
        151 => C::min_od_kom_out_at_entry,
        152 => C::min_od_kom_cancel,
        153 => C::min_od_kom_close_all,
        154 => C::min_od_dowolnego_komunikatu,
        155 => C::byl_kom_tp_hit,
        156 => C::byl_kom_risk_free,
        157 => C::byl_kom_spp,
        158 => C::dystans_do_be_koszyka_usd,
        159 => C::dystans_do_be_koszyka_w_atr,
        160 => C::rf_wykonalne,
        161 => C::rf_ile_warstw_domknac,
        162 => C::rf_zysk_po_domknieciu_usd,
        163 => C::rf_be_reszty_usd,
        164 => C::rf_lot_do_domkniecia,
        165 => C::warstwa_1_wynik_usd,
        166 => C::warstwa_2_wynik_usd,
        167 => C::warstwa_3_wynik_usd,
        168 => C::warstwa_4_wynik_usd,
        169 => C::warstwa_5_wynik_usd,
        170 => C::warstwa_6_wynik_usd,
        171 => C::warstwa_1_cena_wejscia,
        172 => C::warstwa_2_cena_wejscia,
        173 => C::warstwa_3_cena_wejscia,
        174 => C::warstwa_4_cena_wejscia,
        175 => C::warstwa_5_cena_wejscia,
        176 => C::warstwa_6_cena_wejscia,
        177 => C::warstwa_najplytsza_wynik_usd,
        178 => C::rozpietosc_wejsc_koszyka_usd,
        179 => C::losowa_01,
        180 => C::losowa_02,
        181 => C::losowa_03,
        182 => C::losowa_04,
        183 => C::losowa_05,
        184 => C::losowa_06,
        185 => C::losowa_07,
        186 => C::losowa_08,
        187 => C::losowa_09,
        188 => C::losowa_10,
        189 => C::losowa_11,
        190 => C::losowa_12,
        191 => C::losowa_13,
        192 => C::losowa_14,
        193 => C::losowa_15,
        194 => C::losowa_16,
        195 => C::losowa_17,
        196 => C::losowa_18,
        197 => C::losowa_19,
        198 => C::losowa_20,
        _ => C::KONIEC,
    }
}

/// Metadata of all features, in vector order.
pub fn opisy() -> (r: Vec<OpisCechy>)
    ensures
        r@.len() == N_CECH,
        forall|i: int| 0 <= i < N_CECH ==> opis_zgodny(#[trigger] r@[i], cecha_nr(i)),
{
    let mut r: Vec<OpisCechy> = Vec::new();
    let mut i: usize = 0;
    while i < N_CECH
        invariant
            i <= N_CECH,
            r@.len() == i,
            forall|j: int| 0 <= j < i ==> opis_zgodny(#[trigger] r@[j], cecha_nr(j)),
        decreases N_CECH - i,
    {
        proof {
            lemma_cecha_nr_ponumerowana(i as int);
        }
        r.push(opis(cecha(i)));
        i = i + 1;
    }
    r
}

/// All names in vector order, for an export header.
pub fn nazwy() -> (r: Vec<&'static str>)
    ensures
        r@.len() == N_CECH,
        forall|i: int| 0 <= i < N_CECH ==> (#[trigger] r@[i])@ == opis_cechy(cecha_nr(i)).0,
{
    let o = opisy();
    let mut r: Vec<&'static str> = Vec::new();
    let mut i: usize = 0;
    while i < o.len()
        invariant
            o@.len() == N_CECH,
            forall|j: int| 0 <= j < N_CECH ==> opis_zgodny(#[trigger] o@[j], cecha_nr(j)),
            i <= o@.len(),
            r@.len() == i,
            forall|j: int| 0 <= j < i ==> (#[trigger] r@[j])@ == opis_cechy(cecha_nr(j)).0,
        decreases o@.len() - i,
    {
        r.push(o[i].nazwa);
        i = i + 1;
    }
    r
}

/// Index of the first random feature. Everything from here on is control.
pub fn pierwsza_losowa() -> (r: usize)
    ensures
        r == indeks_cechy(C::losowa_01),
        r == N_CECH - N_LOSOWYCH,
{
    C::losowa_01.indeks()
}

proof fn lemma_cecha_nr_ponumerowana(i: int)
    requires
        0 <= i < N_CECH,
    ensures
        cecha_nr(i) != C::KONIEC,
        indeks_cechy(cecha_nr(i)) == i,
{
}

/// Every position of the vector holds the feature of that index, and every
/// feature stands at its own index: indices and names come from one line.
pub proof fn indeksy_sa_ponumerowane()
    ensures
        forall|i: int| 0 <= i < N_CECH ==> indeks_cechy(#[trigger] cecha_nr(i)) == i,
        forall|c: C| c != C::KONIEC ==> indeks_cechy(c) < N_CECH && #[trigger] cecha_nr(indeks_cechy(c) as int) == c,
{
    assert forall|i: int| 0 <= i < N_CECH implies indeks_cechy(#[trigger] cecha_nr(i)) == i by {
        lemma_cecha_nr_ponumerowana(i);
    }
}

/// The random controls occupy exactly the tail of the vector: every feature
/// from the first random one to the end is random, and none before it is.
pub proof fn losowe_na_koncu()
    ensures
        forall|i: int| 0 <= i < N_CECH ==> ((opis_cechy(#[trigger] cecha_nr(i)).1 == Rodzina::Losowa)
            <==> i >= indeks_cechy(C::losowa_01)),
{
    assert forall|i: int| 0 <= i < N_CECH implies ((opis_cechy(#[trigger] cecha_nr(i)).1 == Rodzina::Losowa)
        <==> i >= indeks_cechy(C::losowa_01)) by {
        lemma_cecha_nr_ponumerowana(i);
    }
}

/// Kind of a management message from the channel.
#[derive(Debug, Clone, Copy, PartialEq, Eq, Structural)]
pub enum Komunikat {
    TpHit,
    RiskFree,
    Spp,
    Be,
    OutAtEntry,
    Cancel,
    CloseAll,
    SlHit,
}

/// Compact code of a message kind.
pub open spec fn kod_komunikatu(k: Komunikat) -> u8 {
    match k {
        Komunikat::TpHit => 0,
        Komunikat::RiskFree => 1,
        Komunikat::Spp => 2,
        Komunikat::Be => 3,
        Komunikat::OutAtEntry => 4,
        Komunikat::Cancel => 5,
        Komunikat::CloseAll => 6,
        Komunikat::SlHit => 7,
    }
}

pub fn kod(k: Komunikat) -> (r: u8)
    ensures
        r == kod_komunikatu(k),
{
    match k {
        Komunikat::TpHit => 0,
        Komunikat::RiskFree => 1,
        Komunikat::Spp => 2,
        Komunikat::Be => 3,
        Komunikat::OutAtEntry => 4,
        Komunikat::Cancel => 5,
        Komunikat::CloseAll => 6,
        Komunikat::SlHit => 7,
    }
}

/// Distinct message kinds have distinct codes.
pub proof fn kody_rozne(a: Komunikat, b: Komunikat)
    ensures
        kod_komunikatu(a) == kod_komunikatu(b) <==> a == b,
{
}

/// The SplitMix64 output function: a golden-ratio step followed by two
/// xor-shift-multiply rounds and a final xor-shift, all modulo 2^64.
pub open spec fn splitmix(x: u64) -> u64 {
    let z0 = x.wrapping_add(0x9E37_79B9_7F4A_7C15);
    let z1 = (z0 ^ (z0 >> 30u64)).wrapping_mul(0xBF58_476D_1CE4_E5B9);
    let z2 = (z1 ^ (z1 >> 27u64)).wrapping_mul(0x94D0_49BB_1331_11EB);
    z2 ^ (z2 >> 31u64)
}

/// Seed mixer of the random control features.
pub fn splitmix64(x: u64) -> (r: u64)
    ensures
        r == splitmix(x),
{
    let mut z = x.wrapping_add(0x9E37_79B9_7F4A_7C15);
    z = (z ^ (z >> 30)).wrapping_mul(0xBF58_476D_1CE4_E5B9);
    z = (z ^ (z >> 27)).wrapping_mul(0x94D0_49BB_1331_11EB);
    z ^ (z >> 31)
}

/// Day of the month (1 to 31) of a millisecond timestamp in server time, by
/// the civil-from-days algorithm over Euclidean division.
pub open spec fn dzien_z_czasu(ts: int) -> int {
    let z = ts / 86_400_000 + 719_468;
    let era = z / 146_097;
    let doe = z - era * 146_097;
    let yoe = (doe - doe / 1_460 + doe / 36_524 - doe / 146_096) / 365;
    let doy = doe - (365 * yoe + yoe / 4 - yoe / 100);
    let mp = (5 * doy + 2) / 153;
    doy - (153 * mp + 2) / 5 + 1
}

proof fn lemma_dzien_w_zakresie(doe: int)
    requires
        0 <= doe < 146_097,
    ensures
        ({
            let yoe = (doe - doe / 1_460 + doe / 36_524 - doe / 146_096) / 365;
            let doy = doe - (365 * yoe + yoe / 4 - yoe / 100);
            let mp = (5 * doy + 2) / 153;
            &&& 0 <= yoe <= 399
            &&& 0 <= doy <= 365
            &&& 0 <= mp <= 11
            &&& 1 <= doy - (153 * mp + 2) / 5 + 1 <= 31
        }),
{
    let yoe = (doe - doe / 1_460 + doe / 36_524 - doe / 146_096) / 365;
    assert(0 <= yoe <= 399) by (nonlinear_arith)
        requires
            0 <= doe < 146_097,
            yoe == (doe - doe / 1_460 + doe / 36_524 - doe / 146_096) / 365,
    ;
    let doy = doe - (365 * yoe + yoe / 4 - yoe / 100);
    assert(0 <= doy <= 365) by (nonlinear_arith)
        requires
            0 <= doe < 146_097,
            yoe == (doe - doe / 1_460 + doe / 36_524 - doe / 146_096) / 365,
            doy == doe - (365 * yoe + yoe / 4 - yoe / 100),
            0 <= yoe <= 399,
    ;
    let mp = (5 * doy + 2) / 153;
    assert(0 <= mp <= 11) by (nonlinear_arith)
        requires
            0 <= doy <= 365,
            mp == (5 * doy + 2) / 153,
    ;
    assert(1 <= doy - (153 * mp + 2) / 5 + 1 <= 31) by (nonlinear_arith)
        requires
            0 <= doy <= 365,
            mp == (5 * doy + 2) / 153,
            0 <= mp <= 11,
    ;
}

/// Day of the month (1 to 31) of a timestamp in server time.
pub fn dzien_miesiaca(ts: i64) -> (r: u32)
    ensures
        r == dzien_z_czasu(ts as int),
        1 <= r <= 31,
{
    let dni = ts.checked_div_euclid(86_400_000).unwrap();
    let z: i64 = dni + 719_468;
    let era = z.checked_div_euclid(146_097).unwrap();
    let doe: i64 = z - era * 146_097;
    proof {
        assert(0 <= doe < 146_097);
        lemma_dzien_w_zakresie(doe as int);
    }
    let yoe: i64 = (doe - doe / 1_460 + doe / 36_524 - doe / 146_096) / 365;
    let doy: i64 = doe - (365 * yoe + yoe / 4 - yoe / 100);
    let mp: i64 = (5 * doy + 2) / 153;
    let d: i64 = doy - (153 * mp + 2) / 5 + 1;
    d as u32
}

} // verus!
