use conduit_core::broker::Side;
use conduit_core::parser::{
    glowa_wejscia, pola_wejscia,
    basket_hints, close_layers, hit_level, wskazowki_z, LayerClose, hr_linia_loty, zapowiedz_strefy,
    at_tp_is_telemetry, is_invalidated, podsumowanie_wielu_transakcji, profit_update_kind,
    unindexed_pips_hit, wyglada_na_wejscie, ProfitUpdateKind, rodzaj_z_dopasowan,
    wejscie_z_dopasowan, podsumowanie_z_dopasowan, uniewaznienie_z_dopasowan,
};

#[test]
fn profit_updates_are_ranked_by_evidence() {
    assert_eq!(profit_update_kind("TP1 HIT"), ProfitUpdateKind::ConfirmedIndexedTp);
    assert_eq!(profit_update_kind("TP 1 and 2 hit"), ProfitUpdateKind::ConfirmedIndexedTp);
    assert_eq!(profit_update_kind("4012 hit"), ProfitUpdateKind::ConfirmedPriceLevel);
    assert_eq!(profit_update_kind("price at TP2 now"), ProfitUpdateKind::AtTpProximity);
    assert_eq!(profit_update_kind("40 pips hit"), ProfitUpdateKind::UnindexedPips);
    assert_eq!(profit_update_kind("35 pips running"), ProfitUpdateKind::RunningPips);
    assert_eq!(profit_update_kind("good morning"), ProfitUpdateKind::Other);
    assert!(at_tp_is_telemetry("at tp 3"));
    assert!(!at_tp_is_telemetry("tp3 hit"));
    assert!(unindexed_pips_hit("50 PIPS SECURED"));
    assert!(!unindexed_pips_hit("TP2 HIT"));
}

#[test]
fn entry_needs_stop_and_target() {
    assert!(wyglada_na_wejscie("GOLD BUY 4000-3995\nSL 3990\nTP 4010"));
    assert!(wyglada_na_wejscie("XAUUSD SELL\nSL: 4050\nTP1 4030 4020"));
    assert!(!wyglada_na_wejscie("GOLD BUY 4000-3995\nTP 4010"));
    assert!(!wyglada_na_wejscie("SL 3990 only"));
}

#[test]
fn recaps_and_invalidations() {
    assert!(podsumowanie_wielu_transakcji("Weekly recap"));
    assert!(podsumowanie_wielu_transakcji("Total trades: 5\nWinning trades: 4"));
    assert!(!podsumowanie_wielu_transakcji("Total trades: 5"));
    assert!(is_invalidated("INVALID"));
    assert!(is_invalidated("zone failed"));
    assert!(is_invalidated("This is no longer valid, wait for the next trade"));
    assert!(!is_invalidated("no longer valid"));
    assert!(!is_invalidated("TP1 4010"));
}

#[test]
fn profit_kind_takes_the_strongest_evidence_first() {
    assert_eq!(rodzaj_z_dopasowan(false, true, true, true, true, true), ProfitUpdateKind::ConfirmedIndexedTp);
    assert_eq!(rodzaj_z_dopasowan(true, false, false, false, false, false), ProfitUpdateKind::ConfirmedIndexedTp);
    assert_eq!(rodzaj_z_dopasowan(false, false, true, true, true, true), ProfitUpdateKind::ConfirmedPriceLevel);
    assert_eq!(rodzaj_z_dopasowan(false, false, false, true, true, true), ProfitUpdateKind::AtTpProximity);
    assert_eq!(rodzaj_z_dopasowan(false, false, false, false, true, true), ProfitUpdateKind::UnindexedPips);
    assert_eq!(rodzaj_z_dopasowan(false, false, false, false, false, true), ProfitUpdateKind::RunningPips);
    assert_eq!(rodzaj_z_dopasowan(false, false, false, false, false, false), ProfitUpdateKind::Other);
}

#[test]
fn entry_recap_and_withdrawal_combine_their_lines() {
    assert!(wejscie_z_dopasowan(true, false, true));
    assert!(!wejscie_z_dopasowan(false, true, true));
    assert!(!wejscie_z_dopasowan(true, false, false));
    assert!(podsumowanie_z_dopasowan(true, false, false));
    assert!(podsumowanie_z_dopasowan(false, true, true));
    assert!(!podsumowanie_z_dopasowan(false, true, false));
    assert!(uniewaznienie_z_dopasowan(false, false, true, true, false));
    assert!(!uniewaznienie_z_dopasowan(false, false, true, false, false));
    assert!(!uniewaznienie_z_dopasowan(false, false, false, true, false));
    assert!(uniewaznienie_z_dopasowan(false, false, false, false, true));
    assert!(uniewaznienie_z_dopasowan(false, true, false, false, false));
}

#[test]
fn hit_level_reads_sensible_prices_in_thousandths() {
    assert_eq!(hit_level("4012 hit"), Some(4_012_000));
    assert_eq!(hit_level("Gold 4012,5 HIT!"), Some(4_012_500));
    assert_eq!(hit_level("3998.25 hit"), Some(3_998_250));
    assert_eq!(hit_level("400 hit"), None);
    assert_eq!(hit_level("12000 hit"), None);
    assert_eq!(hit_level("TP1 hit"), None);
}

#[test]
fn basket_hints_are_distinct_and_in_reading_order() {
    assert_eq!(
        basket_hints("buy (4000 to 3995.5) risk free at 4001 move sl to 4000"),
        vec![4_000_000, 3_995_500, 4_001_000]
    );
    assert_eq!(basket_hints("4010 hit"), vec![4_010_000]);
    assert!(basket_hints("good morning").is_empty());
}

#[test]
fn close_layers_reads_count_level_and_optional() {
    assert_eq!(close_layers("good morning"), None);
    assert_eq!(
        close_layers("Close 2 layers now"),
        Some(LayerClose { count: Some(2), level: None, optional: false })
    );
    assert_eq!(
        close_layers("close 4005.5 layer, or you can hold"),
        Some(LayerClose { count: None, level: Some(4_005_500), optional: true })
    );
    assert_eq!(
        close_layers("Close partials"),
        Some(LayerClose { count: None, level: None, optional: false })
    );
}

#[test]
fn hint_candidates_keep_first_occurrences() {
    assert_eq!(wskazowki_z(&[Some(5), None, Some(3), Some(5), Some(3), Some(9)]), vec![5, 3, 9]);
    assert!(wskazowki_z(&[None, None]).is_empty());
}

#[test]
fn high_risk_line_about_lots_is_not_a_high_risk_trade() {
    assert!(hr_linia_loty("GOLD BUY 4000\nHIGH RISK use half lots\nSL 3990"));
    assert!(hr_linia_loty("HIGH RISK\nGOLD BUY 4000"));
    assert!(!hr_linia_loty("HIGH RISK TRADE\nGOLD BUY 4000"));
    assert!(!hr_linia_loty("  high risk  trading idea"));
    assert!(!hr_linia_loty("good morning"));
}

#[test]
fn zone_announcement_needs_words_ending_in_colon_or_naming_a_zone() {
    assert!(zapowiedz_strefy("Buy zone:\nXAUUSD BUY 4000-3995"));
    assert!(zapowiedz_strefy("Gold region XAUUSD SELL 4010"));
    assert!(!zapowiedz_strefy("XAUUSD BUY 4000"));
    assert!(!zapowiedz_strefy("HIGH RISK XAUUSD BUY 4000"));
    assert!(!zapowiedz_strefy("Gold now XAUUSD SELL 4010"));
    assert!(!zapowiedz_strefy("no entry here"));
}

#[test]
fn entry_fields_are_read_in_thousandths() {
    let text = "BUY LIMIT GOLD 4000-3995\nTP 4010 4020 4010\nSL 3990";
    assert_eq!(glowa_wejscia(text), Some((Side::Buy, true, false, 4_000_000, 3_995_000)));
    let p = pola_wejscia(text).expect("an entry");
    assert_eq!(p.side, Side::Buy);
    assert!(p.is_limit && !p.is_stop);
    assert_eq!((p.a, p.b), (4_000_000, 3_995_000));
    assert_eq!(p.tps, vec![4_010_000, 4_020_000]);
    assert_eq!(p.sl, Some(3_990_000));
    assert!(!p.tp_open && !p.tag_high_risk && !p.tag_may_not_be_around && !p.tag_first_entry);
    assert_eq!(p.warstwy_pipsy, None);
}

#[test]
fn entry_fields_carry_flags_and_layer_offset() {
    let text = "SELL GOLD @ 4050.5\nTP OPEN\nSTOP LOSS 4060\nHIGH RISK TRADE\nadding 20 pips to each limit order";
    let p = pola_wejscia(text).expect("an entry");
    assert_eq!(p.side, Side::Sell);
    assert_eq!((p.a, p.b), (4_050_500, 4_050_500));
    assert_eq!(p.sl, Some(4_060_000));
    assert!(p.tp_open && p.tag_high_risk);
    assert_eq!(p.warstwy_pipsy.as_deref(), Some("20"));
}

#[test]
fn text_without_entry_head_gives_no_fields() {
    assert_eq!(glowa_wejscia("good morning traders"), None);
    assert!(pola_wejscia("good morning traders").is_none());
}
