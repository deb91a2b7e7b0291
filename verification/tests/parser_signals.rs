use conduit_core::broker::Side;
use conduit_core::parser::{
    odczyt_geometryczny_pola, parse_z_opcjami, pola_wejscia, profit_update_kind, suppress_at_tp_hits,
    tekst_obszaru, unindexed_pips_hit,
    Geometria, OpcjeParsera, PolaWejscia, ProfitUpdateKind, Sygnal,
};

fn opcje() -> OpcjeParsera {
    OpcjeParsera {
        rf_wymaga_wykonania: true,
        partials_jako_komenda: true,
        luz_interpunkcyjny: true,
        recap_guard: true,
        ..OpcjeParsera::default()
    }
}

/// The entry verdict of the price geometry for these texts: an entry head
/// with take-profit targets on the right side of it.
fn geometria(text: &str) -> Geometria {
    let wejscie = match pola_wejscia(text) {
        Some(p) => {
            let mid2 = p.a + p.b;
            p.tps.iter().any(|&t| match p.side {
                Side::Buy => 2 * t > mid2,
                Side::Sell => 2 * t < mid2,
            })
        }
        None => false,
    };
    Geometria { wejscie, wejscie_obszar: false, odczyt_pewny: false }
}

fn parse(text: &str) -> Vec<Sygnal> {
    parse_z_opcjami(text, opcje(), geometria(text))
}

fn parse_domyslnie(text: &str) -> Vec<Sygnal> {
    parse_z_opcjami(text, OpcjeParsera::default(), geometria(text))
}

fn entry(text: &str) -> PolaWejscia {
    assert!(parse(text).iter().any(|s| matches!(s, Sygnal::Entry)), "missing synthetic entry: {text}");
    pola_wejscia(text).expect("entry fields")
}

#[test]
fn entry_separator_and_direction_matrix() {
    for symbol in ["GOLD", "XAUUSD", "XAU"] {
        for separator in ["/", "_", "-", "–", " TO "] {
            for side in [Side::Buy, Side::Sell] {
                let (direction, tp, sl) = if side == Side::Buy { ("BUY", 2120u64, 2080u64) } else { ("SELL", 2080, 2120) };
                let text = format!("{direction} LIMITS {symbol} @ 2105{separator}2100\nTP1 {tp}\nSL {sl}");
                let e = entry(&text);
                assert_eq!(
                    (e.side, e.a.min(e.b), e.a.max(e.b), e.sl, e.tps.clone()),
                    (side, 2_100_000, 2_105_000, Some(sl * 1000), vec![tp * 1000])
                );
                assert!(e.is_limit);
            }
        }
    }
}

#[test]
fn decimal_comma_and_point_produce_identical_geometry() {
    let a = entry("BUY LIMITS GOLD @ 2100.5/2098.5\nTP1 2110.5\nSL 2090.5");
    let b = entry("BUY LIMITS GOLD @ 2100,5/2098,5\nTP1 2110,5\nSL 2090,5");
    assert_eq!(a, b);
    assert_eq!((a.a, a.b, a.sl), (2_100_500, 2_098_500, Some(2_090_500)));
}

#[test]
fn cosmetics_do_not_change_entry_geometry() {
    let raw = "BUY LIMITS GOLD @ 2100/2095\nTP1 2110\nTP2 2120\nSL 2090";
    for decorated in [raw.to_lowercase(), format!("🟢 {raw}\nGood luck!"), raw.replace('\n', "\r\n")] {
        assert_eq!(entry(raw), entry(&decorated));
    }
}

#[test]
fn buy_and_sell_now_have_no_fabricated_geometry() {
    assert_eq!(parse("BUY NOW"), vec![Sygnal::MarketOpen { side: Side::Buy }]);
    assert_eq!(parse("SELL NOW"), vec![Sygnal::MarketOpen { side: Side::Sell }]);
}

#[test]
fn price_bearing_entry_does_not_also_emit_market_now() {
    let parsed = parse("BUY NOW\nBUY GOLD @ 2100/2095\nTP1 2110\nSL 2090");
    assert!(parsed.iter().any(|s| matches!(s, Sygnal::Entry)));
    assert!(!parsed.iter().any(|s| matches!(s, Sygnal::MarketOpen { .. })));
}

#[test]
fn edited_hit_summary_does_not_open_the_old_entry_again() {
    for suffix in ["TP1 HIT", "SL HIT"] {
        let parsed = parse(&format!("BUY LIMITS GOLD @ 2100/2095\nTP1 2110\nSL 2090\n{suffix}"));
        assert!(!parsed.iter().any(|s| matches!(s, Sygnal::Entry)));
    }
}

#[test]
fn combined_hits_are_two_ordered_commands() {
    assert_eq!(parse("TP1 AND 2 HIT"), vec![Sygnal::TpHit { index: Some(1) }, Sygnal::TpHit { index: Some(2) }]);
}

#[test]
fn at_tp_telemetry_preserves_explicit_stop_management() {
    let text = "AT TP1\nMOVE SL TO 2101";
    let mut parsed = parse(text);
    assert_eq!(suppress_at_tp_hits(&mut parsed, text), 1);
    assert_eq!(parsed, vec![Sygnal::SetSl { value: 2_101_000 }]);
}

#[test]
fn running_pips_is_not_confirmed_tp() {
    assert!(parse("+45 PIPS RUNNING").iter().all(|s| !matches!(s, Sygnal::TpHit { .. })));
    assert_eq!(profit_update_kind("+45 PIPS RUNNING"), ProfitUpdateKind::RunningPips);
    assert!(unindexed_pips_hit("+45 PIPS HIT"));
}

#[test]
fn risk_free_intention_is_distinct_from_execution() {
    for text in ["WILL MAKE THIS RISK FREE", "LOOK TO GO RISK FREE", "TRY TO MAKE IT RISK FREE"] {
        assert!(!parse(text).iter().any(|s| matches!(s, Sygnal::RiskFree { .. })), "{text}");
    }
    assert!(parse("RISK FREE NOW").iter().any(|s| matches!(s, Sygnal::RiskFree { .. })));
}

#[test]
fn correction_and_stop_edit_values_are_kept() {
    for text in ["USE 2112 AS TP2", "TP2 CHANGED TO 2112", "TP2 SHOULD BE 2112"] {
        assert!(parse(text).contains(&Sygnal::TpCorrection { index: 2, value: 2_112_000 }), "{text}");
    }
    assert!(parse("SET SL TO 2101").contains(&Sygnal::SetSl { value: 2_101_000 }));
}

#[test]
fn optional_partial_is_not_an_unconditional_exit() {
    assert!(!parse("YOU CAN CLOSE THE WORST LAYER").iter().any(|s| matches!(s, Sygnal::TakePartials | Sygnal::CloseAll)));
    assert!(parse("CLOSE ALL").contains(&Sygnal::CloseAll));
}

#[test]
fn blank_and_service_text_never_create_risk() {
    for text in ["", "   ", "\n", "Good morning", "Thanks", "Preparing a setup"] {
        assert!(!parse(text).iter().any(|s| matches!(s, Sygnal::Entry | Sygnal::MarketOpen { .. })));
    }
}

#[test]
fn parses_synthetic_limit_entry() {
    let text = "BUY LIMITS GOLD @ 2100/2095 AREA\nTP1 2103\nTP2 2107\nTP OPEN\nSL 2090\nHIGH RISK TRADE";
    let parsed = parse_domyslnie(text);
    assert_eq!(parsed[0], Sygnal::Entry);
    let e = pola_wejscia(text).expect("entry fields");
    assert_eq!(e.side, Side::Buy);
    assert!(e.is_limit);
    assert_eq!((e.a.min(e.b), e.a.max(e.b)), (2_095_000, 2_100_000));
    assert_eq!(e.sl, Some(2_090_000));
    assert_eq!(e.tps, vec![2_103_000, 2_107_000]);
    assert!(e.tp_open);
    assert!(e.tag_high_risk);
}

#[test]
fn parses_synthetic_management_actions() {
    assert_eq!(parse_domyslnie("TP1 HIT")[0].action_key(), "tp1");
    assert!(parse_domyslnie("SL HIT").iter().any(|s| matches!(s, Sygnal::SlHit)));
    assert!(parse_domyslnie("INVALID").iter().any(|s| matches!(s, Sygnal::Cancel)));
    assert!(matches!(
        parse_domyslnie("RISK FREE AT 2112")[0],
        Sygnal::RiskFree { level: Some(v) } if v == 2_112_000
    ));
}

#[test]
fn partial_securing_lists_every_target_and_stop() {
    let parsed = parse("SECURING PARTIALS\nTARGETS: 2110 2120.5\nSL 2090\nSL SET AT 2100");
    assert!(parsed.contains(&Sygnal::SecuringPartial {
        targets: vec![2_110_000, 2_120_500],
        sl: Some(2_090_000),
        spp_be_level: Some(2_100_000),
    }));
}

#[test]
fn bare_numbered_targets_are_hits_once_each() {
    assert_eq!(
        parse("TP1\nTP2\nTP1"),
        vec![Sygnal::TpHit { index: Some(1) }, Sygnal::TpHit { index: Some(2) }]
    );
}

#[test]
fn retrospective_or_empty_message_is_info() {
    assert_eq!(parse("For anyone that took the trade, well done"), vec![Sygnal::Info]);
    assert_eq!(parse("Good morning"), vec![Sygnal::Info]);
    assert_eq!(parse("SET BE"), vec![Sygnal::BreakEven]);
}

#[test]
fn suppression_keeps_hits_when_not_at_tp() {
    let mut v = vec![Sygnal::TpHit { index: Some(1) }];
    assert_eq!(suppress_at_tp_hits(&mut v, "TP1 HIT"), 0);
    assert_eq!(v.len(), 1);
}

#[test]
fn area_head_is_rewritten_for_the_entry_reader() {
    assert_eq!(tekst_obszaru("BUY GOLD AREA @ 2100\nTP 2110").as_deref(), Some("BUY GOLD @ 2100\nTP 2110"));
    assert_eq!(tekst_obszaru("BUY GOLD @ 2100\nTP 2110"), None);
}

#[test]
fn geometric_reading_collects_sorted_distinct_levels() {
    let g = odczyt_geometryczny_pola("SELL 2105 2100\nSL 2112\nTP 2090 2080 2090").expect("a reading");
    assert_eq!(g.side, Side::Sell);
    assert_eq!(g.poziomy, vec![2_080_000, 2_090_000, 2_100_000, 2_105_000, 2_112_000]);
    assert_eq!(g.w_linii, vec![2_100_000, 2_105_000]);
    assert!(!g.is_limit && !g.is_stop);
}

#[test]
fn geometric_reading_refuses_unclear_texts() {
    assert!(odczyt_geometryczny_pola("BUY or SELL 2100 2110 2120").is_none());
    assert!(odczyt_geometryczny_pola("TP1 HIT 2100 2110 2120 BUY").is_none());
    let long = format!("BUY 2100 2110 2120 {}", "x".repeat(600));
    assert!(odczyt_geometryczny_pola(&long).is_none());
}

#[test]
fn value_aware_action_keys_are_deterministic() {
    assert_eq!(Sygnal::SetSl { value: 2_088_000 }.action_key_v2(), "setsl@2088");
    assert_eq!(Sygnal::TpCorrection { index: 2, value: 2_120_000 }.action_key_v2(), "corr2@2120");
}

#[test]
fn action_keys_spell_prices_without_trailing_zeros() {
    assert_eq!(Sygnal::RiskFree { level: Some(2_112_500) }.action_key_v2(), "rf@2112.5");
    assert_eq!(Sygnal::RiskFree { level: None }.action_key_v2(), "rf@-");
    assert_eq!(
        Sygnal::SecuringPartial { targets: vec![2_110_050, 2_120_125], sl: None, spp_be_level: Some(2_100_000) }
            .action_key_v2(),
        "spp@2110.05/2120.125|sl:-|be:2100"
    );
    assert_eq!(Sygnal::MarketOpen { side: Side::Sell }.action_key(), "mktSell");
    assert_eq!(Sygnal::TpHit { index: None }.action_key_v2(), "tp");
}

#[test]
fn readers_of_captured_groups_decide_alone() {
    assert_eq!(conduit_core::parser::poziom_z_grupy(Some("4012,5")), Some(4_012_500));
    assert_eq!(conduit_core::parser::poziom_z_grupy(Some("912")), None);
    assert_eq!(conduit_core::parser::poziom_z_grupy(None), None);
    assert!(conduit_core::parser::zapowiedz_z_tekstu_przed("Gold zone:\n"));
    assert!(!conduit_core::parser::zapowiedz_z_tekstu_przed("High risk\n"));
    assert!(!conduit_core::parser::zapowiedz_z_tekstu_przed(""));
    let linie = vec![vec![Some("HIGH RISK half lots".to_string()), Some(" half lots".to_string())]];
    assert!(conduit_core::parser::linia_hr_z_dopasowan(&linie));
    let handel = vec![vec![Some("HIGH RISK trade".to_string()), Some(" trade".to_string())]];
    assert!(!conduit_core::parser::linia_hr_z_dopasowan(&handel));
}
