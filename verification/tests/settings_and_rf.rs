use conduit_core::rf_protection::{RfIncomplete, RfPendingEvidence, RfUnsecured};
use conduit_core::pending_cancel_proof::PendingProofSchema;
use conduit_core::rf_protection::{currency_valid, RfFloorSchema, RfOwner};
use conduit_core::settings::{
    default_trail_sr_activation, domyslny_format, sr_atr_period_domyslny, CelZPrzeciwnego,
    DayTrailBasis, TrailSrActivation, UstawieniaWejsc,
};
use conduit_core::tekst::{liczba_i64_z_tekstu, liczba_u32_z_tekstu, podziel, przytnij, tysieczne_z_tekstu};

#[test]
fn defaults_of_configuration_fields() {
    assert_eq!(DayTrailBasis::default(), DayTrailBasis::EquityPeak);
    assert_eq!(default_trail_sr_activation(), TrailSrActivation::Tp2);
    assert_eq!(sr_atr_period_domyslny(), 14);
    assert_eq!(domyslny_format(), "ATFX");
    assert_eq!(conduit_core::settings::cel_z_przeciwnego_domyslny(), CelZPrzeciwnego::Off);
}

#[test]
fn rf_schema_and_owner_and_currency() {
    assert_eq!(RfFloorSchema::try_from(1).unwrap().into_u16(), 1);
    assert_eq!(RfFloorSchema::try_from(2).unwrap_err(), "unsupported RF floor schema 2");
    let mut o = RfOwner {
        scope_id: "existing-adapter-scope:DEMO-42/XAUUSD".into(),
        session_generation: 7,
        basket_id: 9,
        setup_revision: 3,
        policy_revision: 4,
    };
    assert!(o.valid());
    o.scope_id = "  ".into();
    assert!(!o.valid());
    assert!(currency_valid("USD"));
    assert!(!currency_valid("usd"));
    assert!(!currency_valid("USDT"));
    assert!(!currency_valid("ÜSD"));
}

#[test]
fn pending_proof_schema_rejects_other_versions() {
    assert_eq!(PendingProofSchema::try_from(1).unwrap().into_u16(), 1);
    assert_eq!(
        PendingProofSchema::try_from(7).unwrap_err(),
        "unsupported pending proof schema 7"
    );
}

fn wejscia(uklad: &str, counts: &str, filter: bool, hours: &str) -> UstawieniaWejsc {
    UstawieniaWejsc {
        entry_units: 3,
        entry_units_limit: 0,
        entry_uklad: uklad.to_string(),
        official_counts: counts.to_string(),
        session_filter: filter,
        session_hours: hours.to_string(),
    }
}

#[test]
fn limit_entry_takes_its_own_units_only_when_set() {
    let mut u = wejscia("", "1,1,1", false, "7-20");
    assert_eq!(u.units_for(true), 3);
    assert_eq!(u.units_for(false), 3);
    u.entry_units_limit = 5;
    assert_eq!(u.units_for(true), 5);
    assert_eq!(u.units_for(false), 3);
}

#[test]
fn ladder_layout_keeps_readable_levels_between_zero_and_nine() {
    assert_eq!(wejscia("1, 2,x,12,-3", "", false, "").uklad_drabinki(), vec![1, 2, 9, 0]);
    assert!(wejscia("0, 0,-4", "", false, "").uklad_drabinki().is_empty());
    assert!(wejscia("", "", false, "").uklad_drabinki().is_empty());
    assert_eq!(wejscia("+3,,7", "", false, "").uklad_drabinki(), vec![3, 7]);
}

#[test]
fn official_counts_keep_only_unsigned_numbers() {
    assert_eq!(wejscia("", "1,1,1", false, "").parse_counts(), vec![1, 1, 1]);
    assert_eq!(
        wejscia("", " 2 ,a,+3,-1, 4294967296,4294967295", false, "").parse_counts(),
        vec![2, 3, 4294967295]
    );
    assert!(wejscia("", "", false, "").parse_counts().is_empty());
}

#[test]
fn session_gate_admits_ranges_and_single_hours() {
    assert!(wejscia("", "", false, "7-20").hours_ok(3));
    let u = wejscia("", "", true, "7-20, 22");
    assert!(u.hours_ok(7));
    assert!(u.hours_ok(19));
    assert!(!u.hours_ok(20));
    assert!(!u.hours_ok(6));
    assert!(u.hours_ok(22));
    assert!(!u.hours_ok(23));
    assert!(wejscia("", "", true, "7-").hours_ok(7));
    assert!(!wejscia("", "", true, "x-9").hours_ok(5));
    assert!(wejscia("", "", true, " 8 - 10 - 30").hours_ok(9));
    assert!(!wejscia("", "", true, "").hours_ok(0));
}

#[test]
fn decimal_readers_follow_the_standard_grammar() {
    assert_eq!(liczba_i64_z_tekstu("-9223372036854775808"), Some(i64::MIN));
    assert_eq!(liczba_i64_z_tekstu("9223372036854775807"), Some(i64::MAX));
    assert_eq!(liczba_i64_z_tekstu("9223372036854775808"), None);
    assert_eq!(liczba_i64_z_tekstu("-0"), Some(0));
    assert_eq!(liczba_i64_z_tekstu("+12"), Some(12));
    for bad in ["", "+", "-", "+-1", " 1", "1 ", "1x"] {
        assert_eq!(liczba_i64_z_tekstu(bad), None, "{bad:?}");
        assert_eq!(liczba_u32_z_tekstu(bad), None, "{bad:?}");
    }
    assert_eq!(liczba_u32_z_tekstu("007"), Some(7));
    assert_eq!(liczba_u32_z_tekstu("-1"), None);
    assert_eq!(liczba_u32_z_tekstu("4294967296"), None);
    for s in ["0", "17", "+5", "4294967295", "99999999999", "-3", "x"] {
        assert_eq!(liczba_u32_z_tekstu(s), s.parse::<u32>().ok(), "{s:?}");
        assert_eq!(liczba_i64_z_tekstu(s), s.parse::<i64>().ok(), "{s:?}");
    }
    assert_eq!(podziel("a,,b,", ','), vec!["a", "", "b", ""]);
    assert_eq!(podziel("", ','), vec![""]);
}

#[test]
fn prices_read_in_thousandths_and_trim_follows_unicode_white_space() {
    assert_eq!(tysieczne_z_tekstu("4012"), Some(4_012_000));
    assert_eq!(tysieczne_z_tekstu("4012,5"), Some(4_012_500));
    assert_eq!(tysieczne_z_tekstu("4012.05"), Some(4_012_050));
    assert_eq!(tysieczne_z_tekstu("4012.125"), Some(4_012_125));
    for bad in ["", ".5", "4012.", "4012.1234", "40a2", "1.2.3"] {
        assert_eq!(tysieczne_z_tekstu(bad), None, "{bad:?}");
    }
    for s in ["  ATFX \t", "\u{3000}x\u{a0}", "   ", "", "a b"] {
        assert_eq!(przytnij(s), s.trim(), "{s:?}");
    }
}

#[test]
fn byte_length_bound_counts_utf8_bytes() {
    assert!(conduit_core::tekst::dluzszy_niz("ab", 1));
    assert!(!conduit_core::tekst::dluzszy_niz("ab", 2));
    assert!(conduit_core::tekst::dluzszy_niz("ż", 1));
    assert!(!conduit_core::tekst::dluzszy_niz("", 0));
}

fn wlasciciel() -> RfOwner {
    RfOwner { scope_id: "acct".to_string(), session_generation: 1, basket_id: 7, setup_revision: 2, policy_revision: 3 }
}

fn kontekst() -> conduit_core::rf_protection::RfKontekst {
    conduit_core::rf_protection::RfKontekst {
        expected_owner: wlasciciel(),
        currency: "USD".to_string(),
        valuation_model_id: "model".to_string(),
        minimum_snapshot_revision: 5,
        required_ledger_revision: 9,
        snapshot_owner: wlasciciel(),
        snapshot_revision: 6,
        authoritative: true,
        all_owned_positions_complete: true,
        pending: conduit_core::rf_protection::RfPendingEvidence::NoneConfirmed {
            snapshot_revision: 6,
            cancellation_and_fills_reconciled: true,
        },
        realized_owner: wlasciciel(),
        ledger_revision: 9,
        realized_currency: "USD".to_string(),
        canonical_basis: true,
        receipts_complete_and_consumed: true,
    }
}

#[test]
fn complete_context_has_no_gaps() {
    let (braki, niezabezpieczone) = conduit_core::rf_protection::sprawdz_kontekst(&kontekst());
    assert!(braki.is_empty());
    assert!(niezabezpieczone.is_empty());
}

#[test]
fn context_gaps_come_in_evaluation_order() {
    let mut k = kontekst();
    k.valuation_model_id = "  ".to_string();
    k.snapshot_revision = 4;
    k.realized_currency = "EUR".to_string();
    k.pending = RfPendingEvidence::Present;
    let (braki, niezabezpieczone) = conduit_core::rf_protection::sprawdz_kontekst(&k);
    assert_eq!(braki, vec![RfIncomplete::InvalidContext, RfIncomplete::SnapshotStale, RfIncomplete::CurrencyMismatch]);
    assert_eq!(niezabezpieczone, vec![RfUnsecured::PendingExposureNotValued]);
    let mut k = kontekst();
    k.realized_owner.basket_id = 8;
    k.pending = RfPendingEvidence::NoneConfirmed { snapshot_revision: 5, cancellation_and_fills_reconciled: true };
    let (braki, _) = conduit_core::rf_protection::sprawdz_kontekst(&k);
    assert_eq!(braki, vec![RfIncomplete::OwnerMismatch, RfIncomplete::PendingUnconfirmed]);
}
