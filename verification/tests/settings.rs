use vantumpos::auth::{Role, SessionUser};
use vantumpos::settings::{
    eur_rate_status, load_company_settings, load_eur_rate, load_receipt_settings,
    load_sales_settings, load_shop_profile, refresh_eur_rate, save_company_settings,
    save_eur_rate, save_receipt_settings, save_sales_settings, save_shop_profile, save_tax_rate,
    seed_tax_rates, set_manual_eur_rate, tax_rate_not_found, today_utc, CompanySettingsRequest,
    EsirElement, EsirTip, EurRate, PravnaForma, RateSource, ReceiptSettingsRequest,
    SalesSettingsRequest, SaveTaxRateRequest, ShopProfileRequest, TaxRate, TaxRateWrite,
};

fn admin() -> Option<SessionUser> {
    Some(SessionUser { id: 1, role: Role::Admin })
}

fn cashier() -> Option<SessionUser> {
    Some(SessionUser { id: 2, role: Role::Cashier })
}

fn company(pib: &str, logo: Option<&str>) -> CompanySettingsRequest {
    CompanySettingsRequest {
        shop_name: "Vantum Market".to_string(),
        address: "Bulevar 1, Beograd".to_string(),
        pib: pib.to_string(),
        registration_number: "87654321".to_string(),
        phone: "+381 11 123 456".to_string(),
        logo_path: logo.map(str::to_string),
        currency: "RSD".to_string(),
    }
}

#[test]
fn company_settings_round_trip_persists_json_value() {
    let saved = save_company_settings(&admin(), company("123456789", Some("C:/logos/vantum.png")))
        .expect("company settings should save");
    assert_eq!(saved.shop_name, "Vantum Market");
    let loaded = load_company_settings(Some(saved.clone()));
    assert_eq!(loaded, saved);
}

#[test]
fn company_settings_reject_invalid_pib() {
    let error = save_company_settings(&admin(), company("12-345", None))
        .expect_err("invalid PIB should be rejected");
    assert_eq!(error.code(), "validation_error");
}

#[test]
fn company_settings_update_rejected_for_cashier() {
    let error = save_company_settings(&cashier(), company("123456789", None))
        .expect_err("cashier should not update company settings");
    assert_eq!(error.code(), "forbidden");
}

#[test]
fn company_settings_default_until_saved_and_are_normalized() {
    let defaults = load_company_settings(None);
    assert_eq!(defaults.shop_name, "VantumPOS");
    assert_eq!(defaults.currency, "RSD");
    assert!(defaults.logo_path.is_none());

    let mut request = company(" 123456789 ", Some("   "));
    request.shop_name = "  Radnja  ".to_string();
    request.currency = " rsd ".to_string();
    let saved = save_company_settings(&admin(), request).expect("lower-case rsd is RSD");
    assert_eq!(saved.shop_name, "Radnja");
    assert_eq!(saved.pib, "123456789");
    assert_eq!(saved.currency, "RSD");
    assert_eq!(saved.logo_path, None, "a blank logo path is no logo");

    let mut eur = company("", None);
    eur.currency = "EUR".to_string();
    let error = save_company_settings(&admin(), eur).expect_err("only RSD");
    assert_eq!(error.code(), "validation_error");

    let mut nameless = company("", None);
    nameless.shop_name = " ".to_string();
    assert_eq!(
        save_company_settings(&admin(), nameless).expect_err("name").code(),
        "validation_error"
    );
    assert_eq!(
        save_company_settings(&None, company("", None)).expect_err("anonymous").code(),
        "unauthorized"
    );
}

#[test]
fn tax_rate_update_unknown_id_returns_not_found() {
    let write = save_tax_rate(
        &admin(),
        SaveTaxRateRequest { id: Some(9_999), name: "PDV 20".to_string(), rate_basis_points: 2000, active: false },
    )
    .expect("the request itself is valid");
    assert_eq!(write.id, Some(9_999));
    assert_eq!(tax_rate_not_found().code(), "not_found");
}

/// Applies a decided tax-rate write to an in-memory table, as storage does.
fn apply(table: &mut Vec<TaxRate>, write: TaxRateWrite) -> TaxRate {
    match write.id {
        Some(id) => {
            let row = table.iter_mut().find(|r| r.id == id).expect("the row exists");
            row.name = write.name;
            row.rate_basis_points = write.rate_basis_points;
            row.active = write.active;
            row.clone()
        }
        None => {
            let row = TaxRate {
                id: table.len() as i64 + 1,
                name: write.name,
                rate_basis_points: write.rate_basis_points,
                active: write.active,
            };
            table.push(row.clone());
            row
        }
    }
}

#[test]
fn tax_rate_create_and_update_persists_active_state() {
    let mut table = Vec::new();
    let created = apply(
        &mut table,
        save_tax_rate(
            &admin(),
            SaveTaxRateRequest { id: None, name: "PDV 20%".to_string(), rate_basis_points: 2000, active: true },
        )
        .expect("tax rate should be created"),
    );
    let updated = apply(
        &mut table,
        save_tax_rate(
            &admin(),
            SaveTaxRateRequest { id: Some(created.id), name: "PDV 20".to_string(), rate_basis_points: 2000, active: false },
        )
        .expect("tax rate should update"),
    );
    assert!(!updated.active);
    assert_eq!(table, vec![updated]);
}

#[test]
fn tax_rate_deactivate_keeps_row_in_list() {
    let mut table = Vec::new();
    let created = apply(
        &mut table,
        save_tax_rate(
            &admin(),
            SaveTaxRateRequest { id: None, name: "PDV 20".to_string(), rate_basis_points: 2000, active: true },
        )
        .expect("tax rate should be created"),
    );
    apply(
        &mut table,
        save_tax_rate(
            &admin(),
            SaveTaxRateRequest {
                id: Some(created.id),
                name: created.name.clone(),
                rate_basis_points: created.rate_basis_points,
                active: false,
            },
        )
        .expect("tax rate should deactivate"),
    );
    let stored = table.iter().find(|rate| rate.id == created.id).expect("deactivated rate should still be present");
    assert!(!stored.active);
}

#[test]
fn tax_rate_save_rejected_for_cashier() {
    let error = save_tax_rate(
        &cashier(),
        SaveTaxRateRequest { id: None, name: "PDV 20".to_string(), rate_basis_points: 2000, active: true },
    )
    .expect_err("cashier should not save tax rates");
    assert_eq!(error.code(), "forbidden");
}

#[test]
fn tax_rate_needs_a_name_and_a_rate_within_one_hundred_percent() {
    let blank = save_tax_rate(
        &admin(),
        SaveTaxRateRequest { id: None, name: "  ".to_string(), rate_basis_points: 2000, active: true },
    )
    .expect_err("blank name");
    assert_eq!(blank.code(), "validation_error");
    let over = save_tax_rate(
        &admin(),
        SaveTaxRateRequest { id: None, name: "X".to_string(), rate_basis_points: 10_001, active: true },
    )
    .expect_err("over 100 %");
    assert_eq!(over.code(), "validation_error");
    let ok = save_tax_rate(
        &admin(),
        SaveTaxRateRequest { id: None, name: " PDV 20% ".to_string(), rate_basis_points: 10_000, active: true },
    )
    .expect("100 % is a rate");
    assert_eq!(ok.name, "PDV 20%");
}

#[test]
fn receipt_numbering_round_trip_persists_no_reset_policy() {
    let saved = save_receipt_settings(
        &admin(),
        ReceiptSettingsRequest { prefix: "VP-".to_string(), next_sequence_number: 42 },
    )
    .expect("receipt settings should save");
    assert_eq!(saved.reset_policy, "none");
    let loaded = load_receipt_settings(Some(saved.clone()));
    assert_eq!(loaded, saved);
}

#[test]
fn receipt_numbering_update_allowed_for_admin() {
    let saved = save_receipt_settings(
        &admin(),
        ReceiptSettingsRequest { prefix: "VP-".to_string(), next_sequence_number: 7 },
    )
    .expect("admin should update receipt numbering");
    assert_eq!(saved.next_sequence_number, 7);
}

#[test]
fn receipt_numbering_update_rejected_for_cashier() {
    let error = save_receipt_settings(
        &cashier(),
        ReceiptSettingsRequest { prefix: "VP-".to_string(), next_sequence_number: 7 },
    )
    .expect_err("cashier should not update receipt numbering");
    assert_eq!(error.code(), "forbidden");
}

#[test]
fn receipt_numbering_update_rejected_without_session() {
    let error = save_receipt_settings(
        &None,
        ReceiptSettingsRequest { prefix: "VP-".to_string(), next_sequence_number: 7 },
    )
    .expect_err("anonymous caller should not update receipt numbering");
    assert_eq!(error.code(), "unauthorized");
}

#[test]
fn receipt_numbering_defaults_and_refusals() {
    let defaults = load_receipt_settings(None);
    assert_eq!(defaults.prefix, "VP-");
    assert_eq!(defaults.next_sequence_number, 1);
    assert_eq!(defaults.reset_policy, "none");
    let zero = save_receipt_settings(
        &admin(),
        ReceiptSettingsRequest { prefix: "VP-".to_string(), next_sequence_number: 0 },
    )
    .expect_err("the next number is positive");
    assert_eq!(zero.code(), "validation_error");
    let blank = save_receipt_settings(
        &admin(),
        ReceiptSettingsRequest { prefix: " ".to_string(), next_sequence_number: 3 },
    )
    .expect_err("a prefix is required");
    assert_eq!(blank.code(), "validation_error");
}

#[test]
fn seed_tax_rates_creates_vat_rates_when_in_system() {
    let rates = seed_tax_rates(&admin(), 0, true).expect("seed should succeed");
    assert_eq!(rates.len(), 2);
    let bps: Vec<i64> = rates.iter().map(|r| r.rate_basis_points).collect();
    assert!(bps.contains(&2000) && bps.contains(&1000), "got {bps:?}");
}

#[test]
fn seed_tax_rates_creates_single_zero_rate_when_not_in_system() {
    let rates = seed_tax_rates(&admin(), 0, false).expect("seed should succeed");
    assert_eq!(rates.len(), 1);
    assert_eq!(rates[0].rate_basis_points, 0);
    assert_eq!(rates[0].name, "Bez PDV-a");
}

#[test]
fn seed_tax_rates_is_idempotent() {
    let first = seed_tax_rates(&admin(), 0, true).expect("first seed");
    let second = seed_tax_rates(&admin(), first.len() as i64, false).expect("second seed is a no-op");
    assert_eq!(first.len() + second.len(), 2, "existing rates must not be overwritten");
}

#[test]
fn seed_tax_rates_rejects_cashier() {
    let error = seed_tax_rates(&cashier(), 0, true).expect_err("cashier is forbidden");
    assert_eq!(error.code(), "forbidden");
}

#[test]
fn sales_settings_refuse_overselling_until_saved() {
    assert!(!load_sales_settings(None).allow_overselling);
    let saved = save_sales_settings(&admin(), SalesSettingsRequest { allow_overselling: true })
        .expect("admin saves");
    assert!(load_sales_settings(Some(saved)).allow_overselling);
    assert_eq!(
        save_sales_settings(&cashier(), SalesSettingsRequest { allow_overselling: true })
            .expect_err("cashier")
            .code(),
        "forbidden"
    );
}

fn profile_request() -> ShopProfileRequest {
    ShopProfileRequest {
        pravna_forma: Some(PravnaForma::Preduzetnik),
        pdv_obveznik: Some(false),
        distance_selling: Some(true),
        lpfr_in_premises: Some(true),
        esir_elements: vec![EsirElement {
            naziv: "Master ESIR".to_string(),
            verzija: "2.1.4".to_string(),
            ib: "338".to_string(),
            tip: EsirTip::Esir,
            checked_on: Some("2026-07-31".to_string()),
        }],
    }
}

#[test]
fn shop_profile_defaults_to_unset_and_never_infers_legal_form() {
    let profile = load_shop_profile(None);
    assert_eq!(profile.pravna_forma, None, "legal form must never be inferred");
    assert_eq!(profile.pdv_obveznik, None);
    assert_eq!(profile.distance_selling, None);
    assert_eq!(profile.lpfr_in_premises, None);
    assert!(profile.esir_elements.is_empty());
}

#[test]
fn shop_profile_round_trips_and_requires_admin() {
    let error = save_shop_profile(&None, profile_request()).expect_err("a signed-out caller must be rejected");
    assert_eq!(error.code(), "unauthorized");
    let saved = save_shop_profile(&admin(), profile_request()).expect("admin should save");
    assert_eq!(saved.pravna_forma, Some(PravnaForma::Preduzetnik));
    assert_eq!(saved.distance_selling, Some(true));
    assert_eq!(saved.esir_elements[0].verzija, "2.1.4");
    let reloaded = load_shop_profile(Some(saved.clone()));
    assert_eq!(reloaded, saved);
}

#[test]
fn shop_profile_save_rejected_for_cashier() {
    let error = save_shop_profile(
        &cashier(),
        ShopProfileRequest {
            pravna_forma: Some(PravnaForma::PravnoLice),
            pdv_obveznik: Some(true),
            distance_selling: Some(true),
            lpfr_in_premises: Some(true),
            esir_elements: Vec::new(),
        },
    )
    .expect_err("cashier is forbidden");
    assert_eq!(error.code(), "forbidden");
}

#[test]
fn an_esir_element_needs_naziv_verzija_and_ib() {
    let mut request = profile_request();
    request.esir_elements[0].ib = "  ".to_string();
    let error = save_shop_profile(&admin(), request).expect_err("blank IB");
    assert_eq!(error.code(), "validation_error");
    let mut request = profile_request();
    request.esir_elements[0].naziv = " Master ESIR ".to_string();
    let saved = save_shop_profile(&admin(), request).expect("trimmed");
    assert_eq!(saved.esir_elements[0].naziv, "Master ESIR");
    assert_eq!(saved.esir_elements[0].checked_on.as_deref(), Some("2026-07-31"));
}

fn rate(minor: i64, date: &str, source: RateSource) -> EurRate {
    EurRate { rate_minor: minor, rate_date: date.to_string(), source }
}

#[test]
fn eur_rate_cache_is_absent_until_saved_and_round_trips() {
    assert!(load_eur_rate(None).is_none(), "no rate is cached before the first refresh");
    let r = rate(11723, "2026-07-31", RateSource::Nbs);
    let stored = save_eur_rate(r.clone());
    let reloaded = load_eur_rate(Some(stored)).expect("a saved rate is cached");
    assert_eq!(reloaded, r, "para-per-EUR, date and source all survive");
}

#[test]
fn rate_status_reports_staleness_without_touching_the_network() {
    let status = eur_rate_status(None, "2026-07-31");
    assert!(status.rate.is_none(), "no rate cached yet");
    assert!(status.is_stale, "an absent rate is stale");

    let status = eur_rate_status(Some(rate(11723, "2026-07-30", RateSource::Nbs)), "2026-07-31");
    assert!(status.is_stale, "yesterday's rate is stale for today");
    assert_eq!(status.rate.expect("cached").rate_minor, 11723);

    let status = eur_rate_status(Some(rate(11800, "2026-07-31", RateSource::Manual)), "2026-07-31");
    assert!(!status.is_stale, "today's rate is fresh regardless of source");
    assert_eq!(status.checked_for, "2026-07-31");
}

#[test]
fn manual_rate_rejects_a_non_positive_amount() {
    let error = set_manual_eur_rate(&admin(), 0, "2026-07-31").expect_err("a zero rate must be rejected");
    assert_eq!(error.code(), "validation_error");
}

#[test]
fn manual_and_refresh_rates_are_admin_only() {
    let error = set_manual_eur_rate(&cashier(), 11_723, "2026-07-31")
        .expect_err("cashier must not set the AML rate");
    assert_eq!(error.code(), "forbidden");
    let error = refresh_eur_rate(&cashier(), None, None, "2026-07-31").expect_err("cashier must not refresh");
    assert_eq!(error.code(), "forbidden", "the admin gate must precede the network call");
}

#[test]
fn a_manual_rate_is_fresh_on_its_own_date() {
    let (stored, status) = set_manual_eur_rate(&admin(), 11_723, "2026-07-31").expect("admin");
    assert_eq!(stored.source, RateSource::Manual);
    assert_eq!(status.rate, Some(stored));
    assert!(!status.is_stale);
}

#[test]
fn a_failed_refresh_keeps_the_cached_rate() {
    let cached = rate(11700, "2026-07-30", RateSource::Nbs);
    let (to_store, status) =
        refresh_eur_rate(&admin(), Some(cached.clone()), None, "2026-07-31").expect("never an error");
    assert!(to_store.is_none());
    assert_eq!(status.rate, Some(cached));
    assert!(status.is_stale);

    let fresh = rate(11723, "2026-07-31", RateSource::Nbs);
    let (to_store, status) =
        refresh_eur_rate(&admin(), None, Some(fresh.clone()), "2026-07-31").expect("fetched");
    assert_eq!(to_store, Some(fresh.clone()));
    assert_eq!(status.rate, Some(fresh));
    assert!(!status.is_stale);
}

#[test]
fn today_is_the_calendar_day_of_the_stamp() {
    assert_eq!(today_utc("2026-07-31T09:15:00Z"), "2026-07-31");
    assert_eq!(today_utc("2026-07-31"), "2026-07-31");
    assert_eq!(today_utc(""), "");
}
