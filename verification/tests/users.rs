use vantumpos::auth::{require_admin, Role, SessionUser};
use vantumpos::error::{AppError, Detail};
use vantumpos::users::{
    create_user, credentials_after_update, ensure_unique_username, normalize_profile,
    normalized_date, normalized_sifra, update_user, user_not_found, EmployeeProfile,
    SaveUserRequest, UserHashes, MAX_SIFRA_DUZINA, PUNO_RADNO_VREME_MINUTA_NEDELJNO,
};

fn save_request(username: &str) -> SaveUserRequest {
    SaveUserRequest {
        username: username.to_string(),
        display_name: "Jelena Đurić".to_string(),
        role: "cashier".to_string(),
        active: true,
        pin: Some("4321".to_string()),
        password: None,
        profile: None,
    }
}

fn full_profile() -> EmployeeProfile {
    EmployeeProfile {
        datum_rodjenja: Some("1994-04-11".to_string()),
        datum_rodjenja_najmladjeg_deteta: Some("2024-02-29".to_string()),
        samohrani_roditelj: Some(true),
        dete_tezak_invalid: Some(false),
        trudnoca_ili_dojenje: Some(true),
        trudnoca_ili_dojenje_od: Some("2026-05-04".to_string()),
        radi_u_preraspodeli: true,
        ugovoreno_radno_vreme_minuta_nedeljno: Some(2400),
        zanimanje_sifra: Some("5223.02".to_string()),
        kvalifikacija_sifra: Some("IV".to_string()),
        saglasnost_prekovremeni_od: Some("2026-06-01".to_string()),
    }
}

fn validation_parts(error: AppError) -> (String, String) {
    match error {
        AppError::Validation { message, details } => {
            let field = details
                .iter()
                .find_map(|(key, value)| match value {
                    Detail::Text(text) if key == "field" => Some(text.clone()),
                    _ => None,
                })
                .expect("field details");
            (message, field)
        }
        other => panic!("expected a validation error, got {other:?}"),
    }
}

#[test]
fn create_user_persists_every_cl_87_91_profile_field() {
    let mut request = save_request("jelena");
    request.profile = Some(full_profile());
    let created = create_user(request).expect("user should be created");
    assert_eq!(created.profile, Some(full_profile()));
}

#[test]
fn a_date_the_v17_glob_check_admits_is_still_rejected_here() {
    let mut request = save_request("nevena");
    request.profile = Some(EmployeeProfile {
        datum_rodjenja: Some("2009-13-45".to_string()),
        ..EmployeeProfile::default()
    });
    let error = create_user(request).expect_err("13th month is not a date");
    let (message, field) = validation_parts(error);
    assert!(
        message.contains("Datum rođenja") && message.contains("čl. 87"),
        "the message must name the field and the article it serves: {message}"
    );
    assert_eq!(field, "datumRodjenja");
}

#[test]
fn the_cl_90_flag_and_its_date_are_saved_together_or_not_at_all() {
    let mut flag_without_date = save_request("milica");
    flag_without_date.profile = Some(EmployeeProfile {
        trudnoca_ili_dojenje: Some(true),
        trudnoca_ili_dojenje_od: None,
        ..EmployeeProfile::default()
    });
    let (message, _) = validation_parts(create_user(flag_without_date).expect_err("the flag needs its od date"));
    assert!(message.contains("čl. 90"), "the message must name čl. 90: {message}");

    let mut date_without_flag = save_request("milica");
    date_without_flag.profile = Some(EmployeeProfile {
        trudnoca_ili_dojenje: None,
        trudnoca_ili_dojenje_od: Some("2026-05-04".to_string()),
        ..EmployeeProfile::default()
    });
    let (message, _) = validation_parts(create_user(date_without_flag).expect_err("a date alone says nothing"));
    assert!(message.contains("čl. 90"), "the message must name čl. 90: {message}");
}

#[test]
fn an_update_without_a_profile_leaves_the_stored_profile_untouched() {
    let mut role_change = save_request("branka");
    role_change.role = "admin".to_string();
    role_change.profile = None;
    let normalized = update_user(role_change).expect("user should update");
    assert_eq!(normalized.role, "admin");
    assert!(normalized.profile.is_none(), "no profile carried means none written");
}

#[test]
fn zanimanje_and_kvalifikacija_are_codes_not_descriptions() {
    let mut request = save_request("stevan");
    request.profile = Some(EmployeeProfile {
        zanimanje_sifra: Some("Trgovac u prodavnici odeće".to_string()),
        ..EmployeeProfile::default()
    });
    let (message, field) = validation_parts(create_user(request).expect_err("a description is not a code"));
    assert!(
        message.contains("šifra") && message.contains("ZEOR čl. 44 st. 2"),
        "the message must name the kodeks duty: {message}"
    );
    assert_eq!(field, "zanimanjeSifra");

    let mut kvalifikacija = save_request("stevan");
    kvalifikacija.profile = Some(EmployeeProfile {
        kvalifikacija_sifra: Some("srednja stručna sprema".to_string()),
        ..EmployeeProfile::default()
    });
    let (_, field) = validation_parts(create_user(kvalifikacija).expect_err("a description is not a code"));
    assert_eq!(field, "kvalifikacijaSifra");

    let mut valid = save_request("stevan");
    valid.profile = Some(EmployeeProfile {
        zanimanje_sifra: Some("  5223.02  ".to_string()),
        kvalifikacija_sifra: Some("IV".to_string()),
        ..EmployeeProfile::default()
    });
    let created = create_user(valid).expect("a code should be accepted");
    let stored = created.profile.expect("profile carried");
    assert_eq!(stored.zanimanje_sifra.as_deref(), Some("5223.02"));
    assert_eq!(stored.kvalifikacija_sifra.as_deref(), Some("IV"));
}

#[test]
fn contracted_weekly_time_stays_within_puno_radno_vreme() {
    for minutes in [0_i64, -60, 2401] {
        let mut request = save_request("vesna");
        request.profile = Some(EmployeeProfile {
            ugovoreno_radno_vreme_minuta_nedeljno: Some(minutes),
            ..EmployeeProfile::default()
        });
        let error = create_user(request)
            .err()
            .unwrap_or_else(|| panic!("{minutes} minutes weekly must be rejected"));
        let (_, field) = validation_parts(error);
        assert_eq!(field, "ugovorenoRadnoVremeMinutaNedeljno");
    }

    let mut puno = save_request("vesna");
    puno.profile = Some(EmployeeProfile {
        ugovoreno_radno_vreme_minuta_nedeljno: Some(2400),
        ..EmployeeProfile::default()
    });
    let created = create_user(puno).expect("40 hours weekly is puno radno vreme");
    assert_eq!(created.profile.unwrap().ugovoreno_radno_vreme_minuta_nedeljno, Some(2400));
    assert_eq!(PUNO_RADNO_VREME_MINUTA_NEDELJNO, 40 * 60);
}

#[test]
fn employee_profile_is_admin_only() {
    let error = require_admin(&Some(SessionUser { id: 5, role: Role::Cashier }))
        .expect_err("a cashier must not read an employee profile");
    assert_eq!(error.code(), "forbidden");
}

// Further scenarios.

#[test]
fn a_new_account_needs_a_pin_or_a_password() {
    let mut request = save_request("bez");
    request.pin = Some("   ".to_string());
    let (_, field) = validation_parts(create_user(request).expect_err("no credential"));
    assert_eq!(field, "pin");
}

#[test]
fn names_and_role_are_trimmed_and_required() {
    let mut request = save_request("  ana  ");
    request.role = " admin ".to_string();
    let n = create_user(request).expect("valid");
    assert_eq!(n.username, "ana");
    assert_eq!(n.role, "admin");
    assert_eq!(n.display_name, "Jelena Đurić");

    let mut blank = save_request("   ");
    blank.display_name = "".to_string();
    assert_eq!(validation_parts(create_user(blank).unwrap_err()).1, "username");
    let mut unnamed = save_request("ana");
    unnamed.display_name = " ".to_string();
    assert_eq!(validation_parts(create_user(unnamed).unwrap_err()).1, "displayName");
    let mut role = save_request("ana");
    role.role = "manager".to_string();
    assert_eq!(validation_parts(update_user(role).unwrap_err()).1, "role");
}

#[test]
fn dates_must_be_real_days_and_blank_dates_are_none() {
    assert_eq!(normalized_date(Some(" 2024-02-29 ".to_string()), "f", "m").unwrap(), Some("2024-02-29".to_string()));
    assert_eq!(normalized_date(Some("  ".to_string()), "f", "m").unwrap(), None);
    assert!(normalized_date(Some("2023-02-29".to_string()), "f", "m").is_err());
    let (message, field) = validation_parts(normalized_date(Some("2024-2-9".to_string()), "f", "m").unwrap_err());
    assert_eq!((message.as_str(), field.as_str()), ("m", "f"));
}

#[test]
fn a_sifra_is_short_and_made_of_code_characters() {
    assert_eq!(normalized_sifra(Some("IV".to_string()), "f", "m").unwrap(), Some("IV".to_string()));
    assert!(normalized_sifra(Some("a".repeat(MAX_SIFRA_DUZINA)), "f", "m").is_ok());
    assert!(normalized_sifra(Some("a".repeat(MAX_SIFRA_DUZINA + 1)), "f", "m").is_err());
    assert!(normalized_sifra(Some("5223 02".to_string()), "f", "m").is_err());
    assert!(normalized_sifra(Some("ć".to_string()), "f", "m").is_err());
}

#[test]
fn the_first_faulty_field_is_reported() {
    let p = EmployeeProfile {
        datum_rodjenja_najmladjeg_deteta: Some("x".to_string()),
        zanimanje_sifra: Some("opis zanimanja".to_string()),
        ..EmployeeProfile::default()
    };
    assert_eq!(validation_parts(normalize_profile(p).unwrap_err()).1, "datumRodjenjaNajmladjegDeteta");
    let p = EmployeeProfile {
        trudnoca_ili_dojenje: Some(false),
        trudnoca_ili_dojenje_od: Some("2026-01-01".to_string()),
        ..EmployeeProfile::default()
    };
    assert_eq!(validation_parts(normalize_profile(p).unwrap_err()).1, "trudnocaIliDojenje");
    assert_eq!(normalize_profile(EmployeeProfile::default()).unwrap(), EmployeeProfile::default());
}

#[test]
fn an_update_keeps_stored_credentials_unless_replaced() {
    let existing = UserHashes { pin_hash: Some("p".to_string()), password_hash: None };
    let kept = credentials_after_update(None, None, existing.clone()).unwrap();
    assert_eq!(kept.pin_hash.as_deref(), Some("p"));
    let replaced = credentials_after_update(None, Some("w".to_string()), existing).unwrap();
    assert_eq!(replaced.pin_hash.as_deref(), Some("p"));
    assert_eq!(replaced.password_hash.as_deref(), Some("w"));
    let none = UserHashes { pin_hash: None, password_hash: None };
    assert_eq!(validation_parts(credentials_after_update(None, None, none).unwrap_err()).1, "pin");
}

#[test]
fn a_taken_username_and_a_missing_user_are_refused() {
    assert_eq!(validation_parts(ensure_unique_username(1).unwrap_err()).1, "username");
    assert!(ensure_unique_username(0).is_ok());
    assert_eq!(user_not_found().code(), "not_found");
}

#[test]
fn saving_a_profile_never_writes_the_cl_57_st_4_consent() {
    let mut request = save_request("dragan");
    request.profile = Some(full_profile());
    create_user(request).expect("user should be created");
    // The row carries a čl. 57 st. 4 consent that no profile save may touch.
    let stored_preraspodela_consent = Some("2026-01-15".to_string());

    let mut update = save_request("dragan");
    update.profile = Some(EmployeeProfile {
        saglasnost_prekovremeni_od: Some("2026-07-01".to_string()),
        ..EmployeeProfile::default()
    });
    let saved = update_user(update).expect("user should update");
    let written = saved.profile.expect("the profile is carried to the write");
    assert_eq!(written.saglasnost_prekovremeni_od.as_deref(), Some("2026-07-01"));

    // Every column a profile save writes, named one by one: the čl. 57 st. 4
    // consent is not among them, so the stored one stays as it was.
    let EmployeeProfile {
        datum_rodjenja: _,
        datum_rodjenja_najmladjeg_deteta: _,
        samohrani_roditelj: _,
        dete_tezak_invalid: _,
        trudnoca_ili_dojenje: _,
        trudnoca_ili_dojenje_od: _,
        radi_u_preraspodeli: _,
        ugovoreno_radno_vreme_minuta_nedeljno: _,
        zanimanje_sifra: _,
        kvalifikacija_sifra: _,
        saglasnost_prekovremeni_od: _,
    } = written;
    assert_eq!(
        stored_preraspodela_consent.as_deref(),
        Some("2026-01-15"),
        "the čl. 91 consent and the čl. 57 st. 4 consent are not interchangeable"
    );
}
