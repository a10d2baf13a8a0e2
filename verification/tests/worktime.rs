use vantumpos::auth::{Role, SessionUser};
use vantumpos::worktime::{
    advisory_tag, assess_caps_for_employee, book_absence, close_period, correct_entry,
    evidencija_zaglavlje, guard_day_is_in_period, guard_period_has_ended, list_month, load_month, month_bounds,
    month_last_date, month_to_csv, my_hours, naziv_perioda, save_entry, validate_month,
    CapAssessment, ClosedPeriod, CorrectEntryRequest, EntryContext, EntryWrite, LiveEntry,
    MonthRows, PeriodRow, ProtectionBlock, SaveEntryRequest, WorkTimeEntryView, WorkTimeMinutes,
    PRERASPODELA_WEEKLY_CAP_MINUTES,
};
use vantumpos::error::{AppError, Detail};

const ADMIN_ID: i64 = 1;

fn admin() -> Option<SessionUser> {
    Some(SessionUser { id: ADMIN_ID, role: Role::Admin })
}

fn as_user(id: i64) -> Option<SessionUser> {
    Some(SessionUser { id, role: Role::Cashier })
}

fn no_caps() -> CapAssessment {
    CapAssessment {
        daily_cap_exceeded: false,
        weekly_cap_exceeded: false,
        preraspodela_weekly_cap_exceeded: false,
        weekly_total_minutes: 0,
        requires_override: false,
    }
}

/// One ordinary worked day, stated for the period it belongs to.
fn radni_dan(user_id: i64, dan: &str, efektivno: i64, prekovremeni: i64) -> SaveEntryRequest {
    let godina: i64 = dan[0..4].parse().unwrap();
    let mesec: i64 = dan[5..7].parse().unwrap();
    SaveEntryRequest {
        user_id,
        dan: dan.to_string(),
        godina,
        mesec,
        moguci_minuta: 480,
        efektivno_izvrseni_minuta: efektivno,
        casovi_cekanja_i_zastoja_minuta: 0,
        prekovremeni_minuta: prekovremeni,
        nocni_minuta: 0,
        rad_na_praznik_minuta: 0,
        kategorija_odsustva: None,
        odsustvo_minuta: 0,
        cap_override_razlog: None,
    }
}

/// An in-memory stand-in for the stored register: append-only versions, a
/// later version striking the earlier one, and closed periods.
#[derive(Default)]
struct Register {
    rows: Vec<WorkTimeEntryView>,
    closed: Vec<(i64, i64, i64, String)>,
    employees: Vec<(i64, String)>,
}

impl Register {
    fn with_employee(id: i64, name: &str) -> Register {
        let mut r = Register::default();
        r.employees.push((id, name.to_string()));
        r
    }

    fn add_employee(&mut self, id: i64, name: &str) {
        self.employees.push((id, name.to_string()));
    }

    fn is_closed(&self, user_id: i64, godina: i64, mesec: i64) -> bool {
        self.closed.iter().any(|c| c.0 == user_id && c.1 == godina && c.2 == mesec)
    }

    fn ctx(&self, request: &SaveEntryRequest, caps: CapAssessment, radi_u_preraspodeli: bool) -> EntryContext {
        let godina: i64 = request.dan[0..4].parse().unwrap_or(0);
        let mesec: i64 = request.dan[5..7].parse().unwrap_or(0);
        let live = self
            .rows
            .iter()
            .filter(|e| e.user_id == request.user_id && e.dan == request.dan && !e.zamenjen)
            .map(|e| LiveEntry { id: e.id, verzija: e.verzija })
            .next();
        EntryContext {
            employee_exists: self.employees.iter().any(|e| e.0 == request.user_id),
            period_closed: self.is_closed(request.user_id, godina, mesec),
            live,
            protections: vec![],
            caps,
            radi_u_preraspodeli,
        }
    }

    fn append(&mut self, w: EntryWrite) -> WorkTimeEntryView {
        if let Some(previous) = w.supersedes_id {
            for row in self.rows.iter_mut().filter(|r| r.id == previous) {
                row.zamenjen = true;
            }
        }
        let view = WorkTimeEntryView {
            id: self.rows.len() as i64 + 1,
            user_id: w.request.user_id,
            dan: w.request.dan.clone(),
            verzija: w.verzija,
            zamenjen: false,
            supersedes_id: w.supersedes_id,
            kategorija_odsustva: w.request.kategorija_odsustva.clone(),
            cap_override_razlog: w.request.cap_override_razlog.clone(),
            korekcija_razlog: w.korekcija_razlog.clone(),
            unio_user_id: Some(w.unio_user_id),
            unio_ime: None,
            created_at: w.created_at.clone(),
            updated_at: w.created_at.clone(),
            minuti: w.minuti,
        };
        self.rows.push(view.clone());
        view
    }

    fn save(&mut self, session: &Option<SessionUser>, request: SaveEntryRequest, now: &str) -> Result<WorkTimeEntryView, AppError> {
        let ctx = self.ctx(&request, no_caps(), false);
        save_entry(session, request, now, ctx).map(|w| self.append(w))
    }

    fn correct(&mut self, session: &Option<SessionUser>, request: CorrectEntryRequest, now: &str) -> Result<WorkTimeEntryView, AppError> {
        let ctx = self.ctx(&request.entry, no_caps(), false);
        correct_entry(session, request, now, ctx).map(|w| self.append(w))
    }

    fn month_rows(&self, user_id: i64, godina: i64, mesec: i64) -> MonthRows {
        let prefix = format!("{godina:04}-{mesec:02}-");
        let mut entries: Vec<WorkTimeEntryView> = self
            .rows
            .iter()
            .filter(|e| e.user_id == user_id && e.dan.starts_with(&prefix))
            .cloned()
            .collect();
        entries.sort_by(|a, b| (a.dan.as_str(), a.verzija).cmp(&(b.dan.as_str(), b.verzija)));
        MonthRows {
            zaposleni: self.employees.iter().find(|e| e.0 == user_id).map(|e| e.1.clone()),
            entries,
            period: self
                .closed
                .iter()
                .find(|c| c.0 == user_id && c.1 == godina && c.2 == mesec)
                .map(|c| PeriodRow { status: "closed".to_string(), closed_at: Some(c.3.clone()) }),
        }
    }

    fn close(&mut self, session: &Option<SessionUser>, user_id: i64, godina: i64, mesec: i64, now: &str) -> Result<ClosedPeriod, AppError> {
        let rows = self.month_rows(user_id, godina, mesec);
        let closed = close_period(session, user_id, godina, mesec, now, rows)?;
        self.closed.push((user_id, godina, mesec, closed.closed_at.clone()));
        Ok(closed)
    }
}

#[test]
fn saving_an_entry_records_the_operator_and_the_day() {
    let radnik = 11;
    let mut reg = Register::with_employee(radnik, "Radnik Jedan");
    let saved = reg
        .save(&admin(), radni_dan(radnik, "2026-08-03", 480, 0), "2026-08-03T18:00:00Z")
        .expect("the day should record");
    assert_eq!(saved.user_id, radnik);
    assert_eq!(saved.dan, "2026-08-03");
    assert_eq!(saved.verzija, 1);
    assert_eq!(saved.supersedes_id, None);
    assert!(!saved.zamenjen);
    assert_eq!(saved.unio_user_id, Some(ADMIN_ID));
    assert_eq!(saved.created_at, "2026-08-03T18:00:00Z");
    assert_eq!(saved.minuti.efektivno_izvrseni_minuta, 480);
    assert_eq!(saved.minuti.ukupno_ostvareni_minuta, 480);
    assert_eq!(saved.minuti.ukupno_neizvrseni_minuta, 0);

    let error = reg
        .save(&admin(), radni_dan(radnik, "2026-08-03", 60, 0), "2026-08-03T19:00:00Z")
        .expect_err("a second original for the same day must be refused");
    assert_eq!(error.code(), "entry_exists");
}

#[test]
fn a_correction_supersedes_rather_than_mutates() {
    let radnik = 12;
    let mut reg = Register::with_employee(radnik, "Radnik Dva");
    let original = reg
        .save(&admin(), radni_dan(radnik, "2026-08-03", 480, 0), "2026-08-03T18:00:00Z")
        .expect("the original should record");
    let ispravka = reg
        .correct(
            &admin(),
            CorrectEntryRequest {
                entry: radni_dan(radnik, "2026-08-03", 420, 0),
                korekcija_razlog: "greska_u_unosu".to_string(),
            },
            "2026-08-04T09:00:00Z",
        )
        .expect("the correction should record");
    assert_eq!(ispravka.verzija, 2);
    assert_eq!(ispravka.supersedes_id, Some(original.id));
    assert_eq!(ispravka.korekcija_razlog.as_deref(), Some("greska_u_unosu"));
    assert_eq!(ispravka.unio_user_id, Some(ADMIN_ID));
    assert_eq!(ispravka.created_at, "2026-08-04T09:00:00Z");

    let month = list_month(&admin(), radnik, 2026, 8, reg.month_rows(radnik, 2026, 8))
        .expect("the month should list");
    assert_eq!(month.entries.len(), 2, "append-only keeps both versions");
    let survivor = month.entries.iter().find(|e| e.id == original.id).expect("the original row must survive");
    assert_eq!(survivor.minuti.efektivno_izvrseni_minuta, 480, "the original row must not be mutated");
    assert!(survivor.zamenjen, "the original is struck through, never deleted");
    let live = month.entries.iter().find(|e| e.id == ispravka.id).expect("the correction must be listed");
    assert!(!live.zamenjen);
    assert_eq!(month.ukupno.efektivno_izvrseni_minuta, 420, "only the live row counts toward the month");
}

#[test]
fn an_entry_cannot_be_back_dated_into_a_closed_period() {
    let radnik = 13;
    let mut reg = Register::with_employee(radnik, "Radnik Tri");
    reg.save(&admin(), radni_dan(radnik, "2026-08-03", 480, 0), "2026-08-03T18:00:00Z")
        .expect("the day should record while the month is open");
    reg.close(&admin(), radnik, 2026, 8, "2026-09-01T08:00:00Z").expect("the month should close");

    let error = reg
        .save(&admin(), radni_dan(radnik, "2026-08-05", 480, 0), "2026-09-02T08:00:00Z")
        .expect_err("a day cannot be added to a closed month");
    assert_eq!(error.code(), "period_closed");
    assert_eq!(
        error.message(),
        "Period avgust 2026. je zaključen i više se ne može menjati. Zaključenje je konačno."
    );

    let error = reg
        .correct(
            &admin(),
            CorrectEntryRequest {
                entry: radni_dan(radnik, "2026-08-03", 60, 0),
                korekcija_razlog: "ispravka_sati".to_string(),
            },
            "2026-09-02T08:00:00Z",
        )
        .expect_err("a closed month cannot be corrected either");
    assert_eq!(error.code(), "period_closed");

    reg.save(&admin(), radni_dan(radnik, "2026-09-01", 480, 0), "2026-09-01T18:00:00Z")
        .expect("an open month still accepts entries");
}

#[test]
fn closing_a_period_freezes_the_classification_and_is_irreversible() {
    let radnik = 14;
    let mut reg = Register::with_employee(radnik, "Radnik Četiri");
    reg.save(&admin(), radni_dan(radnik, "2026-08-03", 480, 0), "2026-08-03T18:00:00Z")
        .expect("worked day should record");
    let mut odmor = radni_dan(radnik, "2026-08-04", 0, 0);
    odmor.kategorija_odsustva = Some("godisnji_odmor".to_string());
    odmor.odsustvo_minuta = 480;
    reg.save(&admin(), odmor, "2026-08-04T18:00:00Z").expect("absence day should record");

    let closed = reg.close(&admin(), radnik, 2026, 8, "2026-09-01T08:00:00Z").expect("the month should close");
    assert_eq!(closed.closed_at, "2026-09-01T08:00:00Z");
    assert_eq!(closed.closed_by, ADMIN_ID);
    assert_eq!(closed.klasifikacija.dana_sa_unosom, 2);
    assert_eq!(closed.klasifikacija.minuti.efektivno_izvrseni_minuta, 480);
    assert_eq!(closed.klasifikacija.minuti.godisnji_odmor_minuta, 480);
    assert_eq!(closed.klasifikacija.minuti.ukupno_neizvrseni_minuta, 480);

    let error = reg
        .close(&admin(), radnik, 2026, 8, "2026-09-02T08:00:00Z")
        .expect_err("a closed period must not be closed twice");
    assert_eq!(error.code(), "period_closed");

    let month = list_month(&admin(), radnik, 2026, 8, reg.month_rows(radnik, 2026, 8)).expect("the month should list");
    assert!(month.zatvoren);
    assert_eq!(month.closed_at.as_deref(), Some("2026-09-01T08:00:00Z"));
    assert_eq!(month.ukupno, closed.klasifikacija.minuti, "the frozen figures are the register's");
}

#[test]
fn my_hours_returns_only_the_session_users_own_rows() {
    let (prvi, drugi) = (15, 16);
    let mut reg = Register::with_employee(prvi, "Radnik Pet A");
    reg.add_employee(drugi, "Radnik Pet B");
    reg.save(&admin(), radni_dan(prvi, "2026-08-03", 480, 0), "2026-08-03T18:00:00Z").unwrap();
    reg.save(&admin(), radni_dan(drugi, "2026-08-03", 300, 0), "2026-08-03T18:00:00Z").unwrap();

    let mine = my_hours(&as_user(prvi), 2026, 8, reg.month_rows(prvi, 2026, 8))
        .expect("an employee may read their own hours");
    assert_eq!(mine.user_id, prvi);
    assert_eq!(mine.entries.len(), 1);
    assert!(mine.entries.iter().all(|e| e.user_id == prvi));
    assert_eq!(mine.ukupno.efektivno_izvrseni_minuta, 480);
    assert!(mine.napomena.contains("Zakon ne propisuje obrazac"));
}

#[test]
fn a_cashier_cannot_reach_the_admin_worktime_commands() {
    let radnik = 17;
    let mut reg = Register::with_employee(radnik, "Radnik Šest");
    reg.save(&admin(), radni_dan(radnik, "2026-08-03", 480, 0), "2026-08-03T18:00:00Z").unwrap();
    let cashier = as_user(radnik);
    assert_eq!(
        list_month(&cashier, radnik, 2026, 8, reg.month_rows(radnik, 2026, 8)).unwrap_err().code(),
        "forbidden"
    );
    assert_eq!(
        reg.save(&cashier, radni_dan(radnik, "2026-08-06", 480, 0), "2026-08-06T18:00:00Z").unwrap_err().code(),
        "forbidden"
    );
    assert_eq!(
        reg.correct(
            &cashier,
            CorrectEntryRequest {
                entry: radni_dan(radnik, "2026-08-03", 60, 0),
                korekcija_razlog: "greska_u_unosu".to_string(),
            },
            "2026-08-06T18:00:00Z",
        )
        .unwrap_err()
        .code(),
        "forbidden"
    );
    assert_eq!(reg.close(&cashier, radnik, 2026, 8, "2026-09-01T08:00:00Z").unwrap_err().code(), "forbidden");
    my_hours(&cashier, 2026, 8, reg.month_rows(radnik, 2026, 8)).expect("a cashier may read their own hours");
    assert_eq!(my_hours(&None, 2026, 8, reg.month_rows(radnik, 2026, 8)).unwrap_err().code(), "unauthorized");
}

#[test]
fn a_cap_breach_asks_for_an_override_reason_and_then_records_the_day() {
    let radnik = 18;
    let reg = Register::with_employee(radnik, "Radnik Sedam");
    let at_limit = no_caps();
    let request = radni_dan(radnik, "2026-08-03", 240, 480);
    let w = save_entry(&admin(), request.clone(), "2026-08-03T20:00:00Z", reg.ctx(&request, at_limit, false))
        .expect("the boundary day needs no override");
    assert!(!w.caps.requires_override);

    let breach = CapAssessment { weekly_cap_exceeded: true, requires_override: true, ..no_caps() };
    let request = radni_dan(radnik, "2026-08-04", 240, 60);
    let error = save_entry(&admin(), request.clone(), "2026-08-04T20:00:00Z", reg.ctx(&request, breach, false))
        .expect_err("a cap breach must ask for a reason");
    assert_eq!(error.code(), "cap_override_required");

    let mut sa_razlogom = request.clone();
    sa_razlogom.cap_override_razlog = Some("iznenadno_povecanje_obima_posla".to_string());
    let w = save_entry(&admin(), sa_razlogom.clone(), "2026-08-04T20:00:00Z", reg.ctx(&sa_razlogom, breach, false))
        .expect("an override reason records the day rather than hiding it");
    assert!(w.caps.weekly_cap_exceeded);
    assert_eq!(w.request.cap_override_razlog.as_deref(), Some("iznenadno_povecanje_obima_posla"));

    let mut izmisljen = radni_dan(radnik, "2026-08-05", 240, 60);
    izmisljen.cap_override_razlog = Some("nesto_izmisljeno".to_string());
    let error = save_entry(&admin(), izmisljen.clone(), "2026-08-05T20:00:00Z", reg.ctx(&izmisljen, breach, false))
        .expect_err("the override reason is a closed enum");
    assert_eq!(error.code(), "validation_error");
}

#[test]
fn a_blocking_protection_refuses_the_write() {
    let radnik = 19;
    let reg = Register::with_employee(radnik, "Radnik Osam");
    let request = radni_dan(radnik, "2026-08-03", 240, 60);
    let mut ctx = reg.ctx(&request, no_caps(), false);
    ctx.protections = vec![
        ProtectionBlock { blocking: false, poruka: "napomena".to_string() },
        ProtectionBlock { blocking: true, poruka: "ZoR čl. 88 st. 1".to_string() },
    ];
    let error = save_entry(&admin(), request, "2026-08-03T20:00:00Z", ctx)
        .expect_err("a blocking protection bans the work");
    assert_eq!(error.code(), "protection_block");
    assert_eq!(error.message(), "ZoR čl. 88 st. 1");

    let plain = radni_dan(radnik, "2026-08-03", 240, 0);
    let mut ctx = reg.ctx(&plain, no_caps(), false);
    ctx.protections = vec![ProtectionBlock { blocking: false, poruka: "napomena".to_string() }];
    let w = save_entry(&admin(), plain, "2026-08-03T20:00:00Z", ctx).expect("a non-blocking finding is only shown");
    assert_eq!(w.protections.len(), 1);
}

#[test]
fn absence_minutes_land_in_the_bucket_derived_from_the_category() {
    let radnik = 20;
    let mut reg = Register::with_employee(radnik, "Radnik Devet");
    let mut rfzo = radni_dan(radnik, "2026-08-03", 0, 0);
    rfzo.kategorija_odsustva = Some("sprecenost_rfzo".to_string());
    rfzo.odsustvo_minuta = 480;
    let saved = reg.save(&admin(), rfzo, "2026-08-03T18:00:00Z").expect("the RFZO-funded absence should record");
    assert_eq!(saved.minuti.sprecenost_rfzo_minuta, 480);
    assert_eq!(saved.minuti.sprecenost_poslodavac_minuta, 0);
    assert_eq!(saved.minuti.ukupno_neizvrseni_minuta, 480);
    assert_eq!(saved.minuti.ukupno_ostvareni_minuta, 0);

    let mut strajk = radni_dan(radnik, "2026-08-04", 0, 0);
    strajk.kategorija_odsustva = Some("obustava_rada_strajk".to_string());
    strajk.odsustvo_minuta = 300;
    let saved = reg.save(&admin(), strajk, "2026-08-04T18:00:00Z").expect("the strike hours should record");
    assert_eq!(saved.minuti.obustava_rada_strajk_minuta, 300);
    assert_eq!(saved.minuti.ukupno_ostvareni_minuta, 300);
    assert_eq!(saved.minuti.ukupno_neizvrseni_minuta, 0);

    let mut izmisljeno = radni_dan(radnik, "2026-08-05", 0, 0);
    izmisljeno.kategorija_odsustva = Some("bolovanje_zbog_gripa".to_string());
    izmisljeno.odsustvo_minuta = 480;
    let error = reg.save(&admin(), izmisljeno, "2026-08-05T18:00:00Z").expect_err("the absence category is a closed enum");
    assert_eq!(error.code(), "validation_error");

    let mut odmor = radni_dan(radnik, "2026-08-06", 0, 0);
    odmor.kategorija_odsustva = Some("godisnji_odmor".to_string());
    odmor.odsustvo_minuta = 480;
    odmor.cap_override_razlog = Some("visa_sila".to_string());
    let error = reg.save(&admin(), odmor, "2026-08-06T18:00:00Z").expect_err("an absence day carries no cap override");
    assert_eq!(error.code(), "validation_error");
}

#[test]
fn a_preraspodela_day_reports_the_daily_figure_without_gating_on_it() {
    let (redovni, u_preraspodeli) = (21, 22);
    let mut reg = Register::with_employee(redovni, "Radnik Deset A");
    reg.add_employee(u_preraspodeli, "Radnik Deset B");
    let thirteen_hours = CapAssessment {
        daily_cap_exceeded: true,
        weekly_total_minutes: 780,
        requires_override: true,
        ..no_caps()
    };
    let request = radni_dan(redovni, "2026-08-03", 780, 0);
    let error = save_entry(&admin(), request.clone(), "2026-08-03T22:00:00Z", reg.ctx(&request, thirteen_hours, false))
        .expect_err("thirteen hours breaches čl. 53 st. 3");
    assert_eq!(error.code(), "cap_override_required");

    let request = radni_dan(u_preraspodeli, "2026-08-03", 780, 0);
    let w = save_entry(&admin(), request.clone(), "2026-08-03T22:00:00Z", reg.ctx(&request, thirteen_hours, true))
        .expect("a preraspodela day is not gated by čl. 53 st. 3");
    assert!(!w.caps.requires_override);
    assert_eq!(w.request.cap_override_razlog, None);
    assert!(w.caps.daily_cap_exceeded, "the twelve-hour figure must stay visible");
}

#[test]
fn a_preraspodela_week_over_sixty_hours_still_demands_a_ground() {
    let radnik = 23;
    let reg = Register::with_employee(radnik, "Radnik Dvanaest");
    let week = |total: i64| CapAssessment { daily_cap_exceeded: true, weekly_total_minutes: total, requires_override: true, ..no_caps() };
    for (i, dan) in ["2026-08-03", "2026-08-04", "2026-08-05", "2026-08-06"].iter().enumerate() {
        let request = radni_dan(radnik, dan, 780, 0);
        let w = save_entry(&admin(), request.clone(), &format!("{dan}T22:00:00Z"), reg.ctx(&request, week(780 * (i as i64 + 1)), true))
            .expect("a preraspodela week under 60 h asks for nothing");
        assert!(!w.caps.requires_override, "{dan} is inside the čl. 57 st. 5 ceiling");
    }

    let request = radni_dan(radnik, "2026-08-07", 780, 0);
    let error = save_entry(&admin(), request.clone(), "2026-08-07T22:00:00Z", reg.ctx(&request, week(3900), true))
        .expect_err("čl. 57 st. 5 caps preraspodela at 60 časova nedeljno");
    assert_eq!(error.code(), "cap_override_required");

    let mut sa_razlogom = request.clone();
    sa_razlogom.cap_override_razlog = Some("visa_sila".to_string());
    let w = save_entry(&admin(), sa_razlogom.clone(), "2026-08-07T22:00:00Z", reg.ctx(&sa_razlogom, week(3900), true))
        .expect("a stated ground records the day rather than hiding it");
    assert!(!w.caps.weekly_cap_exceeded);
    assert_eq!(w.caps.weekly_total_minutes, 3900, "65 h in minutes");
    assert!(w.caps.preraspodela_weekly_cap_exceeded);
    assert_eq!(w.request.cap_override_razlog.as_deref(), Some("visa_sila"));

    let request = radni_dan(radnik, "2026-08-10", 780, 0);
    let w = save_entry(&admin(), request.clone(), "2026-08-10T22:00:00Z", reg.ctx(&request, week(780), true))
        .expect("a fresh calendar week carries nothing in");
    assert!(!w.caps.requires_override);
}

#[test]
fn a_period_cannot_be_closed_before_it_has_ended() {
    let radnik = 24;
    let mut reg = Register::with_employee(radnik, "Radnik Trinaest");
    reg.save(&admin(), radni_dan(radnik, "2026-08-03", 480, 0), "2026-08-03T18:00:00Z").unwrap();

    let error = reg.close(&admin(), radnik, 2026, 8, "2026-08-15T08:00:00Z").expect_err("a running month cannot be closed");
    assert_eq!(error.code(), "validation_error");
    assert_eq!(
        error.message(),
        "Period avgust 2026. još nije završen, pa se ne može zaključiti. Zaključenje je konačno i posle njega se ni jedan dan tog meseca više ne može evidentirati. Zaključite ga najranije prvog dana narednog meseca."
    );
    let error = reg.close(&admin(), radnik, 2026, 8, "2026-08-31T23:59:59Z").expect_err("the last day is still inside");
    assert_eq!(error.code(), "validation_error");
    let error = reg.close(&admin(), radnik, 2026, 12, "2026-08-15T08:00:00Z").expect_err("a future month cannot be closed");
    assert_eq!(error.code(), "validation_error");
    assert!(error.message().starts_with("Period decembar 2026. još nije"), "{}", error.message());

    reg.save(&admin(), radni_dan(radnik, "2026-08-20", 480, 0), "2026-08-20T18:00:00Z").expect("the month is still open");
    reg.close(&admin(), radnik, 2026, 8, "2026-09-01T00:05:00Z").expect("the month after its end closes normally");

    let error = reg.close(&admin(), radnik, 2026, 2, "2026-02-28T23:00:00Z").expect_err("28 February is still inside February");
    assert_eq!(error.code(), "validation_error");
    reg.close(&admin(), radnik, 2026, 2, "2026-03-01T09:00:00Z").expect("February closes once March starts");
}

#[test]
fn a_day_that_has_not_happened_cannot_be_recorded() {
    let radnik = 25;
    let mut reg = Register::with_employee(radnik, "Radnik Četrnaest");
    let error = reg
        .save(&admin(), radni_dan(radnik, "2028-03-04", 480, 0), "2026-08-03T18:00:00Z")
        .expect_err("a day two years out cannot be recorded");
    assert_eq!(error.code(), "validation_error");
    assert_eq!(
        error.message(),
        "Ne može se evidentirati dan koji još nije protekao. Evidentira se dan koji se dogodio."
    );
    let error = reg
        .save(&admin(), radni_dan(radnik, "2026-08-04", 480, 0), "2026-08-03T23:59:59Z")
        .expect_err("tomorrow has not happened either");
    assert_eq!(error.code(), "validation_error");
    reg.save(&admin(), radni_dan(radnik, "2026-08-03", 480, 0), "2026-08-03T08:00:00Z")
        .expect("the current day records normally");
    let error = reg
        .correct(
            &admin(),
            CorrectEntryRequest {
                entry: radni_dan(radnik, "2028-03-04", 60, 0),
                korekcija_razlog: "ispravka_sati".to_string(),
            },
            "2026-08-03T18:00:00Z",
        )
        .expect_err("a correction cannot reach a future day either");
    assert_eq!(error.code(), "validation_error");
    let error = reg
        .save(&admin(), radni_dan(radnik, "2026-08-05", 480, 0), "")
        .expect_err("a write cannot be dated from an unreadable clock");
    assert_eq!(error.code(), "validation_error");
}

#[test]
fn a_day_outside_the_stated_period_is_refused() {
    let radnik = 26;
    let mut reg = Register::with_employee(radnik, "Radnik Petnaest");
    let mut mimo_perioda = radni_dan(radnik, "2026-09-01", 480, 0);
    mimo_perioda.godina = 2026;
    mimo_perioda.mesec = 8;
    let error = reg.save(&admin(), mimo_perioda, "2026-10-01T08:00:00Z").expect_err("outside the stated period");
    assert_eq!(error.code(), "validation_error");
    assert_eq!(error.message(), "Datum mora pripadati izabranom periodu — avgust 2026.");

    let mut ispravka = radni_dan(radnik, "2026-09-01", 60, 0);
    ispravka.godina = 2026;
    ispravka.mesec = 8;
    let error = reg
        .correct(
            &admin(),
            CorrectEntryRequest { entry: ispravka, korekcija_razlog: "ispravka_sati".to_string() },
            "2026-10-01T08:00:00Z",
        )
        .expect_err("a correction cannot reach outside the stated period either");
    assert_eq!(error.code(), "validation_error");

    reg.save(&admin(), radni_dan(radnik, "2026-08-31", 480, 0), "2026-10-01T08:00:00Z")
        .expect("the last day of the stated month records normally");

    let mut nepostojeci = radni_dan(radnik, "2026-08-30", 480, 0);
    nepostojeci.mesec = 13;
    let error = reg.save(&admin(), nepostojeci, "2026-10-01T08:00:00Z").expect_err("month 13 is not a period");
    assert_eq!(error.code(), "validation_error");
    assert_eq!(error.message(), "Mesec mora biti između 1 i 12.");
}

#[test]
fn the_export_never_calls_itself_an_obrazac() {
    let radnik = 27;
    let mut reg = Register::with_employee(radnik, "Radnik Jedanaest");
    reg.save(&admin(), radni_dan(radnik, "2026-08-03", 480, 0), "2026-08-03T18:00:00Z").unwrap();
    reg.correct(
        &admin(),
        CorrectEntryRequest {
            entry: radni_dan(radnik, "2026-08-03", 420, 0),
            korekcija_razlog: "ispravka_sati".to_string(),
        },
        "2026-08-04T09:00:00Z",
    )
    .unwrap();
    let month = load_month(radnik, 2026, 8, reg.month_rows(radnik, 2026, 8)).expect("the month should load");
    let csv = month_to_csv(&month);
    let data_rows = csv.lines().filter(|l| l.starts_with("2026-08-")).count();
    assert_eq!(data_rows, 1, "only live rows are exported");
    assert!(csv.contains("Evidencija prekovremenog rada — ZoR čl. 55 st. 6."));
    assert!(csv.contains("Zakon ne propisuje obrazac."));
    assert!(!csv.to_lowercase().contains("propisani obrazac"));
    assert!(!csv.contains("evidencija o zaradama"));
    assert!(csv.contains("izračunato radi provere usklađenosti"));
    assert!(csv.contains("420"), "the live version is the exported one");
}

// Further scenarios.

#[test]
fn a_correction_needs_a_known_reason_and_an_existing_day() {
    let radnik = 28;
    let mut reg = Register::with_employee(radnik, "R");
    let error = reg
        .correct(
            &admin(),
            CorrectEntryRequest { entry: radni_dan(radnik, "2026-08-03", 60, 0), korekcija_razlog: "zato".to_string() },
            "2026-08-04T09:00:00Z",
        )
        .unwrap_err();
    assert_eq!(error.code(), "validation_error");
    let error = reg
        .correct(
            &admin(),
            CorrectEntryRequest { entry: radni_dan(radnik, "2026-08-03", 60, 0), korekcija_razlog: "drugo".to_string() },
            "2026-08-04T09:00:00Z",
        )
        .unwrap_err();
    assert_eq!(error.code(), "not_found");
}

#[test]
fn an_unknown_employee_and_negative_minutes_are_refused() {
    let mut reg = Register::with_employee(29, "R");
    let error = reg.save(&admin(), radni_dan(30, "2026-08-03", 60, 0), "2026-08-04T09:00:00Z").unwrap_err();
    assert_eq!(error.code(), "not_found");
    let error = reg.save(&admin(), radni_dan(29, "2026-08-03", -1, 0), "2026-08-04T09:00:00Z").unwrap_err();
    match error {
        AppError::Validation { message, details } => {
            assert_eq!(message, "Broj minuta ne može biti negativan.");
            assert_eq!(details.len(), 2);
            assert_eq!(details[0].0, "polje");
            assert!(matches!(&details[0].1, Detail::Text(t) if t == "efektivnoIzvrseniMinuta"));
            assert_eq!(details[1].0, "vrednost");
            assert!(matches!(details[1].1, Detail::Integer(-1)));
        }
        other => panic!("{other:?}"),
    }
    let mut orphan = radni_dan(29, "2026-08-03", 60, 0);
    orphan.odsustvo_minuta = 30;
    assert_eq!(reg.save(&admin(), orphan, "2026-08-04T09:00:00Z").unwrap_err().code(), "validation_error");
    let mut malformed = radni_dan(29, "2026-08-03", 60, 0);
    malformed.dan = "2026-8-03".to_string();
    let error = save_entry(&admin(), malformed, "2026-08-04T09:00:00Z", reg.ctx(&radni_dan(29, "2026-08-03", 60, 0), no_caps(), false))
        .unwrap_err();
    assert_eq!(error.code(), "validation_error");
}

#[test]
fn absence_is_booked_into_its_own_bucket_and_the_totals_follow() {
    let mut m = WorkTimeMinutes::zero();
    book_absence(&mut m, "praznik_odmor", 120).unwrap();
    assert_eq!(m.praznik_odmor_minuta, 120);
    assert_eq!(m.ukupno_neizvrseni_minuta, 0, "book_absence leaves the totals to derive_totals");
    assert!(book_absence(&mut m, "nije_kategorija", 5).is_err());
    assert_eq!(m.values_vec().len(), 18);
    assert_eq!(WorkTimeMinutes::from_values(&m.values_vec()), m);
}

#[test]
fn an_impossible_month_is_refused_by_the_close_guard() {
    let error = guard_period_has_ended(2026, 13, "2027-03-01T09:00:00Z").unwrap_err();
    assert_eq!(error.code(), "validation_error");
    assert!(error.message().starts_with("Period 13/2026. još nije završen"), "{}", error.message());
    match error {
        AppError::Validation { details, .. } => {
            assert_eq!(details.len(), 2);
            assert!(matches!(details[0].1, Detail::Integer(2026)));
            assert!(matches!(details[1].1, Detail::Integer(13)));
        }
        other => panic!("{other:?}"),
    }
    assert!(guard_period_has_ended(2026, 2, "2026-03-01T09:00:00Z").is_ok());
}

#[test]
fn month_arithmetic_and_names() {
    assert_eq!(naziv_perioda(2026, 13), "13/2026");
    assert!(validate_month(2026, 0).is_err());
    assert!(validate_month(1899, 5).is_err());
    assert!(validate_month(2026, 5).is_ok());
    let (first, last) = month_bounds(2026, 2);
    assert_eq!((first.as_str(), last.as_str()), ("2026-02-01", "2026-02-31"));
    let feb = month_last_date(2024, 2).unwrap();
    assert_eq!((feb.year, feb.month, feb.day), (2024, 2, 29));
    assert!(month_last_date(9999, 12).is_none());
    assert!(guard_day_is_in_period("2026-08-03", 2026, 8, 2026, 8).is_ok());
    let error = guard_day_is_in_period("2026-09-01", 2026, 9, 2026, 8).unwrap_err();
    assert_eq!(error.message(), "Datum mora pripadati izabranom periodu — avgust 2026.");
    match error {
        AppError::Validation { details, .. } => {
            let keys: Vec<&str> = details.iter().map(|(k, _)| k.as_str()).collect();
            assert_eq!(keys, vec!["dan", "godina", "mesec"]);
            assert!(matches!(&details[0].1, Detail::Text(t) if t == "2026-09-01"));
            assert!(matches!(details[1].1, Detail::Integer(2026)));
            assert!(matches!(details[2].1, Detail::Integer(8)));
        }
        other => panic!("{other:?}"),
    }
    assert!(evidencija_zaglavlje().contains("ZoR čl. 55 st. 6"));
    assert_eq!(advisory_tag(), "izračunato radi provere usklađenosti");
}

#[test]
fn preraspodela_swaps_the_daily_gate_for_the_sixty_hour_week() {
    let daily = CapAssessment { daily_cap_exceeded: true, requires_override: true, weekly_total_minutes: 780, ..no_caps() };
    assert_eq!(assess_caps_for_employee(daily, false), daily);
    let swapped = assess_caps_for_employee(daily, true);
    assert!(!swapped.requires_override);
    assert!(swapped.daily_cap_exceeded);
    let over = CapAssessment { weekly_total_minutes: PRERASPODELA_WEEKLY_CAP_MINUTES + 1, ..no_caps() };
    assert!(assess_caps_for_employee(over, true).requires_override);
    let at = CapAssessment { weekly_total_minutes: PRERASPODELA_WEEKLY_CAP_MINUTES, ..no_caps() };
    assert!(!assess_caps_for_employee(at, true).requires_override);
}

#[test]
fn an_unknown_employees_month_is_not_found_and_a_bad_month_is_refused() {
    let rows = MonthRows { zaposleni: None, entries: vec![], period: None };
    assert_eq!(load_month(1, 2026, 8, rows.clone()).unwrap_err().code(), "not_found");
    assert_eq!(load_month(1, 2026, 0, rows).unwrap_err().code(), "validation_error");
}

fn version(id: i64, user_id: i64, dan: &str, verzija: i64, efektivno: i64, zamenjen: bool) -> WorkTimeEntryView {
    let mut minuti = WorkTimeMinutes::zero();
    minuti.efektivno_izvrseni_minuta = efektivno;
    minuti.ukupno_ostvareni_minuta = efektivno;
    WorkTimeEntryView {
        id,
        user_id,
        dan: dan.to_string(),
        verzija,
        zamenjen,
        supersedes_id: if verzija > 1 { Some(id - 1) } else { None },
        kategorija_odsustva: None,
        cap_override_razlog: None,
        korekcija_razlog: if verzija > 1 { Some("ispravka_sati".to_string()) } else { None },
        unio_user_id: Some(ADMIN_ID),
        unio_ime: None,
        created_at: "2026-08-04T09:00:00Z".to_string(),
        updated_at: "2026-08-04T09:00:00Z".to_string(),
        minuti,
    }
}

#[test]
fn the_month_reads_the_replaced_flag_off_the_versions() {
    // The flags handed in claim the opposite of what the versions say.
    let rows = MonthRows {
        zaposleni: Some("Radnik".to_string()),
        entries: vec![
            version(1, 40, "2026-08-03", 1, 480, false),
            version(2, 40, "2026-08-03", 2, 420, true),
            version(3, 40, "2026-08-04", 1, 300, true),
        ],
        period: None,
    };
    let month = list_month(&admin(), 40, 2026, 8, rows).unwrap();
    let flags: Vec<bool> = month.entries.iter().map(|e| e.zamenjen).collect();
    assert_eq!(flags, vec![true, false, false]);
    assert_eq!(month.ukupno.efektivno_izvrseni_minuta, 720, "420 of the correction and 300, never the 480");
    assert_eq!(month.entries[0].minuti.efektivno_izvrseni_minuta, 480, "the replaced version keeps its minutes");
}

#[test]
fn my_hours_shows_the_session_users_versions() {
    let cashier = Some(SessionUser { id: 41, role: Role::Cashier });
    let rows = MonthRows {
        zaposleni: Some("Kasirka".to_string()),
        entries: vec![version(1, 41, "2026-08-03", 1, 240, false)],
        period: None,
    };
    let month = my_hours(&cashier, 2026, 8, rows).unwrap();
    assert_eq!(month.user_id, 41);
    assert!(month.entries.iter().all(|e| e.user_id == 41));
    assert_eq!(month.ukupno.efektivno_izvrseni_minuta, 240);
}
