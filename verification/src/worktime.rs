//! The daily working-time register (ZoR čl. 55 st. 6): the minute buckets of
//! ZEOR čl. 24 tač. 1, the checks a day passes before it is recorded, period
//! names and bounds, and the close of a month.
//!
//! The register is append-only: a correction is a new version of a day, the
//! live row of a day is its highest version, and a closed month takes no
//! writes on any ground.
use vstd::prelude::*;
use vstd::string::*;

use crate::auth::{
    admin_refusal, refusal_text, require_admin, require_session, unauthorized_text, SessionUser,
};
use crate::calendar::{
    civil_date, civil_date_of, days_in_month, from_calendar_date_is_ok, is_calendar_date, iso_date,
    iso_date_of, iso_text, month_length, parse_iso_date, CivilDate,
};
use crate::error::{
    business, business_with, details_view, integer_detail, not_found, text_detail, validation_with,
    AppError, BusinessCode, Detail, DetailView,
};
use crate::text::{
    decimal, is_text_before, text_before, push_decimal, push_str, push_zero_padded, str_eq, string_from_chars, view_option,
    zero_padded,
};

verus! {

/// The number of minute buckets.
pub const BUCKETS: usize = 18;

/// One day's hours in the ZEOR čl. 24 tač. 1 buckets, in integer minutes.
#[derive(Debug, Clone, Copy, PartialEq, Eq, Structural)]
pub struct WorkTimeMinutes {
    /// a) Mogući časovi.
    pub moguci_minuta: i64,
    /// b) Ukupno ostvareni časovi — derived, the sum of its three indents.
    pub ukupno_ostvareni_minuta: i64,
    pub efektivno_izvrseni_minuta: i64,
    pub casovi_cekanja_i_zastoja_minuta: i64,
    pub obustava_rada_strajk_minuta: i64,
    /// v) Ukupno neizvršeni časovi — derived, the sum of g), d), đ) and e).
    pub ukupno_neizvrseni_minuta: i64,
    pub godisnji_odmor_minuta: i64,
    pub praznik_odmor_minuta: i64,
    pub odsustvo_uz_naknadu_minuta: i64,
    pub strucno_osposobljavanje_minuta: i64,
    pub sprecenost_poslodavac_minuta: i64,
    pub naknada_drugi_poslodavci_minuta: i64,
    pub sprecenost_rfzo_minuta: i64,
    pub porodiljsko_minuta: i64,
    pub neplaceno_odsustvo_minuta: i64,
    /// ž) Prekovremeni rad — its own letter, not part of b).
    pub prekovremeni_minuta: i64,
    /// Computed for a compliance check; no provision requires it.
    pub nocni_minuta: i64,
    /// Computed for a compliance check; no provision requires it.
    pub rad_na_praznik_minuta: i64,
}

/// The stored column names, in bucket order.
pub open spec fn column_name(i: int) -> Seq<char> {
    if i == 0 {
        "moguci_minuta"@
    } else if i == 1 {
        "ukupno_ostvareni_minuta"@
    } else if i == 2 {
        "efektivno_izvrseni_minuta"@
    } else if i == 3 {
        "casovi_cekanja_i_zastoja_minuta"@
    } else if i == 4 {
        "obustava_rada_strajk_minuta"@
    } else if i == 5 {
        "ukupno_neizvrseni_minuta"@
    } else if i == 6 {
        "godisnji_odmor_minuta"@
    } else if i == 7 {
        "praznik_odmor_minuta"@
    } else if i == 8 {
        "odsustvo_uz_naknadu_minuta"@
    } else if i == 9 {
        "strucno_osposobljavanje_minuta"@
    } else if i == 10 {
        "sprecenost_poslodavac_minuta"@
    } else if i == 11 {
        "naknada_drugi_poslodavci_minuta"@
    } else if i == 12 {
        "sprecenost_rfzo_minuta"@
    } else if i == 13 {
        "porodiljsko_minuta"@
    } else if i == 14 {
        "neplaceno_odsustvo_minuta"@
    } else if i == 15 {
        "prekovremeni_minuta"@
    } else if i == 16 {
        "nocni_minuta"@
    } else {
        "rad_na_praznik_minuta"@
    }
}

/// The stored column of bucket `i`.
pub fn column(i: usize) -> (r: &'static str)
    requires
        i < 18,
    ensures
        r@ == column_name(i as int),
{
    if i == 0 {
        "moguci_minuta"
    } else if i == 1 {
        "ukupno_ostvareni_minuta"
    } else if i == 2 {
        "efektivno_izvrseni_minuta"
    } else if i == 3 {
        "casovi_cekanja_i_zastoja_minuta"
    } else if i == 4 {
        "obustava_rada_strajk_minuta"
    } else if i == 5 {
        "ukupno_neizvrseni_minuta"
    } else if i == 6 {
        "godisnji_odmor_minuta"
    } else if i == 7 {
        "praznik_odmor_minuta"
    } else if i == 8 {
        "odsustvo_uz_naknadu_minuta"
    } else if i == 9 {
        "strucno_osposobljavanje_minuta"
    } else if i == 10 {
        "sprecenost_poslodavac_minuta"
    } else if i == 11 {
        "naknada_drugi_poslodavci_minuta"
    } else if i == 12 {
        "sprecenost_rfzo_minuta"
    } else if i == 13 {
        "porodiljsko_minuta"
    } else if i == 14 {
        "neplaceno_odsustvo_minuta"
    } else if i == 15 {
        "prekovremeni_minuta"
    } else if i == 16 {
        "nocni_minuta"
    } else {
        "rad_na_praznik_minuta"
    }
}

impl WorkTimeMinutes {
    /// The buckets in column order.
    pub open spec fn values(self) -> Seq<int> {
        seq![
            self.moguci_minuta as int,
            self.ukupno_ostvareni_minuta as int,
            self.efektivno_izvrseni_minuta as int,
            self.casovi_cekanja_i_zastoja_minuta as int,
            self.obustava_rada_strajk_minuta as int,
            self.ukupno_neizvrseni_minuta as int,
            self.godisnji_odmor_minuta as int,
            self.praznik_odmor_minuta as int,
            self.odsustvo_uz_naknadu_minuta as int,
            self.strucno_osposobljavanje_minuta as int,
            self.sprecenost_poslodavac_minuta as int,
            self.naknada_drugi_poslodavci_minuta as int,
            self.sprecenost_rfzo_minuta as int,
            self.porodiljsko_minuta as int,
            self.neplaceno_odsustvo_minuta as int,
            self.prekovremeni_minuta as int,
            self.nocni_minuta as int,
            self.rad_na_praznik_minuta as int,
        ]
    }

    pub fn zero() -> (r: WorkTimeMinutes)
        ensures
            forall|i: int| 0 <= i < 18 ==> #[trigger] r.values()[i] == 0,
    {
        WorkTimeMinutes {
            moguci_minuta: 0,
            ukupno_ostvareni_minuta: 0,
            efektivno_izvrseni_minuta: 0,
            casovi_cekanja_i_zastoja_minuta: 0,
            obustava_rada_strajk_minuta: 0,
            ukupno_neizvrseni_minuta: 0,
            godisnji_odmor_minuta: 0,
            praznik_odmor_minuta: 0,
            odsustvo_uz_naknadu_minuta: 0,
            strucno_osposobljavanje_minuta: 0,
            sprecenost_poslodavac_minuta: 0,
            naknada_drugi_poslodavci_minuta: 0,
            sprecenost_rfzo_minuta: 0,
            porodiljsko_minuta: 0,
            neplaceno_odsustvo_minuta: 0,
            prekovremeni_minuta: 0,
            nocni_minuta: 0,
            rad_na_praznik_minuta: 0,
        }
    }

    /// The buckets in column order, as stored and exported.
    pub fn values_vec(&self) -> (r: Vec<i64>)
        ensures
            r@.len() == 18,
            forall|i: int| 0 <= i < 18 ==> r@[i] as int == #[trigger] self.values()[i],
    {
        vec![
            self.moguci_minuta,
            self.ukupno_ostvareni_minuta,
            self.efektivno_izvrseni_minuta,
            self.casovi_cekanja_i_zastoja_minuta,
            self.obustava_rada_strajk_minuta,
            self.ukupno_neizvrseni_minuta,
            self.godisnji_odmor_minuta,
            self.praznik_odmor_minuta,
            self.odsustvo_uz_naknadu_minuta,
            self.strucno_osposobljavanje_minuta,
            self.sprecenost_poslodavac_minuta,
            self.naknada_drugi_poslodavci_minuta,
            self.sprecenost_rfzo_minuta,
            self.porodiljsko_minuta,
            self.neplaceno_odsustvo_minuta,
            self.prekovremeni_minuta,
            self.nocni_minuta,
            self.rad_na_praznik_minuta,
        ]
    }

    /// The minutes whose buckets, in column order, are `v`.
    pub fn from_values(v: &Vec<i64>) -> (r: WorkTimeMinutes)
        requires
            v@.len() == 18,
        ensures
            forall|i: int| 0 <= i < 18 ==> #[trigger] r.values()[i] == v@[i] as int,
    {
        WorkTimeMinutes {
            moguci_minuta: v[0],
            ukupno_ostvareni_minuta: v[1],
            efektivno_izvrseni_minuta: v[2],
            casovi_cekanja_i_zastoja_minuta: v[3],
            obustava_rada_strajk_minuta: v[4],
            ukupno_neizvrseni_minuta: v[5],
            godisnji_odmor_minuta: v[6],
            praznik_odmor_minuta: v[7],
            odsustvo_uz_naknadu_minuta: v[8],
            strucno_osposobljavanje_minuta: v[9],
            sprecenost_poslodavac_minuta: v[10],
            naknada_drugi_poslodavci_minuta: v[11],
            sprecenost_rfzo_minuta: v[12],
            porodiljsko_minuta: v[13],
            neplaceno_odsustvo_minuta: v[14],
            prekovremeni_minuta: v[15],
            nocni_minuta: v[16],
            rad_na_praznik_minuta: v[17],
        }
    }
}

/// The ten absence categories, in the order the register lists them. Each
/// is exactly its bucket's column name without the `_minuta` suffix.
pub open spec fn category_text(i: int) -> Seq<char> {
    if i == 0 {
        "godisnji_odmor"@
    } else if i == 1 {
        "praznik_odmor"@
    } else if i == 2 {
        "odsustvo_uz_naknadu"@
    } else if i == 3 {
        "strucno_osposobljavanje"@
    } else if i == 4 {
        "sprecenost_poslodavac"@
    } else if i == 5 {
        "sprecenost_rfzo"@
    } else if i == 6 {
        "porodiljsko"@
    } else if i == 7 {
        "neplaceno_odsustvo"@
    } else if i == 8 {
        "naknada_drugi_poslodavci"@
    } else {
        "obustava_rada_strajk"@
    }
}

/// The bucket a category books into, or −1 for text that is no category.
pub open spec fn category_bucket(k: Seq<char>) -> int {
    if k == category_text(0) {
        6
    } else if k == category_text(1) {
        7
    } else if k == category_text(2) {
        8
    } else if k == category_text(3) {
        9
    } else if k == category_text(4) {
        10
    } else if k == category_text(5) {
        12
    } else if k == category_text(6) {
        13
    } else if k == category_text(7) {
        14
    } else if k == category_text(8) {
        11
    } else if k == category_text(9) {
        4
    } else {
        -1
    }
}

pub open spec fn is_category(k: Seq<char>) -> bool {
    category_bucket(k) >= 0
}

/// Every category books into the column its own name derives:
/// `{kategorija}_minuta`.
pub proof fn lemma_category_bucket_is_derived_from_its_name(k: Seq<char>)
    requires
        is_category(k),
    ensures
        0 <= category_bucket(k) < 18,
        column_name(category_bucket(k)) == k + "_minuta"@,
{
    reveal_strlit("_minuta");
    reveal_strlit("godisnji_odmor");
    reveal_strlit("praznik_odmor");
    reveal_strlit("odsustvo_uz_naknadu");
    reveal_strlit("strucno_osposobljavanje");
    reveal_strlit("sprecenost_poslodavac");
    reveal_strlit("sprecenost_rfzo");
    reveal_strlit("porodiljsko");
    reveal_strlit("neplaceno_odsustvo");
    reveal_strlit("naknada_drugi_poslodavci");
    reveal_strlit("obustava_rada_strajk");
    reveal_strlit("godisnji_odmor_minuta");
    reveal_strlit("praznik_odmor_minuta");
    reveal_strlit("odsustvo_uz_naknadu_minuta");
    reveal_strlit("strucno_osposobljavanje_minuta");
    reveal_strlit("sprecenost_poslodavac_minuta");
    reveal_strlit("sprecenost_rfzo_minuta");
    reveal_strlit("porodiljsko_minuta");
    reveal_strlit("neplaceno_odsustvo_minuta");
    reveal_strlit("naknada_drugi_poslodavci_minuta");
    reveal_strlit("obustava_rada_strajk_minuta");
    let b = category_bucket(k);
    assert(column_name(b) =~= k + "_minuta"@);
}

/// `v` with the two ZEOR totals derived from their buckets: b) is the sum of
/// its three indents, v) the sum of the g), d), đ) and e) buckets.
pub open spec fn with_totals(v: Seq<int>) -> Seq<int> {
    v.update(1, v[2] + v[3] + v[4]).update(
        5,
        v[6] + v[7] + v[8] + v[9] + v[10] + v[11] + v[12] + v[13] + v[14],
    )
}

pub open spec fn fits(x: int) -> bool {
    i64::MIN <= x <= i64::MAX
}

/// Derives ZEOR čl. 24 tač. 1 b) and v) from the buckets they enumerate, so a
/// stored day can never claim a total its own buckets do not add up to.
/// Overtime (ž) is a letter of its own and is not inside b).
pub fn derive_totals(minuti: &mut WorkTimeMinutes)
    requires
        fits(with_totals(old(minuti).values())[1]),
        fits(with_totals(old(minuti).values())[5]),
    ensures
        final(minuti).values() == with_totals(old(minuti).values()),
{
    let ghost before = minuti.values();
    let ostvareni: i128 = minuti.efektivno_izvrseni_minuta as i128
        + minuti.casovi_cekanja_i_zastoja_minuta as i128
        + minuti.obustava_rada_strajk_minuta as i128;
    let neizvrseni: i128 = minuti.godisnji_odmor_minuta as i128 + minuti.praznik_odmor_minuta as i128
        + minuti.odsustvo_uz_naknadu_minuta as i128 + minuti.strucno_osposobljavanje_minuta as i128
        + minuti.sprecenost_poslodavac_minuta as i128
        + minuti.naknada_drugi_poslodavci_minuta as i128 + minuti.sprecenost_rfzo_minuta as i128
        + minuti.porodiljsko_minuta as i128 + minuti.neplaceno_odsustvo_minuta as i128;
    minuti.ukupno_ostvareni_minuta = ostvareni as i64;
    minuti.ukupno_neizvrseni_minuta = neizvrseni as i64;
    assert(minuti.values() =~= with_totals(before));
}

/// Books `minuta` into the bucket derived from `kategorija`; a text that is
/// not one of the ten categories is refused.
pub fn book_absence(minuti: &mut WorkTimeMinutes, kategorija: &str, minuta: i64) -> (r: Result<
    (),
    AppError,
>)
    ensures
        is_category(kategorija@) ==> r is Ok && final(minuti).values() == old(minuti).values().update(
            category_bucket(kategorija@),
            minuta as int,
        ),
        !is_category(kategorija@) ==> (r matches Err(e) && e.is_validation_saying(
            "Nepoznata kategorija odsustva."@,
            seq![("kategorijaOdsustva"@, DetailView::Text(kategorija@))],
        )) && *final(minuti) == *old(minuti),
{
    let ghost before = minuti.values();
    if str_eq(kategorija, "godisnji_odmor") {
        minuti.godisnji_odmor_minuta = minuta;
    } else if str_eq(kategorija, "praznik_odmor") {
        minuti.praznik_odmor_minuta = minuta;
    } else if str_eq(kategorija, "odsustvo_uz_naknadu") {
        minuti.odsustvo_uz_naknadu_minuta = minuta;
    } else if str_eq(kategorija, "strucno_osposobljavanje") {
        minuti.strucno_osposobljavanje_minuta = minuta;
    } else if str_eq(kategorija, "sprecenost_poslodavac") {
        minuti.sprecenost_poslodavac_minuta = minuta;
    } else if str_eq(kategorija, "sprecenost_rfzo") {
        minuti.sprecenost_rfzo_minuta = minuta;
    } else if str_eq(kategorija, "porodiljsko") {
        minuti.porodiljsko_minuta = minuta;
    } else if str_eq(kategorija, "neplaceno_odsustvo") {
        minuti.neplaceno_odsustvo_minuta = minuta;
    } else if str_eq(kategorija, "naknada_drugi_poslodavci") {
        minuti.naknada_drugi_poslodavci_minuta = minuta;
    } else if str_eq(kategorija, "obustava_rada_strajk") {
        minuti.obustava_rada_strajk_minuta = minuta;
    } else {
        let details = vec![text_detail("kategorijaOdsustva", kategorija)];
        assert(details_view(details@) =~= seq![
            ("kategorijaOdsustva"@, DetailView::Text(kategorija@)),
        ]);
        return Err(validation_with("Nepoznata kategorija odsustva.", details));
    }
    assert(minuti.values() =~= before.update(category_bucket(kategorija@), minuta as int));
    Ok(())
}

/// One day as the operator enters it. The b) and v) totals are not here:
/// they are derived from the buckets.
#[derive(Debug, Clone, PartialEq, Eq)]
pub struct SaveEntryRequest {
    pub user_id: i64,
    pub dan: String,
    /// The period the operator had on screen; `dan` must fall inside it.
    pub godina: i64,
    pub mesec: i64,
    pub moguci_minuta: i64,
    pub efektivno_izvrseni_minuta: i64,
    pub casovi_cekanja_i_zastoja_minuta: i64,
    pub prekovremeni_minuta: i64,
    pub nocni_minuta: i64,
    pub rad_na_praznik_minuta: i64,
    /// One of the ten categories; there is no free-text sibling.
    pub kategorija_odsustva: Option<String>,
    /// Booked into the bucket derived from `kategorija_odsustva`.
    pub odsustvo_minuta: i64,
    /// One of the four override grounds; required once a ceiling is exceeded.
    pub cap_override_razlog: Option<String>,
}

#[derive(Debug, Clone, PartialEq, Eq)]
pub struct CorrectEntryRequest {
    pub entry: SaveEntryRequest,
    /// One of the five correction reasons.
    pub korekcija_razlog: String,
}

/// The field and value of the first negative minute figure of a request, if
/// any.
pub open spec fn negative_minutes_field(r: SaveEntryRequest) -> Option<(Seq<char>, int)> {
    if r.moguci_minuta < 0 {
        Some(("moguciMinuta"@, r.moguci_minuta as int))
    } else if r.efektivno_izvrseni_minuta < 0 {
        Some(("efektivnoIzvrseniMinuta"@, r.efektivno_izvrseni_minuta as int))
    } else if r.casovi_cekanja_i_zastoja_minuta < 0 {
        Some(("casoviCekanjaIZastojaMinuta"@, r.casovi_cekanja_i_zastoja_minuta as int))
    } else if r.prekovremeni_minuta < 0 {
        Some(("prekovremeniMinuta"@, r.prekovremeni_minuta as int))
    } else if r.nocni_minuta < 0 {
        Some(("nocniMinuta"@, r.nocni_minuta as int))
    } else if r.rad_na_praznik_minuta < 0 {
        Some(("radNaPraznikMinuta"@, r.rad_na_praznik_minuta as int))
    } else if r.odsustvo_minuta < 0 {
        Some(("odsustvoMinuta"@, r.odsustvo_minuta as int))
    } else {
        None
    }
}

/// The details of a refused negative figure: `{"polje": name, "vrednost": value}`.
pub open spec fn negative_details(name: Seq<char>, value: int) -> Seq<(Seq<char>, DetailView)> {
    seq![("polje"@, DetailView::Text(name)), ("vrednost"@, DetailView::Integer(value))]
}

fn negative_minutes_error(name: &str, value: i64) -> (e: AppError)
    ensures
        e.is_validation_saying(
            "Broj minuta ne može biti negativan."@,
            negative_details(name@, value as int),
        ),
{
    let details = vec![text_detail("polje", name), integer_detail("vrednost", value)];
    assert(details_view(details@) =~= negative_details(name@, value as int));
    validation_with("Broj minuta ne može biti negativan.", details)
}

/// What the first refusal of a request's minutes says and its details, if
/// any.
pub open spec fn minutes_fault(r: SaveEntryRequest) -> Option<(Seq<char>, Seq<(Seq<char>, DetailView)>)> {
    match negative_minutes_field(r) {
        Some(neg) => Some(("Broj minuta ne može biti negativan."@, negative_details(neg.0, neg.1))),
        None => match r.kategorija_odsustva {
            Some(k) => if is_category(k@) {
                None
            } else {
                Some(
                    (
                        "Nepoznata kategorija odsustva."@,
                        seq![("kategorijaOdsustva"@, DetailView::Text(k@))],
                    ),
                )
            },
            None => if r.odsustvo_minuta != 0 {
                Some(
                    (
                        "Časovi odsustva se ne mogu evidentirati bez kategorije odsustva."@,
                        seq![("odsustvoMinuta"@, DetailView::Integer(r.odsustvo_minuta as int))],
                    ),
                )
            } else {
                None
            },
        },
    }
}

/// The buckets a request's day is stored with: the worked figures as given,
/// the absence in its category's bucket, every other bucket zero, and the two
/// totals derived.
pub open spec fn request_values(r: SaveEntryRequest) -> Seq<int> {
    with_totals(booked_values(r))
}

/// Whether the two derived totals of a request whose minutes are accepted
/// fit an `i64`.
pub open spec fn minutes_in_range(r: SaveEntryRequest) -> bool {
    minutes_fault(r) is None ==> fits(request_values(r)[1]) && fits(request_values(r)[5])
}

/// Turns a request into stored minutes: no figure may be negative, absence
/// minutes need a category and land in the bucket the category derives, and
/// the two totals are derived last.
pub fn build_minutes(request: &SaveEntryRequest) -> (r: Result<WorkTimeMinutes, AppError>)
    requires
        minutes_in_range(*request),
    ensures
        match minutes_fault(*request) {
            Some(f) => r matches Err(e) && e.is_validation_saying(f.0, f.1),
            None => r matches Ok(m) && m.values() == request_values(*request),
        },
{
    let mut minuti = match book_request(request) {
        Ok(m) => m,
        Err(e) => return Err(e),
    };
    derive_totals(&mut minuti);
    Ok(minuti)
}

/// Whether the two derived totals of a request fit, when its minutes are
/// accepted at all (see [`minutes_in_range`]).
pub fn minutes_fit(request: &SaveEntryRequest) -> (r: bool)
    ensures
        r == minutes_in_range(*request),
{
    let m = match book_request(request) {
        Ok(m) => m,
        Err(_) => return true,
    };
    let ostvareni: i128 = m.efektivno_izvrseni_minuta as i128 + m.casovi_cekanja_i_zastoja_minuta as i128
        + m.obustava_rada_strajk_minuta as i128;
    let neizvrseni: i128 = m.godisnji_odmor_minuta as i128 + m.praznik_odmor_minuta as i128
        + m.odsustvo_uz_naknadu_minuta as i128 + m.strucno_osposobljavanje_minuta as i128
        + m.sprecenost_poslodavac_minuta as i128 + m.naknada_drugi_poslodavci_minuta as i128
        + m.sprecenost_rfzo_minuta as i128 + m.porodiljsko_minuta as i128
        + m.neplaceno_odsustvo_minuta as i128;
    i64::MIN as i128 <= ostvareni && ostvareni <= i64::MAX as i128 && i64::MIN as i128 <= neizvrseni
        && neizvrseni <= i64::MAX as i128
}

/// The buckets of a request before its totals are derived.
pub open spec fn booked_values(r: SaveEntryRequest) -> Seq<int> {
    let base = Seq::new(18, |i: int| 0int).update(0, r.moguci_minuta as int).update(
        2,
        r.efektivno_izvrseni_minuta as int,
    ).update(3, r.casovi_cekanja_i_zastoja_minuta as int).update(
        15,
        r.prekovremeni_minuta as int,
    ).update(16, r.nocni_minuta as int).update(17, r.rad_na_praznik_minuta as int);
    match r.kategorija_odsustva {
        Some(k) => base.update(category_bucket(k@), r.odsustvo_minuta as int),
        None => base,
    }
}

fn book_request(request: &SaveEntryRequest) -> (r: Result<WorkTimeMinutes, AppError>)
    ensures
        match minutes_fault(*request) {
            Some(f) => r matches Err(e) && e.is_validation_saying(f.0, f.1),
            None => r matches Ok(m) && m.values() == booked_values(*request),
        },
{
    if request.moguci_minuta < 0 {
        return Err(negative_minutes_error("moguciMinuta", request.moguci_minuta));
    }
    if request.efektivno_izvrseni_minuta < 0 {
        return Err(negative_minutes_error("efektivnoIzvrseniMinuta", request.efektivno_izvrseni_minuta));
    }
    if request.casovi_cekanja_i_zastoja_minuta < 0 {
        return Err(negative_minutes_error("casoviCekanjaIZastojaMinuta", request.casovi_cekanja_i_zastoja_minuta));
    }
    if request.prekovremeni_minuta < 0 {
        return Err(negative_minutes_error("prekovremeniMinuta", request.prekovremeni_minuta));
    }
    if request.nocni_minuta < 0 {
        return Err(negative_minutes_error("nocniMinuta", request.nocni_minuta));
    }
    if request.rad_na_praznik_minuta < 0 {
        return Err(negative_minutes_error("radNaPraznikMinuta", request.rad_na_praznik_minuta));
    }
    if request.odsustvo_minuta < 0 {
        return Err(negative_minutes_error("odsustvoMinuta", request.odsustvo_minuta));
    }
    let mut minuti = WorkTimeMinutes {
        moguci_minuta: request.moguci_minuta,
        ukupno_ostvareni_minuta: 0,
        efektivno_izvrseni_minuta: request.efektivno_izvrseni_minuta,
        casovi_cekanja_i_zastoja_minuta: request.casovi_cekanja_i_zastoja_minuta,
        obustava_rada_strajk_minuta: 0,
        ukupno_neizvrseni_minuta: 0,
        godisnji_odmor_minuta: 0,
        praznik_odmor_minuta: 0,
        odsustvo_uz_naknadu_minuta: 0,
        strucno_osposobljavanje_minuta: 0,
        sprecenost_poslodavac_minuta: 0,
        naknada_drugi_poslodavci_minuta: 0,
        sprecenost_rfzo_minuta: 0,
        porodiljsko_minuta: 0,
        neplaceno_odsustvo_minuta: 0,
        prekovremeni_minuta: request.prekovremeni_minuta,
        nocni_minuta: request.nocni_minuta,
        rad_na_praznik_minuta: request.rad_na_praznik_minuta,
    };
    let ghost base = Seq::new(18, |i: int| 0int).update(0, request.moguci_minuta as int).update(
        2,
        request.efektivno_izvrseni_minuta as int,
    ).update(3, request.casovi_cekanja_i_zastoja_minuta as int).update(
        15,
        request.prekovremeni_minuta as int,
    ).update(16, request.nocni_minuta as int).update(17, request.rad_na_praznik_minuta as int);
    assert(minuti.values() =~= base);
    match &request.kategorija_odsustva {
        Some(kategorija) => {
            if let Err(e) = book_absence(&mut minuti, kategorija.as_str(), request.odsustvo_minuta) {
                return Err(e);
            }
        },
        None => {
            if request.odsustvo_minuta != 0 {
                let details = vec![integer_detail("odsustvoMinuta", request.odsustvo_minuta)];
                assert(details_view(details@) =~= seq![
                    ("odsustvoMinuta"@, DetailView::Integer(request.odsustvo_minuta as int)),
                ]);
                return Err(
                    validation_with(
                        "Časovi odsustva se ne mogu evidentirati bez kategorije odsustva.",
                        details,
                    ),
                );
            }
        },
    }
    Ok(minuti)
}

/// The four grounds a ceiling override may give.
pub open spec fn is_override_reason(r: Seq<char>) -> bool {
    ||| r == "visa_sila"@
    ||| r == "iznenadno_povecanje_obima_posla"@
    ||| r == "neplanirani_posao_u_roku"@
    ||| r == "drugo"@
}

/// The five reasons a correction may give.
pub open spec fn is_correction_reason(r: Seq<char>) -> bool {
    ||| r == "greska_u_unosu"@
    ||| r == "ispravka_sati"@
    ||| r == "ispravka_kategorije"@
    ||| r == "naknadno_dostavljen_dokument"@
    ||| r == "drugo"@
}

/// Whether `razlog` is one of the five correction reasons.
pub fn is_known_correction_reason(razlog: &str) -> (r: bool)
    ensures
        r == is_correction_reason(razlog@),
{
    str_eq(razlog, "greska_u_unosu") || str_eq(razlog, "ispravka_sati") || str_eq(
        razlog,
        "ispravka_kategorije",
    ) || str_eq(razlog, "naknadno_dostavljen_dokument") || str_eq(razlog, "drugo")
}

/// The correction reasons are exactly the five of the register:
/// greska_u_unosu, ispravka_sati, ispravka_kategorije,
/// naknadno_dostavljen_dokument and drugo — each passes the reason check, and
/// no other text does.
pub proof fn lemma_correction_reasons_are_the_five(r: Seq<char>)
    ensures
        is_correction_reason(r) <==> (r == "greska_u_unosu"@ || r == "ispravka_sati"@ || r
            == "ispravka_kategorije"@ || r == "naknadno_dostavljen_dokument"@ || r == "drugo"@),
{
}

/// The grounds a ceiling override may give are exactly the four of ZoR
/// čl. 53 st. 1 the register knows: visa_sila,
/// iznenadno_povecanje_obima_posla, neplanirani_posao_u_roku and drugo.
pub proof fn lemma_override_grounds_are_the_four(r: Seq<char>)
    ensures
        is_override_reason(r) <==> (r == "visa_sila"@ || r == "iznenadno_povecanje_obima_posla"@
            || r == "neplanirani_posao_u_roku"@ || r == "drugo"@),
{
}

/// The absence categories are exactly the ten of the register, and each
/// books into the minute column named after it.
pub proof fn lemma_absence_categories_are_the_ten(k: Seq<char>)
    ensures
        is_category(k) <==> (k == "godisnji_odmor"@ || k == "praznik_odmor"@ || k
            == "odsustvo_uz_naknadu"@ || k == "strucno_osposobljavanje"@ || k
            == "sprecenost_poslodavac"@ || k == "sprecenost_rfzo"@ || k == "porodiljsko"@ || k
            == "neplaceno_odsustvo"@ || k == "naknada_drugi_poslodavci"@ || k
            == "obustava_rada_strajk"@),
        k == "godisnji_odmor"@ ==> column_name(category_bucket(k)) == "godisnji_odmor_minuta"@,
        k == "praznik_odmor"@ ==> column_name(category_bucket(k)) == "praznik_odmor_minuta"@,
        k == "odsustvo_uz_naknadu"@ ==> column_name(category_bucket(k))
            == "odsustvo_uz_naknadu_minuta"@,
        k == "strucno_osposobljavanje"@ ==> column_name(category_bucket(k))
            == "strucno_osposobljavanje_minuta"@,
        k == "sprecenost_poslodavac"@ ==> column_name(category_bucket(k))
            == "sprecenost_poslodavac_minuta"@,
        k == "sprecenost_rfzo"@ ==> column_name(category_bucket(k)) == "sprecenost_rfzo_minuta"@,
        k == "porodiljsko"@ ==> column_name(category_bucket(k)) == "porodiljsko_minuta"@,
        k == "neplaceno_odsustvo"@ ==> column_name(category_bucket(k))
            == "neplaceno_odsustvo_minuta"@,
        k == "naknada_drugi_poslodavci"@ ==> column_name(category_bucket(k))
            == "naknada_drugi_poslodavci_minuta"@,
        k == "obustava_rada_strajk"@ ==> column_name(category_bucket(k))
            == "obustava_rada_strajk_minuta"@,
{
    if is_category(k) {
        lemma_category_bucket_is_derived_from_its_name(k);
        reveal_strlit("_minuta");
        reveal_strlit("godisnji_odmor_minuta");
        reveal_strlit("praznik_odmor_minuta");
        reveal_strlit("odsustvo_uz_naknadu_minuta");
        reveal_strlit("strucno_osposobljavanje_minuta");
        reveal_strlit("sprecenost_poslodavac_minuta");
        reveal_strlit("sprecenost_rfzo_minuta");
        reveal_strlit("porodiljsko_minuta");
        reveal_strlit("neplaceno_odsustvo_minuta");
        reveal_strlit("naknada_drugi_poslodavci_minuta");
        reveal_strlit("obustava_rada_strajk_minuta");
        reveal_strlit("godisnji_odmor");
        reveal_strlit("praznik_odmor");
        reveal_strlit("odsustvo_uz_naknadu");
        reveal_strlit("strucno_osposobljavanje");
        reveal_strlit("sprecenost_poslodavac");
        reveal_strlit("sprecenost_rfzo");
        reveal_strlit("porodiljsko");
        reveal_strlit("neplaceno_odsustvo");
        reveal_strlit("naknada_drugi_poslodavci");
        reveal_strlit("obustava_rada_strajk");
        assert(column_name(category_bucket(k)) =~= k + "_minuta"@);
    }
}

/// What a refused override ground is told.
pub open spec fn cap_override_fault_text(r: SaveEntryRequest) -> Seq<char> {
    if !is_override_reason(r.cap_override_razlog->0@) {
        "Nepoznat razlog prekoračenja limita."@
    } else {
        "Razlog prekoračenja limita se ne evidentira na danu odsustva."@
    }
}

/// The details of a refused override ground: `{"capOverrideRazlog": razlog}`.
pub open spec fn cap_override_details(r: SaveEntryRequest) -> Seq<(Seq<char>, DetailView)> {
    seq![("capOverrideRazlog"@, DetailView::Text(r.cap_override_razlog->0@))]
}

/// An override ground must be one of the four, and only on a worked day.
pub open spec fn cap_override_fault(r: SaveEntryRequest) -> bool {
    match r.cap_override_razlog {
        None => false,
        Some(razlog) => !is_override_reason(razlog@) || r.kategorija_odsustva is Some,
    }
}

pub fn validate_cap_override(request: &SaveEntryRequest) -> (r: Result<(), AppError>)
    ensures
        cap_override_fault(*request) ==> (r matches Err(e) && e.is_validation_saying(
            cap_override_fault_text(*request),
            cap_override_details(*request),
        )),
        !cap_override_fault(*request) ==> r is Ok,
{
    let razlog = match &request.cap_override_razlog {
        None => return Ok(()),
        Some(razlog) => razlog.as_str(),
    };
    let details = vec![text_detail("capOverrideRazlog", razlog)];
    assert(details_view(details@) =~= cap_override_details(*request));
    if !(str_eq(razlog, "visa_sila") || str_eq(razlog, "iznenadno_povecanje_obima_posla")
        || str_eq(razlog, "neplanirani_posao_u_roku") || str_eq(razlog, "drugo")) {
        return Err(validation_with("Nepoznat razlog prekoračenja limita.", details));
    }
    if request.kategorija_odsustva.is_some() {
        return Err(
            validation_with("Razlog prekoračenja limita se ne evidentira na danu odsustva.", details),
        );
    }
    Ok(())
}

/// The Serbian month names, in the ekavica the application is written in.
pub open spec fn month_name(m: int) -> Seq<char> {
    if m == 1 {
        "januar"@
    } else if m == 2 {
        "februar"@
    } else if m == 3 {
        "mart"@
    } else if m == 4 {
        "april"@
    } else if m == 5 {
        "maj"@
    } else if m == 6 {
        "jun"@
    } else if m == 7 {
        "jul"@
    } else if m == 8 {
        "avgust"@
    } else if m == 9 {
        "septembar"@
    } else if m == 10 {
        "oktobar"@
    } else if m == 11 {
        "novembar"@
    } else {
        "decembar"@
    }
}

/// The months are named januar, februar, mart, april, maj, jun, jul,
/// avgust, septembar, oktobar, novembar and decembar.
pub proof fn lemma_month_names(m: int)
    ensures
        m == 1 ==> month_name(m) == "januar"@,
        m == 2 ==> month_name(m) == "februar"@,
        m == 3 ==> month_name(m) == "mart"@,
        m == 4 ==> month_name(m) == "april"@,
        m == 5 ==> month_name(m) == "maj"@,
        m == 6 ==> month_name(m) == "jun"@,
        m == 7 ==> month_name(m) == "jul"@,
        m == 8 ==> month_name(m) == "avgust"@,
        m == 9 ==> month_name(m) == "septembar"@,
        m == 10 ==> month_name(m) == "oktobar"@,
        m == 11 ==> month_name(m) == "novembar"@,
        m == 12 ==> month_name(m) == "decembar"@,
        1 <= m <= 12 ==> forall|g: int| #[trigger] period_name(g, m) == month_name(m) + " "@ + decimal(g),
{
}

/// A period as the operator names it — „avgust 2026“ — or `MM/GGGG` for a
/// month outside 1–12.
pub open spec fn period_name(godina: int, mesec: int) -> Seq<char> {
    if 1 <= mesec <= 12 {
        month_name(mesec) + " "@ + decimal(godina)
    } else {
        zero_padded(mesec, 2) + "/"@ + decimal(godina)
    }
}

fn month_name_text(mesec: i64) -> (r: &'static str)
    requires
        1 <= mesec <= 12,
    ensures
        r@ == month_name(mesec as int),
{
    if mesec == 1 {
        "januar"
    } else if mesec == 2 {
        "februar"
    } else if mesec == 3 {
        "mart"
    } else if mesec == 4 {
        "april"
    } else if mesec == 5 {
        "maj"
    } else if mesec == 6 {
        "jun"
    } else if mesec == 7 {
        "jul"
    } else if mesec == 8 {
        "avgust"
    } else if mesec == 9 {
        "septembar"
    } else if mesec == 10 {
        "oktobar"
    } else if mesec == 11 {
        "novembar"
    } else {
        "decembar"
    }
}

fn push_period_name(out: &mut Vec<char>, godina: i64, mesec: i64)
    ensures
        final(out)@ == old(out)@ + period_name(godina as int, mesec as int),
{
    if 1 <= mesec && mesec <= 12 {
        push_str(out, month_name_text(mesec));
        push_str(out, " ");
        push_decimal(out, godina);
        proof {
            assert(final(out)@ =~= old(out)@ + period_name(godina as int, mesec as int));
        }
    } else {
        push_zero_padded(out, mesec, 2);
        push_str(out, "/");
        push_decimal(out, godina);
        proof {
            assert(final(out)@ =~= old(out)@ + period_name(godina as int, mesec as int));
        }
    }
}

/// The period named as the operator reads it, e.g. „avgust 2026“.
pub fn naziv_perioda(godina: i64, mesec: i64) -> (r: String)
    ensures
        r@ == period_name(godina as int, mesec as int),
{
    let mut out: Vec<char> = Vec::new();
    push_period_name(&mut out, godina, mesec);
    string_from_chars(&out)
}

/// A month the register accepts: 1–12 of a year 1900–9999.
pub open spec fn valid_period(godina: int, mesec: int) -> bool {
    1 <= mesec <= 12 && 1900 <= godina <= 9999
}

pub fn validate_month(godina: i64, mesec: i64) -> (r: Result<(), AppError>)
    ensures
        match month_fault(godina as int, mesec as int) {
            Some(f) => r matches Err(e) && e.is_validation_saying(f.0, f.1),
            None => r is Ok,
        },
        valid_period(godina as int, mesec as int) <==> r is Ok,
{
    if !(1 <= mesec && mesec <= 12) {
        let details = vec![integer_detail("mesec", mesec)];
        assert(details_view(details@) =~= seq![("mesec"@, DetailView::Integer(mesec as int))]);
        return Err(validation_with("Mesec mora biti između 1 i 12.", details));
    }
    if !(1900 <= godina && godina <= 9999) {
        let details = vec![integer_detail("godina", godina)];
        assert(details_view(details@) =~= seq![("godina"@, DetailView::Integer(godina as int))]);
        return Err(validation_with("Godina nije ispravna.", details));
    }
    Ok(())
}

pub open spec fn month_first_text(godina: int, mesec: int) -> Seq<char> {
    zero_padded(godina, 4) + "-"@ + zero_padded(mesec, 2) + "-01"@
}

pub open spec fn month_upper_bound_text(godina: int, mesec: int) -> Seq<char> {
    zero_padded(godina, 4) + "-"@ + zero_padded(mesec, 2) + "-31"@
}

/// The first day of a month and the 31st as ISO texts; the 31st bounds every
/// month because fixed-width ISO dates sort as calendar dates.
pub fn month_bounds(godina: i64, mesec: i64) -> (r: (String, String))
    ensures
        r.0@ == month_first_text(godina as int, mesec as int),
        r.1@ == month_upper_bound_text(godina as int, mesec as int),
{
    let mut first: Vec<char> = Vec::new();
    push_zero_padded(&mut first, godina, 4);
    push_str(&mut first, "-");
    push_zero_padded(&mut first, mesec, 2);
    push_str(&mut first, "-01");
    let mut last: Vec<char> = Vec::new();
    push_zero_padded(&mut last, godina, 4);
    push_str(&mut last, "-");
    push_zero_padded(&mut last, mesec, 2);
    push_str(&mut last, "-31");
    proof {
        assert(first@ =~= month_first_text(godina as int, mesec as int));
        assert(last@ =~= month_upper_bound_text(godina as int, mesec as int));
    }
    (string_from_chars(&first), string_from_chars(&last))
}

/// The last civil day of a month, found through the first day of the next
/// one; none when that day is past the calendar's range (December 9999).
pub open spec fn month_last_day(godina: int, mesec: int) -> Option<CivilDate> {
    let next_year = if mesec == 12 { godina + 1 } else { godina };
    let next_month = if mesec == 12 { 1 } else { mesec + 1 };
    if 1 <= mesec <= 12 && is_calendar_date(godina, mesec, 1) && is_calendar_date(
        next_year,
        next_month,
        1,
    ) {
        Some(
            CivilDate {
                year: godina as i32,
                month: mesec as u8,
                day: month_length(godina, mesec) as u8,
            },
        )
    } else {
        None
    }
}

pub fn month_last_date(godina: i64, mesec: i64) -> (r: Option<CivilDate>)
    ensures
        r == month_last_day(godina as int, mesec as int),
{
    if !(1 <= mesec && mesec <= 12) || !(-9999 <= godina && godina <= 9999) {
        return None;
    }
    let (next_year, next_month) = if mesec == 12 {
        (godina + 1, 1u8)
    } else {
        (godina, (mesec + 1) as u8)
    };
    if next_year > 9999 || !from_calendar_date_is_ok(next_year as i32, next_month, 1) {
        return None;
    }
    let day = days_in_month(godina as i32, mesec as u8);
    Some(CivilDate { year: godina as i32, month: mesec as u8, day })
}

/// The details naming a period: `{"godina": godina, "mesec": mesec}`.
pub open spec fn period_details(godina: int, mesec: int) -> Seq<(Seq<char>, DetailView)> {
    seq![("godina"@, DetailView::Integer(godina)), ("mesec"@, DetailView::Integer(mesec))]
}

fn period_details_of(godina: i64, mesec: i64) -> (d: Vec<(String, Detail)>)
    ensures
        details_view(d@) == period_details(godina as int, mesec as int),
{
    let d = vec![integer_detail("godina", godina), integer_detail("mesec", mesec)];
    assert(details_view(d@) =~= period_details(godina as int, mesec as int));
    d
}

pub open spec fn period_not_ended_text(godina: int, mesec: int) -> Seq<char> {
    "Period "@ + period_name(godina, mesec)
        + ". još nije završen, pa se ne može zaključiti. Zaključenje je konačno i posle njega se ni jedan dan tog meseca više ne može evidentirati. Zaključite ga najranije prvog dana narednog meseca."@
}

/// Whether the month has ended by `now`: its last day is before today. An
/// unreadable `now` never counts as ended.
pub open spec fn period_has_ended(godina: int, mesec: int, now: Seq<char>) -> bool {
    match (month_last_day(godina, mesec), civil_date_of(now)) {
        (Some(last), Some(today)) => last.before(today),
        _ => false,
    }
}

/// A month has ended exactly when `now`'s date lies in a later month: the
/// last day of the month itself still belongs to it. (December of the year
/// 9999 never ends: the day after it is past the calendar the dates use.)
pub proof fn lemma_period_ends_with_its_month(godina: int, mesec: int, now: Seq<char>)
    requires
        1 <= mesec <= 12,
        -9999 <= godina <= 9999,
        !(godina == 9999 && mesec == 12),
    ensures
        period_has_ended(godina, mesec, now) <==> (civil_date_of(now) matches Some(t) && (t.year
            > godina || (t.year == godina && t.month > mesec))),
{
    if let Some(t) = civil_date_of(now) {
        let text = now.subrange(0, 10);
        assert(iso_date_of(text) == Some(t));
        assert(is_calendar_date(t.year as int, t.month as int, t.day as int));
    }
}

/// A period is valid exactly when its month is 1–12 and its year 1900–9999.
pub proof fn lemma_valid_periods(godina: int, mesec: int)
    ensures
        month_fault(godina, mesec) is None <==> (1 <= mesec <= 12 && 1900 <= godina <= 9999),
{
}

/// Refuses to close a month that has not ended: the close is irreversible,
/// and a month closed early would leave its remaining days unrecordable.
pub fn guard_period_has_ended(godina: i64, mesec: i64, now: &str) -> (r: Result<(), AppError>)
    ensures
        period_has_ended(godina as int, mesec as int, now@) ==> r is Ok,
        !period_has_ended(godina as int, mesec as int, now@) ==> (r matches Err(e)
            && e.is_validation_saying(
            period_not_ended_text(godina as int, mesec as int),
            period_details(godina as int, mesec as int),
        )),
{
    let ended = match (month_last_date(godina, mesec), civil_date(now)) {
        (Some(last), Some(danas)) => last.is_before(&danas),
        _ => false,
    };
    if ended {
        return Ok(());
    }
    let mut text: Vec<char> = Vec::new();
    push_str(&mut text, "Period ");
    push_period_name(&mut text, godina, mesec);
    push_str(
        &mut text,
        ". još nije završen, pa se ne može zaključiti. Zaključenje je konačno i posle njega se ni jedan dan tog meseca više ne može evidentirati. Zaključite ga najranije prvog dana narednog meseca.",
    );
    proof {
        assert(text@ =~= period_not_ended_text(godina as int, mesec as int));
    }
    Err(validation_with(string_from_chars(&text).as_str(), period_details_of(godina, mesec)))
}

pub open spec fn unreadable_clock_text() -> Seq<char> {
    "Sistemski sat nije čitljiv, pa se ne može utvrditi da li je dan protekao. Unos nije sačuvan."@
}

pub open spec fn future_day_text() -> Seq<char> {
    "Ne može se evidentirati dan koji još nije protekao. Evidentira se dan koji se dogodio."@
}

/// Refuses a day that has not happened yet; the day in progress is writable.
/// An unreadable `now` refuses as well, since the row would carry it. `dan`
/// is the day as the request gave it.
pub fn guard_day_has_happened(dan: &str, datum: CivilDate, now: &str) -> (r: Result<(), AppError>)
    ensures
        match civil_date_of(now@) {
            None => r matches Err(e) && e.is_validation_saying(
                unreadable_clock_text(),
                seq![("dan"@, DetailView::Text(dan@)), ("sada"@, DetailView::Text(now@))],
            ),
            Some(today) => if today.before(datum) {
                r matches Err(e) && e.is_validation_saying(
                    future_day_text(),
                    seq![
                        ("dan"@, DetailView::Text(dan@)),
                        ("danas"@, DetailView::Text(iso_text(today))),
                    ],
                )
            } else {
                r is Ok
            },
        },
{
    let danas = match civil_date(now) {
        None => {
            let details = vec![text_detail("dan", dan), text_detail("sada", now)];
            assert(details_view(details@) =~= seq![
                ("dan"@, DetailView::Text(dan@)),
                ("sada"@, DetailView::Text(now@)),
            ]);
            return Err(
                validation_with(
                    "Sistemski sat nije čitljiv, pa se ne može utvrditi da li je dan protekao. Unos nije sačuvan.",
                    details,
                ),
            );
        },
        Some(d) => d,
    };
    if danas.is_before(&datum) {
        let shown = iso_date(danas);
        let details = vec![text_detail("dan", dan), text_detail("danas", shown.as_str())];
        assert(details_view(details@) =~= seq![
            ("dan"@, DetailView::Text(dan@)),
            ("danas"@, DetailView::Text(iso_text(danas))),
        ]);
        return Err(
            validation_with(
                "Ne može se evidentirati dan koji još nije protekao. Evidentira se dan koji se dogodio.",
                details,
            ),
        );
    }
    Ok(())
}

pub open spec fn outside_period_text(godina: int, mesec: int) -> Seq<char> {
    "Datum mora pripadati izabranom periodu — "@ + period_name(godina, mesec) + "."@
}

/// The details of a day outside the stated period:
/// `{"dan": dan, "godina": godina, "mesec": mesec}` of the stated period.
pub open spec fn outside_period_details(dan: Seq<char>, godina: int, mesec: int) -> Seq<
    (Seq<char>, DetailView),
> {
    seq![
        ("dan"@, DetailView::Text(dan)),
        ("godina"@, DetailView::Integer(godina)),
        ("mesec"@, DetailView::Integer(mesec)),
    ]
}

/// Refuses a day outside the period the write was made for: the row would
/// land in a month nobody was looking at. `dan` is the day as given.
pub fn guard_day_is_in_period(
    dan: &str,
    godina: i64,
    mesec: i64,
    trazena_godina: i64,
    trazeni_mesec: i64,
) -> (r: Result<(), AppError>)
    ensures
        godina == trazena_godina && mesec == trazeni_mesec ==> r is Ok,
        !(godina == trazena_godina && mesec == trazeni_mesec) ==> (r matches Err(e)
            && e.is_validation_saying(
            outside_period_text(trazena_godina as int, trazeni_mesec as int),
            outside_period_details(dan@, trazena_godina as int, trazeni_mesec as int),
        )),
{
    if godina == trazena_godina && mesec == trazeni_mesec {
        return Ok(());
    }
    let mut text: Vec<char> = Vec::new();
    push_str(&mut text, "Datum mora pripadati izabranom periodu — ");
    push_period_name(&mut text, trazena_godina, trazeni_mesec);
    push_str(&mut text, ".");
    proof {
        assert(text@ =~= outside_period_text(trazena_godina as int, trazeni_mesec as int));
    }
    let details = vec![
        text_detail("dan", dan),
        integer_detail("godina", trazena_godina),
        integer_detail("mesec", trazeni_mesec),
    ];
    assert(details_view(details@) =~= outside_period_details(
        dan@,
        trazena_godina as int,
        trazeni_mesec as int,
    ));
    Err(validation_with(string_from_chars(&text).as_str(), details))
}

pub open spec fn period_closed_text(godina: int, mesec: int) -> Seq<char> {
    "Period "@ + period_name(godina, mesec)
        + ". je zaključen i više se ne može menjati. Zaključenje je konačno."@
}

/// The refusal for any write into a closed period.
pub fn period_closed_error(godina: i64, mesec: i64) -> (e: AppError)
    ensures
        e.is_business_with(
            BusinessCode::PeriodClosed,
            period_closed_text(godina as int, mesec as int),
            period_details(godina as int, mesec as int),
        ),
{
    let mut text: Vec<char> = Vec::new();
    push_str(&mut text, "Period ");
    push_period_name(&mut text, godina, mesec);
    push_str(&mut text, ". je zaključen i više se ne može menjati. Zaključenje je konačno.");
    proof {
        assert(text@ =~= period_closed_text(godina as int, mesec as int));
    }
    business_with(
        BusinessCode::PeriodClosed,
        string_from_chars(&text).as_str(),
        period_details_of(godina, mesec),
    )
}

/// ZoR čl. 57 st. 5: in preraspodela a week may not exceed 60 hours.
pub const PRERASPODELA_WEEKLY_CAP_MINUTES: i64 = 3600;

/// The čl. 53 assessment of a day and its calendar week.
#[derive(Debug, Clone, Copy, PartialEq, Eq)]
pub struct CapAssessment {
    /// The day is over the twelve-hour daily figure.
    pub daily_cap_exceeded: bool,
    /// The week's overtime is over the čl. 53 st. 2 weekly figure.
    pub weekly_cap_exceeded: bool,
    /// The week is over the čl. 57 st. 5 sixty-hour ceiling (preraspodela).
    pub preraspodela_weekly_cap_exceeded: bool,
    pub weekly_total_minutes: i64,
    /// The day can be recorded only with an override ground.
    pub requires_override: bool,
}

/// A čl. 87–91 finding about the day; a blocking one bans the work itself.
#[derive(Debug, Clone, PartialEq, Eq)]
pub struct ProtectionBlock {
    pub blocking: bool,
    pub poruka: String,
}

/// The čl. 53 assessment with the čl. 57/58 branch applied: for an employee
/// in preraspodela the override gate swaps the daily figure for the sixty-hour
/// weekly ceiling — one ceiling replaces another, none is dropped. The daily
/// finding itself stays visible.
pub open spec fn caps_for_employee(caps: CapAssessment, radi_u_preraspodeli: bool) -> CapAssessment {
    if radi_u_preraspodeli {
        let over = caps.weekly_total_minutes > PRERASPODELA_WEEKLY_CAP_MINUTES;
        CapAssessment {
            preraspodela_weekly_cap_exceeded: over,
            requires_override: caps.weekly_cap_exceeded || over,
            ..caps
        }
    } else {
        caps
    }
}

pub fn assess_caps_for_employee(caps: CapAssessment, radi_u_preraspodeli: bool) -> (r: CapAssessment)
    ensures
        r == caps_for_employee(caps, radi_u_preraspodeli),
{
    let mut caps = caps;
    if radi_u_preraspodeli {
        caps.preraspodela_weekly_cap_exceeded = caps.weekly_total_minutes
            > PRERASPODELA_WEEKLY_CAP_MINUTES;
        caps.requires_override = caps.weekly_cap_exceeded || caps.preraspodela_weekly_cap_exceeded;
    }
    caps
}

/// The branch never leaves a preraspodela week without a ceiling: a week over
/// sixty hours demands a ground whatever the daily figure says, and the weekly
/// overtime leg and the daily finding are kept.
pub proof fn lemma_preraspodela_swaps_a_ceiling_never_drops_one(caps: CapAssessment)
    ensures
        caps.weekly_total_minutes > PRERASPODELA_WEEKLY_CAP_MINUTES ==> caps_for_employee(
            caps,
            true,
        ).requires_override,
        caps.weekly_cap_exceeded ==> caps_for_employee(caps, true).requires_override,
        caps_for_employee(caps, true).daily_cap_exceeded == caps.daily_cap_exceeded,
        caps_for_employee(caps, true).requires_override ==> (caps.weekly_cap_exceeded
            || caps.weekly_total_minutes > PRERASPODELA_WEEKLY_CAP_MINUTES),
        caps_for_employee(caps, false) == caps,
{
}

/// What a write returns: the stored row, the assessment it was measured
/// against, and the non-blocking findings the operator must see.
#[derive(Debug, Clone, PartialEq, Eq)]
pub struct SavedEntry {
    pub entry: WorkTimeEntryView,
    pub caps: CapAssessment,
    pub protections: Vec<ProtectionBlock>,
}

/// The live (highest) version of a day.
#[derive(Debug, Clone, Copy, PartialEq, Eq)]
pub struct LiveEntry {
    pub id: i64,
    pub verzija: i64,
}

/// What storage says about the day a write is for: whether the employee
/// exists, whether the day's month is closed, the day's live version, and the
/// čl. 87–91 findings and čl. 53 assessment for the day's week.
#[derive(Debug, Clone)]
pub struct EntryContext {
    pub employee_exists: bool,
    pub period_closed: bool,
    pub live: Option<LiveEntry>,
    pub protections: Vec<ProtectionBlock>,
    pub caps: CapAssessment,
    pub radi_u_preraspodeli: bool,
}

/// The row a write appends.
#[derive(Debug, Clone)]
pub struct EntryWrite {
    pub request: SaveEntryRequest,
    pub minuti: WorkTimeMinutes,
    pub verzija: i64,
    pub supersedes_id: Option<i64>,
    pub korekcija_razlog: Option<String>,
    pub unio_user_id: i64,
    pub created_at: String,
    pub caps: CapAssessment,
    pub protections: Vec<ProtectionBlock>,
}

/// What refusing a period says and its details, if it is refused.
pub open spec fn month_fault(godina: int, mesec: int) -> Option<(Seq<char>, Seq<(Seq<char>, DetailView)>)> {
    if !(1 <= mesec <= 12) {
        Some(("Mesec mora biti između 1 i 12."@, seq![("mesec"@, DetailView::Integer(mesec))]))
    } else if !(1900 <= godina <= 9999) {
        Some(("Godina nije ispravna."@, seq![("godina"@, DetailView::Integer(godina))]))
    } else {
        None
    }
}

/// The index of the first blocking finding, if any.
pub open spec fn first_blocking(s: Seq<ProtectionBlock>, from: int) -> Option<int>
    decreases s.len() - from,
{
    if from >= s.len() || from < 0 {
        None
    } else if s[from].blocking {
        Some(from)
    } else {
        first_blocking(s, from + 1)
    }
}

pub open spec fn employee_missing_text() -> Seq<char> {
    "Zaposleni nije pronađen."@
}

/// What a ceiling breach without a ground is told: the čl. 57 st. 5 sentence
/// when the sixty-hour preraspodela week is what was exceeded.
pub open spec fn cap_required_text(caps: CapAssessment) -> Seq<char> {
    if caps.preraspodela_weekly_cap_exceeded {
        "Prekoračen je limit radnog vremena u preraspodeli — 60 časova nedeljno (ZoR čl. 57 st. 5). Dan se može evidentirati, ali morate izabrati razlog prekoračenja."@
    } else {
        "Prekoračen je zakonski limit iz ZoR čl. 53. Dan se može evidentirati, ali morate izabrati razlog prekoračenja."@
    }
}

/// The outcome of a write of `request` — an original when `korekcija` is
/// none, a correction otherwise — checked in order: the day is a real date
/// that has happened, the stated period is a month and contains the day, the
/// minutes and any override ground are valid, the employee exists and the
/// day's month is open; then an original needs a day without an entry and a
/// correction a day with one; a blocking protection refuses the write, and a
/// ceiling breach needs a ground.
pub open spec fn write_entry_outcome(
    request: SaveEntryRequest,
    korekcija: Option<Seq<char>>,
    acting_id: i64,
    now: Seq<char>,
    ctx: EntryContext,
    r: Result<EntryWrite, AppError>,
) -> bool {
    let datum = iso_date_of(request.dan@);
    let today = civil_date_of(now);
    let period_fault = month_fault(request.godina as int, request.mesec as int);
    let dan = ("dan"@, DetailView::Text(request.dan@));
    if datum is None {
        r matches Err(e) && e.is_validation_saying("Datum mora biti u obliku gggg-MM-dd."@, seq![dan])
    } else if today is None {
        r matches Err(e) && e.is_validation_saying(
            unreadable_clock_text(),
            seq![dan, ("sada"@, DetailView::Text(now))],
        )
    } else if today->0.before(datum->0) {
        r matches Err(e) && e.is_validation_saying(
            future_day_text(),
            seq![dan, ("danas"@, DetailView::Text(iso_text(today->0)))],
        )
    } else if period_fault is Some {
        r matches Err(e) && e.is_validation_saying(period_fault.unwrap().0, period_fault.unwrap().1)
    } else if !(datum->0.year == request.godina && datum->0.month == request.mesec) {
        r matches Err(e) && e.is_validation_saying(
            outside_period_text(request.godina as int, request.mesec as int),
            outside_period_details(request.dan@, request.godina as int, request.mesec as int),
        )
    } else if minutes_fault(request) is Some {
        r matches Err(e) && e.is_validation_saying(
            minutes_fault(request).unwrap().0,
            minutes_fault(request).unwrap().1,
        )
    } else if cap_override_fault(request) {
        r matches Err(e) && e.is_validation_saying(
            cap_override_fault_text(request),
            cap_override_details(request),
        )
    } else if !ctx.employee_exists {
        r matches Err(e) && e.is_not_found() && e.message_text() == employee_missing_text()
    } else if ctx.period_closed {
        r matches Err(e) && e.is_business_with(
            BusinessCode::PeriodClosed,
            period_closed_text(datum->0.year as int, datum->0.month as int),
            period_details(datum->0.year as int, datum->0.month as int),
        )
    } else if korekcija is Some && ctx.live is None {
        r matches Err(e) && e.is_not_found() && e.message_text()
            == "Za ovaj dan ne postoji unos koji bi se ispravio."@
    } else if korekcija is None && ctx.live is Some {
        r matches Err(e) && e.is_business_saying(
            BusinessCode::EntryExists,
            "Za ovaj dan već postoji unos. Izmena se evidentira kao ispravka."@,
        )
    } else if first_blocking(ctx.protections@, 0) is Some {
        r matches Err(e) && e.is_business_with(
            BusinessCode::ProtectionBlock,
            ctx.protections@[first_blocking(ctx.protections@, 0)->0].poruka@,
            seq![("protections"@, DetailView::Protections(ctx.protections@))],
        )
    } else if caps_for_employee(ctx.caps, ctx.radi_u_preraspodeli).requires_override
        && request.cap_override_razlog is None {
        r matches Err(e) && e.is_business_with(
            BusinessCode::CapOverrideRequired,
            cap_required_text(caps_for_employee(ctx.caps, ctx.radi_u_preraspodeli)),
            seq![
                ("caps"@, DetailView::Caps(caps_for_employee(ctx.caps, ctx.radi_u_preraspodeli))),
            ],
        )
    } else {
        r matches Ok(w) && {
            &&& w.request == request
            &&& w.minuti.values() == request_values(request)
            &&& match ctx.live {
                Some(previous) => w.verzija == previous.verzija + 1 && w.supersedes_id == Some(
                    previous.id,
                ),
                None => w.verzija == 1 && w.supersedes_id is None,
            }
            &&& view_option(w.korekcija_razlog) == korekcija
            &&& w.unio_user_id == acting_id
            &&& w.created_at@ == now
            &&& w.caps == caps_for_employee(ctx.caps, ctx.radi_u_preraspodeli)
            &&& w.protections == ctx.protections
        }
    }
}

/// What a recorded day stores, field by field: the six worked figures as
/// given; the absence minutes in the bucket named by the category and every
/// other absence bucket zero; b) the sum of effective work, waiting time and
/// strike, and v) the sum of the nine non-worked buckets.
pub proof fn lemma_recorded_minutes_by_field(
    request: SaveEntryRequest,
    korekcija: Option<Seq<char>>,
    acting_id: i64,
    now: Seq<char>,
    ctx: EntryContext,
    w: EntryWrite,
)
    requires
        write_entry_outcome(request, korekcija, acting_id, now, ctx, Ok(w)),
    ensures
        ({
            let m = w.minuti;
            let k = match request.kategorija_odsustva {
                Some(k) => k@,
                None => Seq::<char>::empty(),
            };
            let a = request.odsustvo_minuta;
            &&& m.moguci_minuta == request.moguci_minuta
            &&& m.efektivno_izvrseni_minuta == request.efektivno_izvrseni_minuta
            &&& m.casovi_cekanja_i_zastoja_minuta == request.casovi_cekanja_i_zastoja_minuta
            &&& m.prekovremeni_minuta == request.prekovremeni_minuta
            &&& m.nocni_minuta == request.nocni_minuta
            &&& m.rad_na_praznik_minuta == request.rad_na_praznik_minuta
            &&& m.godisnji_odmor_minuta == (if k == "godisnji_odmor"@ { a } else { 0 })
            &&& m.praznik_odmor_minuta == (if k == "praznik_odmor"@ { a } else { 0 })
            &&& m.odsustvo_uz_naknadu_minuta == (if k == "odsustvo_uz_naknadu"@ { a } else { 0 })
            &&& m.strucno_osposobljavanje_minuta == (if k == "strucno_osposobljavanje"@ { a } else { 0 })
            &&& m.sprecenost_poslodavac_minuta == (if k == "sprecenost_poslodavac"@ { a } else { 0 })
            &&& m.sprecenost_rfzo_minuta == (if k == "sprecenost_rfzo"@ { a } else { 0 })
            &&& m.porodiljsko_minuta == (if k == "porodiljsko"@ { a } else { 0 })
            &&& m.neplaceno_odsustvo_minuta == (if k == "neplaceno_odsustvo"@ { a } else { 0 })
            &&& m.naknada_drugi_poslodavci_minuta == (if k == "naknada_drugi_poslodavci"@ { a } else { 0 })
            &&& m.obustava_rada_strajk_minuta == (if k == "obustava_rada_strajk"@ { a } else { 0 })
            &&& m.ukupno_ostvareni_minuta == m.efektivno_izvrseni_minuta
                + m.casovi_cekanja_i_zastoja_minuta + m.obustava_rada_strajk_minuta
            &&& m.ukupno_neizvrseni_minuta == m.godisnji_odmor_minuta + m.praznik_odmor_minuta
                + m.odsustvo_uz_naknadu_minuta + m.strucno_osposobljavanje_minuta
                + m.sprecenost_poslodavac_minuta + m.naknada_drugi_poslodavci_minuta
                + m.sprecenost_rfzo_minuta + m.porodiljsko_minuta + m.neplaceno_odsustvo_minuta
        }),
{
    reveal_strlit("godisnji_odmor");
    reveal_strlit("praznik_odmor");
    reveal_strlit("odsustvo_uz_naknadu");
    reveal_strlit("strucno_osposobljavanje");
    reveal_strlit("sprecenost_poslodavac");
    reveal_strlit("sprecenost_rfzo");
    reveal_strlit("porodiljsko");
    reveal_strlit("neplaceno_odsustvo");
    reveal_strlit("naknada_drugi_poslodavci");
    reveal_strlit("obustava_rada_strajk");
    assert("godisnji_odmor"@.len() == 14 && "praznik_odmor"@.len() == 13
        && "odsustvo_uz_naknadu"@.len() == 19 && "strucno_osposobljavanje"@.len() == 23
        && "sprecenost_poslodavac"@.len() == 21 && "sprecenost_rfzo"@.len() == 15
        && "porodiljsko"@.len() == 11 && "neplaceno_odsustvo"@.len() == 18
        && "naknada_drugi_poslodavci"@.len() == 24 && "obustava_rada_strajk"@.len() == 20);
    let m = w.minuti;
    let v = m.values();
    let b = booked_values(request);
    assert(v == with_totals(b));
    assert(v[1] == b[2] + b[3] + b[4]);
    assert(v[5] == b[6] + b[7] + b[8] + b[9] + b[10] + b[11] + b[12] + b[13] + b[14]);
    match request.kategorija_odsustva {
        Some(k) => {
            lemma_absence_categories_are_the_ten(k@);
            let i = category_bucket(k@);
            assert(4 <= i <= 14 && i != 5);
            assert forall|j: int| 0 <= j < 18 implies #[trigger] b[j] == if j == i {
                request.odsustvo_minuta as int
            } else if j == 0 {
                request.moguci_minuta as int
            } else if j == 2 {
                request.efektivno_izvrseni_minuta as int
            } else if j == 3 {
                request.casovi_cekanja_i_zastoja_minuta as int
            } else if j == 15 {
                request.prekovremeni_minuta as int
            } else if j == 16 {
                request.nocni_minuta as int
            } else if j == 17 {
                request.rad_na_praznik_minuta as int
            } else {
                0
            } by {}
        },
        None => {
            assert forall|j: int| 4 <= j <= 14 implies #[trigger] b[j] == 0 by {}
        },
    }
}

/// No finding from `from` on blocks when the search finds none.
proof fn lemma_no_blocking_finding(s: Seq<ProtectionBlock>, from: int)
    requires
        0 <= from,
        first_blocking(s, from) is None,
    ensures
        forall|i: int| from <= i < s.len() ==> !(#[trigger] s[i]).blocking,
    decreases s.len() - from,
{
    if from < s.len() {
        lemma_no_blocking_finding(s, from + 1);
    }
}

/// What every recorded day passed, whatever the request and storage said:
/// - the day is a real `YYYY-MM-DD` day no later than `now`'s date, in the
///   period the request names, a month 1–12 of a year 1900–9999;
/// - no minute figure is negative, absence minutes come only with one of the
///   ten categories, and an override ground is one of the four and never on
///   an absence day;
/// - the employee exists and the period is open; an original is made only
///   for a day without one, a correction only of a day that has one;
/// - no čl. 87–91 finding blocks the day, a day over a ceiling carries a
///   ground, and a preraspodela week is measured against 3600 minutes;
/// - the row is stamped with `now` and the acting user.
pub proof fn lemma_a_recorded_day_passed_every_guard(
    request: SaveEntryRequest,
    korekcija: Option<Seq<char>>,
    acting_id: i64,
    now: Seq<char>,
    ctx: EntryContext,
    w: EntryWrite,
)
    requires
        write_entry_outcome(request, korekcija, acting_id, now, ctx, Ok(w)),
    ensures
        iso_date_of(request.dan@) matches Some(d) && civil_date_of(now) matches Some(t) && (d.year < t.year
            || (d.year == t.year && d.month < t.month) || (d.year == t.year && d.month == t.month
            && d.day <= t.day)) && d.year == request.godina && d.month == request.mesec,
        1 <= request.mesec <= 12 && 1900 <= request.godina <= 9999,
        request.moguci_minuta >= 0 && request.efektivno_izvrseni_minuta >= 0
            && request.casovi_cekanja_i_zastoja_minuta >= 0 && request.prekovremeni_minuta >= 0
            && request.nocni_minuta >= 0 && request.rad_na_praznik_minuta >= 0
            && request.odsustvo_minuta >= 0,
        request.kategorija_odsustva is None ==> request.odsustvo_minuta == 0,
        request.kategorija_odsustva matches Some(k) ==> (k@ == "godisnji_odmor"@ || k@
            == "praznik_odmor"@ || k@ == "odsustvo_uz_naknadu"@ || k@ == "strucno_osposobljavanje"@
            || k@ == "sprecenost_poslodavac"@ || k@ == "sprecenost_rfzo"@ || k@ == "porodiljsko"@
            || k@ == "neplaceno_odsustvo"@ || k@ == "naknada_drugi_poslodavci"@ || k@
            == "obustava_rada_strajk"@),
        request.cap_override_razlog matches Some(g) ==> (g@ == "visa_sila"@ || g@
            == "iznenadno_povecanje_obima_posla"@ || g@ == "neplanirani_posao_u_roku"@ || g@
            == "drugo"@) && request.kategorija_odsustva is None,
        ctx.employee_exists && !ctx.period_closed,
        korekcija is None <==> ctx.live is None,
        forall|i: int| 0 <= i < ctx.protections.len() ==> !(#[trigger] ctx.protections@[i]).blocking,
        caps_for_employee(ctx.caps, ctx.radi_u_preraspodeli).requires_override
            ==> request.cap_override_razlog is Some,
        PRERASPODELA_WEEKLY_CAP_MINUTES == 3600,
        w.created_at@ == now && w.unio_user_id == acting_id,
{
    lemma_no_blocking_finding(ctx.protections@, 0);
    if let Some(k) = request.kategorija_odsustva {
        lemma_absence_categories_are_the_ten(k@);
    }
}

/// Whether a write gets as far as deriving the day's totals: a real day that
/// has happened, in a valid period that contains it.
pub open spec fn reaches_minutes(request: SaveEntryRequest, now: Seq<char>) -> bool {
    let datum = iso_date_of(request.dan@);
    let today = civil_date_of(now);
    &&& datum is Some
    &&& today is Some
    &&& !today->0.before(datum->0)
    &&& month_fault(request.godina as int, request.mesec as int) is None
    &&& datum->0.year == request.godina
    &&& datum->0.month == request.mesec
}

/// Whether a write gets as far as numbering the day's next version.
pub open spec fn reaches_version(request: SaveEntryRequest, now: Seq<char>, ctx: EntryContext) -> bool {
    &&& reaches_minutes(request, now)
    &&& minutes_fault(request) is None
    &&& !cap_override_fault(request)
    &&& ctx.employee_exists
    &&& !ctx.period_closed
}

/// What a write needs of its inputs to stay within `i64`, on the inputs
/// that get that far: the day's derived totals fit, and a correction's next
/// version number fits.
pub open spec fn entry_in_range(
    request: SaveEntryRequest,
    correcting: bool,
    now: Seq<char>,
    ctx: EntryContext,
) -> bool {
    &&& reaches_minutes(request, now) ==> minutes_in_range(request)
    &&& (correcting && reaches_version(request, now, ctx)) ==> (ctx.live matches Some(previous)
        ==> previous.verzija < i64::MAX)
}

/// Whether `request` reaches the derivation of its totals (see
/// [`reaches_minutes`]).
pub fn write_reaches_minutes(request: &SaveEntryRequest, now: &str) -> (r: bool)
    ensures
        r == reaches_minutes(*request, now@),
{
    let datum = match parse_iso_date(request.dan.as_str()) {
        None => return false,
        Some(d) => d,
    };
    let today = match civil_date(now) {
        None => return false,
        Some(t) => t,
    };
    !today.is_before(&datum) && validate_month(request.godina, request.mesec).is_ok()
        && datum.year as i64 == request.godina && datum.month as i64 == request.mesec
}

/// Whether a write of `request` stays within `i64` (see [`entry_in_range`]).
pub fn entry_fits(request: &SaveEntryRequest, correcting: bool, now: &str, ctx: &EntryContext) -> (r:
    bool)
    ensures
        r == entry_in_range(*request, correcting, now@, *ctx),
{
    let reaches = write_reaches_minutes(request, now);
    if reaches && !minutes_fit(request) {
        return false;
    }
    if correcting && reaches && book_request(request).is_ok() && validate_cap_override(
        request,
    ).is_ok() && ctx.employee_exists && !ctx.period_closed {
        if let Some(previous) = ctx.live {
            if previous.verzija == i64::MAX {
                return false;
            }
        }
    }
    true
}

fn check_protections(protections: Vec<ProtectionBlock>) -> (r: Result<Vec<ProtectionBlock>, AppError>)
    ensures
        match first_blocking(protections@, 0) {
            None => r == Ok::<Vec<ProtectionBlock>, AppError>(protections),
            Some(i) => r matches Err(e) && e.is_business_with(
                BusinessCode::ProtectionBlock,
                protections@[i].poruka@,
                seq![("protections"@, DetailView::Protections(protections@))],
            ),
        },
{
    let mut i: usize = 0;
    while i < protections.len()
        invariant
            i <= protections@.len(),
            first_blocking(protections@, 0) == first_blocking(protections@, i as int),
        decreases protections@.len() - i,
    {
        if protections[i].blocking {
            let poruka = protections[i].poruka.clone();
            let ghost all = protections@;
            let details = vec![(String::from_str("protections"), Detail::Protections(protections))];
            proof {
                reveal_strlit("protections");
            }
            assert(details_view(details@) =~= seq![("protections"@, DetailView::Protections(all))]);
            return Err(business_with(BusinessCode::ProtectionBlock, poruka.as_str(), details));
        }
        i = i + 1;
    }
    Ok(protections)
}

fn write_entry(
    request: SaveEntryRequest,
    korekcija: Option<String>,
    acting_id: i64,
    now: &str,
    ctx: EntryContext,
) -> (r: Result<EntryWrite, AppError>)
    requires
        entry_in_range(request, korekcija is Some, now@, ctx),
    ensures
        write_entry_outcome(request, view_option(korekcija), acting_id, now@, ctx, r),
{
    let datum = match parse_iso_date(request.dan.as_str()) {
        None => {
            let details = vec![text_detail("dan", request.dan.as_str())];
            assert(details_view(details@) =~= seq![("dan"@, DetailView::Text(request.dan@))]);
            return Err(validation_with("Datum mora biti u obliku gggg-MM-dd.", details));
        },
        Some(d) => d,
    };
    if let Err(e) = guard_day_has_happened(request.dan.as_str(), datum, now) {
        return Err(e);
    }
    let godina = datum.year as i64;
    let mesec = datum.month as i64;
    if let Err(e) = validate_month(request.godina, request.mesec) {
        return Err(e);
    }
    if let Err(e) = guard_day_is_in_period(
        request.dan.as_str(),
        godina,
        mesec,
        request.godina,
        request.mesec,
    ) {
        return Err(e);
    }
    let minuti = match build_minutes(&request) {
        Ok(m) => m,
        Err(e) => return Err(e),
    };
    if let Err(e) = validate_cap_override(&request) {
        return Err(e);
    }
    if !ctx.employee_exists {
        return Err(not_found("Zaposleni nije pronađen."));
    }
    if ctx.period_closed {
        return Err(period_closed_error(godina, mesec));
    }
    let (verzija, supersedes_id) = match (&korekcija, ctx.live) {
        (Some(_), Some(previous)) => (previous.verzija + 1, Some(previous.id)),
        (Some(_), None) => {
            return Err(not_found("Za ovaj dan ne postoji unos koji bi se ispravio."));
        },
        (None, Some(_)) => {
            return Err(
                business(
                    BusinessCode::EntryExists,
                    "Za ovaj dan već postoji unos. Izmena se evidentira kao ispravka.",
                ),
            );
        },
        (None, None) => (1, None),
    };
    let protections = match check_protections(ctx.protections) {
        Ok(p) => p,
        Err(e) => return Err(e),
    };
    let caps = assess_caps_for_employee(ctx.caps, ctx.radi_u_preraspodeli);
    if caps.requires_override && request.cap_override_razlog.is_none() {
        let poruka = if caps.preraspodela_weekly_cap_exceeded {
            "Prekoračen je limit radnog vremena u preraspodeli — 60 časova nedeljno (ZoR čl. 57 st. 5). Dan se može evidentirati, ali morate izabrati razlog prekoračenja."
        } else {
            "Prekoračen je zakonski limit iz ZoR čl. 53. Dan se može evidentirati, ali morate izabrati razlog prekoračenja."
        };
        let details = vec![(String::from_str("caps"), Detail::Caps(caps))];
        proof {
            reveal_strlit("caps");
        }
        assert(details_view(details@) =~= seq![("caps"@, DetailView::Caps(caps))]);
        return Err(business_with(BusinessCode::CapOverrideRequired, poruka, details));
    }
    Ok(
        EntryWrite {
            request,
            minuti,
            verzija,
            supersedes_id,
            korekcija_razlog: korekcija,
            unio_user_id: acting_id,
            created_at: String::from_str(now),
            caps,
            protections,
        },
    )
}

/// Decides recording a day as its first version (admin only).
pub fn save_entry(
    session: &Option<SessionUser>,
    request: SaveEntryRequest,
    now: &str,
    ctx: EntryContext,
) -> (r: Result<EntryWrite, AppError>)
    requires
        admin_refusal(*session) is None ==> entry_in_range(request, false, now@, ctx),
    ensures
        match admin_refusal(*session) {
            Some(code) => r matches Err(e) && e.is_business_saying(code, refusal_text(code)),
            None => write_entry_outcome(request, None, session->0.id, now@, ctx, r),
        },
{
    let acting = match require_admin(session) {
        Ok(user) => user,
        Err(e) => return Err(e),
    };
    write_entry(request, None, acting.id, now, ctx)
}

/// Decides appending a correcting version of a day (admin only); the
/// predecessor is never touched. The reason must be one of the five.
pub fn correct_entry(
    session: &Option<SessionUser>,
    request: CorrectEntryRequest,
    now: &str,
    ctx: EntryContext,
) -> (r: Result<EntryWrite, AppError>)
    requires
        admin_refusal(*session) is None && is_correction_reason(request.korekcija_razlog@)
            ==> entry_in_range(request.entry, true, now@, ctx),
    ensures
        match admin_refusal(*session) {
            Some(code) => r matches Err(e) && e.is_business_saying(code, refusal_text(code)),
            None => if !is_correction_reason(request.korekcija_razlog@) {
                r matches Err(e) && e.is_validation_saying(
                    "Nepoznat razlog ispravke."@,
                    seq![("korekcijaRazlog"@, DetailView::Text(request.korekcija_razlog@))],
                )
            } else {
                write_entry_outcome(
                    request.entry,
                    Some(request.korekcija_razlog@),
                    session->0.id,
                    now@,
                    ctx,
                    r,
                )
            },
        },
{
    let acting = match require_admin(session) {
        Ok(user) => user,
        Err(e) => return Err(e),
    };
    let razlog = request.korekcija_razlog;
    if !is_known_correction_reason(razlog.as_str()) {
        let details = vec![text_detail("korekcijaRazlog", razlog.as_str())];
        assert(details_view(details@) =~= seq![
            ("korekcijaRazlog"@, DetailView::Text(razlog@)),
        ]);
        return Err(validation_with("Nepoznat razlog ispravke.", details));
    }
    write_entry(request.entry, Some(razlog), acting.id, now, ctx)
}

/// The register is append-only: a correction never rewrites its predecessor
/// but becomes the next version of the day, pointing back at it, and an
/// original is always version 1.
pub proof fn lemma_correction_appends_next_version(
    request: SaveEntryRequest,
    korekcija: Option<Seq<char>>,
    acting_id: i64,
    now: Seq<char>,
    ctx: EntryContext,
    w: EntryWrite,
)
    requires
        write_entry_outcome(request, korekcija, acting_id, now, ctx, Ok(w)),
    ensures
        korekcija is Some ==> (ctx.live matches Some(previous) && w.verzija == previous.verzija + 1
            && w.supersedes_id == Some(previous.id)),
        korekcija is None ==> ctx.live is None && w.verzija == 1 && w.supersedes_id is None,
        !ctx.period_closed,
        ctx.employee_exists,
        w.request == request,
{
}

/// The one sentence every rendering of the register carries: no form is
/// prescribed for it.
pub fn evidencija_zaglavlje() -> (r: &'static str)
    ensures
        r@ == evidencija_zaglavlje_text(),
{
    "Evidencija prekovremenog rada — ZoR čl. 55 st. 6. Zakon ne propisuje obrazac."
}

pub open spec fn evidencija_zaglavlje_text() -> Seq<char> {
    "Evidencija prekovremenog rada — ZoR čl. 55 st. 6. Zakon ne propisuje obrazac."@
}

/// The tag the night and holiday figures carry: computed for a compliance
/// check, never a statutory field.
pub fn advisory_tag() -> (r: &'static str)
    ensures
        r@ == advisory_tag_text(),
{
    "izračunato radi provere usklađenosti"
}

pub open spec fn advisory_tag_text() -> Seq<char> {
    "izračunato radi provere usklađenosti"@
}

/// One stored version of one day.
#[derive(Debug, Clone, PartialEq, Eq)]
pub struct WorkTimeEntryView {
    pub id: i64,
    pub user_id: i64,
    pub dan: String,
    pub verzija: i64,
    /// A later version of this day exists.
    pub zamenjen: bool,
    pub supersedes_id: Option<i64>,
    pub kategorija_odsustva: Option<String>,
    pub cap_override_razlog: Option<String>,
    pub korekcija_razlog: Option<String>,
    pub unio_user_id: Option<i64>,
    pub unio_ime: Option<String>,
    pub created_at: String,
    pub updated_at: String,
    pub minuti: WorkTimeMinutes,
}

/// One employee's month: every version of every day and the live totals.
#[derive(Debug, Clone, PartialEq, Eq)]
pub struct WorkTimeMonth {
    pub user_id: i64,
    pub zaposleni: String,
    pub godina: i64,
    pub mesec: i64,
    pub zatvoren: bool,
    pub closed_at: Option<String>,
    pub entries: Vec<WorkTimeEntryView>,
    /// Live rows only.
    pub ukupno: WorkTimeMinutes,
    pub napomena: String,
    pub advisory_napomena: String,
}

/// The classification a period close freezes.
#[derive(Debug, Clone, PartialEq, Eq)]
pub struct PeriodClassification {
    pub user_id: i64,
    pub godina: i64,
    pub mesec: i64,
    pub dana_sa_unosom: usize,
    pub minuti: WorkTimeMinutes,
    pub izvedeno_u: String,
}

#[derive(Debug, Clone, PartialEq, Eq)]
pub struct ClosedPeriod {
    pub user_id: i64,
    pub godina: i64,
    pub mesec: i64,
    pub closed_at: String,
    pub closed_by: i64,
    pub klasifikacija: PeriodClassification,
}

/// The stored state of one employee's period.
#[derive(Debug, Clone)]
pub struct PeriodRow {
    pub status: String,
    pub closed_at: Option<String>,
}

/// What storage holds for one employee's month: the employee's name (none
/// when the employee does not exist), every version of every day of the
/// month, and the period row if one exists.
#[derive(Debug, Clone)]
pub struct MonthRows {
    pub zaposleni: Option<String>,
    pub entries: Vec<WorkTimeEntryView>,
    pub period: Option<PeriodRow>,
}

/// Bucket `k` summed over the live versions among `s`.
pub open spec fn live_sum(s: Seq<WorkTimeEntryView>, k: int) -> int
    decreases s.len(),
{
    if s.len() == 0 {
        0
    } else {
        live_sum(s.drop_last(), k) + if !s.last().zamenjen {
            s.last().minuti.values()[k]
        } else {
            0
        }
    }
}

/// The number of live versions among `s` — one per recorded day.
pub open spec fn live_count(s: Seq<WorkTimeEntryView>) -> nat
    decreases s.len(),
{
    if s.len() == 0 {
        0
    } else {
        live_count(s.drop_last()) + if !s.last().zamenjen {
            1nat
        } else {
            0nat
        }
    }
}

pub open spec fn live_totals_fit(s: Seq<WorkTimeEntryView>) -> bool {
    forall|k: int| 0 <= k < 18 ==> fits(#[trigger] live_sum(s, k))
}

/// What a version adds to bucket `k` of the live totals.
pub open spec fn live_part(e: WorkTimeEntryView, k: int) -> int {
    if !e.zamenjen {
        e.minuti.values()[k]
    } else {
        0
    }
}

/// What a version adds to the count of recorded days.
pub open spec fn live_mark(e: WorkTimeEntryView) -> int {
    if !e.zamenjen {
        1
    } else {
        0
    }
}

/// Replacing one version changes the live totals and count by the
/// difference of what the two versions contribute.
proof fn lemma_live_update(s: Seq<WorkTimeEntryView>, i: int, x: WorkTimeEntryView, k: int)
    requires
        0 <= i < s.len(),
    ensures
        live_sum(s.update(i, x), k) == live_sum(s, k) - live_part(s[i], k) + live_part(x, k),
        live_count(s.update(i, x)) == live_count(s) - live_mark(s[i]) + live_mark(x),
    decreases s.len(),
{
    let u = s.update(i, x);
    if i == s.len() - 1 {
        assert(u.drop_last() =~= s.drop_last());
    } else {
        lemma_live_update(s.drop_last(), i, x, k);
        assert(u.drop_last() =~= s.drop_last().update(i, x));
    }
}

/// Version `i` is the live version of its day: every other version of that
/// day is lower.
pub open spec fn is_latest(s: Seq<WorkTimeEntryView>, i: int) -> bool {
    forall|j: int|
        #![trigger s[j]]
        0 <= j < s.len() && j != i && s[j].dan@ == s[i].dan@ ==> s[j].verzija < s[i].verzija
}

/// A correction replaces the live version it supersedes. Once the correction
/// (the next version of the same day) is stored beside the month's versions,
/// the superseded version reads as replaced and keeps its minutes, the
/// correction reads as live, every other version reads as before, and in
/// every bucket the month's live totals lose the superseded version's minutes
/// and gain the correction's, with the count of recorded days unchanged.
pub proof fn lemma_correction_replaces_its_predecessor_in_the_totals(
    s: Seq<WorkTimeEntryView>,
    i: int,
    c: WorkTimeEntryView,
)
    requires
        0 <= i < s.len(),
        is_latest(s, i),
        c.dan@ == s[i].dan@,
        c.verzija == s[i].verzija + 1,
    ensures
        !with_live_flags(s)[i].zamenjen,
        with_live_flags(s.push(c))[i].zamenjen,
        with_live_flags(s.push(c))[i].minuti == s[i].minuti,
        !with_live_flags(s.push(c))[s.len() as int].zamenjen,
        forall|j: int|
            0 <= j < s.len() && j != i ==> #[trigger] with_live_flags(s.push(c))[j]
                == with_live_flags(s)[j],
        forall|k: int|
            0 <= k < 18 ==> #[trigger] live_sum(with_live_flags(s.push(c)), k) == live_sum(
                with_live_flags(s),
                k,
            ) - s[i].minuti.values()[k] + c.minuti.values()[k],
        live_count(with_live_flags(s.push(c))) == live_count(with_live_flags(s)),
{
    let t = s.push(c);
    let n = s.len() as int;
    let before = with_live_flags(s);
    let after = with_live_flags(t);
    let x = WorkTimeEntryView { zamenjen: true, ..before[i] };
    assert(t[n] == c);
    assert(!superseded_in(s, i));
    assert(superseded_in(t, i)) by {
        assert(t[n].dan@ == t[i].dan@ && t[n].verzija > t[i].verzija);
    }
    assert(!superseded_in(t, n)) by {
        if superseded_in(t, n) {
            let m = choose|m: int|
                #![trigger t[m]]
                0 <= m < t.len() && t[m].dan@ == t[n].dan@ && t[m].verzija > t[n].verzija;
            assert(t[m] == s[m]);
            assert(s[m].dan@ == s[i].dan@);
        }
    }
    assert forall|j: int| 0 <= j < n && j != i implies superseded_in(t, j) == superseded_in(s, j) by {
        assert(t[j] == s[j]);
        if superseded_in(s, j) {
            let m = choose|m: int|
                #![trigger s[m]]
                0 <= m < s.len() && s[m].dan@ == s[j].dan@ && s[m].verzija > s[j].verzija;
            assert(t[m] == s[m]);
        }
        if superseded_in(t, j) {
            let m = choose|m: int|
                #![trigger t[m]]
                0 <= m < t.len() && t[m].dan@ == t[j].dan@ && t[m].verzija > t[j].verzija;
            if m < n {
                assert(t[m] == s[m]);
            } else {
                assert(s[j].dan@ == s[i].dan@);
                assert(s[i].dan@ == s[j].dan@ && s[i].verzija > s[j].verzija);
            }
        }
    }
    assert(after.drop_last() =~= before.update(i, x)) by {
        assert forall|j: int| 0 <= j < n implies #[trigger] after.drop_last()[j] == before.update(
            i,
            x,
        )[j] by {
            assert(t[j] == s[j]);
        }
    }
    assert forall|j: int| 0 <= j < n && j != i implies #[trigger] after[j] == before[j] by {
        assert(t[j] == s[j]);
        assert(after[j] == after.drop_last()[j]);
    }
    assert(after[i] == after.drop_last()[i]);
    assert forall|k: int| 0 <= k < 18 implies #[trigger] live_sum(after, k) == live_sum(before, k)
        - s[i].minuti.values()[k] + c.minuti.values()[k] by {
        lemma_live_update(before, i, x, k);
    }
    lemma_live_update(before, i, x, 0);
}

proof fn lemma_live_count_bound(s: Seq<WorkTimeEntryView>)
    ensures
        live_count(s) <= s.len(),
    decreases s.len(),
{
    if s.len() > 0 {
        lemma_live_count_bound(s.drop_last());
    }
}

/// Whether a later version of the day of version `i` is among `s`.
pub open spec fn superseded_in(s: Seq<WorkTimeEntryView>, i: int) -> bool {
    exists|j: int|
        #![trigger s[j]]
        0 <= j < s.len() && s[j].dan@ == s[i].dan@ && s[j].verzija > s[i].verzija
}

/// The versions with each one's replaced flag read off the versions
/// themselves: a version is replaced exactly when a later version of its day
/// is among them.
pub open spec fn with_live_flags(s: Seq<WorkTimeEntryView>) -> Seq<WorkTimeEntryView> {
    Seq::new(s.len(), |i: int| WorkTimeEntryView { zamenjen: superseded_in(s, i), ..s[i] })
}

/// Version `a` comes before version `b`: an earlier day, or the same day and
/// a lower version.
pub open spec fn entry_before(a: WorkTimeEntryView, b: WorkTimeEntryView) -> bool {
    text_before(a.dan@, b.dan@) || (a.dan@ == b.dan@ && a.verzija < b.verzija)
}

/// The versions come ordered by day, then by version.
pub open spec fn entries_in_order(s: Seq<WorkTimeEntryView>) -> bool {
    forall|i: int| 0 <= i < s.len() - 1 ==> #[trigger] entry_before(s[i], s[i + 1])
}

/// Every version is one of `user_id`'s.
pub open spec fn entries_of(s: Seq<WorkTimeEntryView>, user_id: i64) -> bool {
    forall|i: int| 0 <= i < s.len() ==> (#[trigger] s[i]).user_id == user_id
}

/// Whether the versions come ordered by day, then by version.
pub fn are_in_order(entries: &Vec<WorkTimeEntryView>) -> (r: bool)
    ensures
        r == entries_in_order(entries@),
{
    let n = entries.len();
    let mut i: usize = 1;
    while i < n
        invariant
            n == entries.len(),
            1 <= i,
            forall|k: int| 0 <= k < i - 1 && k < n - 1 ==> #[trigger] entry_before(entries@[k], entries@[k + 1]),
        decreases n - i,
    {
        let a = &entries[i - 1];
        let b = &entries[i];
        let before = is_text_before(a.dan.as_str(), b.dan.as_str()) || (str_eq(
            a.dan.as_str(),
            b.dan.as_str(),
        ) && a.verzija < b.verzija);
        if !before {
            assert(!entry_before(entries@[i - 1], entries@[(i - 1) + 1]));
            return false;
        }
        i = i + 1;
    }
    true
}

/// Whether every version is one of `user_id`'s.
pub fn all_of_user(entries: &Vec<WorkTimeEntryView>, user_id: i64) -> (r: bool)
    ensures
        r == entries_of(entries@, user_id),
{
    let mut i: usize = 0;
    while i < entries.len()
        invariant
            i <= entries.len(),
            forall|k: int| 0 <= k < i ==> (#[trigger] entries@[k]).user_id == user_id,
        decreases entries.len() - i,
    {
        if entries[i].user_id != user_id {
            assert(entries@[i as int].user_id != user_id);
            return false;
        }
        i = i + 1;
    }
    true
}

/// Setting the replaced flags keeps each version's owner, day and version,
/// so it keeps their order and ownership.
proof fn lemma_flags_keep_order_and_owner(s: Seq<WorkTimeEntryView>, user_id: i64)
    ensures
        entries_in_order(s) ==> entries_in_order(with_live_flags(s)),
        entries_of(s, user_id) ==> entries_of(with_live_flags(s), user_id),
{
    let w = with_live_flags(s);
    if entries_in_order(s) {
        assert forall|i: int| 0 <= i < w.len() - 1 implies #[trigger] entry_before(w[i], w[i + 1]) by {
            assert(entry_before(s[i], s[i + 1]));
        }
    }
    if entries_of(s, user_id) {
        assert forall|i: int| 0 <= i < w.len() implies (#[trigger] w[i]).user_id == user_id by {
            assert(s[i].user_id == user_id);
        }
    }
}

/// Sets every version's replaced flag from the versions themselves.
pub fn mark_superseded(entries: &mut Vec<WorkTimeEntryView>)
    ensures
        final(entries)@ == with_live_flags(old(entries)@),
{
    let n = entries.len();
    let mut flags: Vec<bool> = Vec::new();
    let mut i: usize = 0;
    while i < n
        invariant
            n == entries.len(),
            entries@ == old(entries)@,
            i <= n,
            flags.len() == i,
            forall|k: int| 0 <= k < i ==> flags@[k] == superseded_in(entries@, k),
        decreases n - i,
    {
        let mut found = false;
        let mut j: usize = 0;
        while j < n
            invariant
                n == entries.len(),
                i < n,
                j <= n,
                found == exists|m: int|
                    #![trigger entries@[m]]
                    0 <= m < j && entries@[m].dan@ == entries@[i as int].dan@ && entries@[m].verzija
                        > entries@[i as int].verzija,
            decreases n - j,
        {
            if entries[j].verzija > entries[i].verzija && str_eq(
                entries[j].dan.as_str(),
                entries[i].dan.as_str(),
            ) {
                found = true;
            }
            j = j + 1;
        }
        flags.push(found);
        i = i + 1;
    }
    let ghost orig = entries@;
    let mut i: usize = 0;
    while i < n
        invariant
            entries.len() == n,
            flags.len() == n,
            orig.len() == n,
            orig == old(entries)@,
            i <= n,
            forall|k: int| 0 <= k < n ==> flags@[k] == superseded_in(orig, k),
            forall|k: int| 0 <= k < i ==> entries@[k] == with_live_flags(orig)[k],
            forall|k: int| i <= k < n ==> entries@[k] == orig[k],
        decreases n - i,
    {
        let flag = flags[i];
        entries[i].zamenjen = flag;
        i = i + 1;
    }
    assert(entries@ =~= with_live_flags(orig));
}

/// The live totals of `entries` and the number of live days.
pub fn live_totals(entries: &Vec<WorkTimeEntryView>) -> (r: (WorkTimeMinutes, usize))
    requires
        live_totals_fit(entries@),
    ensures
        forall|k: int| 0 <= k < 18 ==> #[trigger] r.0.values()[k] == live_sum(entries@, k),
        r.1 == live_count(entries@),
{
    let mut acc: Vec<i128> = vec![0, 0, 0, 0, 0, 0, 0, 0, 0, 0, 0, 0, 0, 0, 0, 0, 0, 0];
    let mut count: usize = 0;
    let mut i: usize = 0;
    while i < entries.len()
        invariant
            i <= entries@.len(),
            acc@.len() == 18,
            count == live_count(entries@.subrange(0, i as int)),
            forall|k: int|
                0 <= k < 18 ==> #[trigger] acc@[k] == live_sum(entries@.subrange(0, i as int), k),
            forall|k: int|
                0 <= k < 18 ==> -(i as int) * 0x8000_0000_0000_0000 <= #[trigger] acc@[k] <= (
                i as int) * 0x8000_0000_0000_0000,
        decreases entries@.len() - i,
    {
        let ghost prefix = entries@.subrange(0, i as int);
        let ghost next = entries@.subrange(0, i + 1);
        assert(next.drop_last() =~= prefix);
        proof {
            lemma_live_count_bound(prefix);
        }
        let entry = &entries[i];
        if !entry.zamenjen {
            let values = entry.minuti.values_vec();
            let mut j: usize = 0;
            while j < 18
                invariant
                    i < entries@.len(),
                    *entry == entries@[i as int],
                    !entry.zamenjen,
                    values@.len() == 18,
                    forall|k: int| 0 <= k < 18 ==> values@[k] as int == #[trigger] entry.minuti.values()[k],
                    j <= 18,
                    acc@.len() == 18,
                    next.len() > 0,
                    next.drop_last() == prefix,
                    next.last() == *entry,
                    forall|k: int|
                        0 <= k < j ==> #[trigger] acc@[k] == live_sum(next, k),
                    forall|k: int|
                        j <= k < 18 ==> #[trigger] acc@[k] == live_sum(prefix, k),
                    forall|k: int|
                        0 <= k < j ==> -(i as int + 1) * 0x8000_0000_0000_0000 <= #[trigger] acc@[k]
                            <= (i as int + 1) * 0x8000_0000_0000_0000,
                    forall|k: int|
                        j <= k < 18 ==> -(i as int) * 0x8000_0000_0000_0000 <= #[trigger] acc@[k]
                            <= (i as int) * 0x8000_0000_0000_0000,
                    i < entries@.len(),
                    entries@.len() <= usize::MAX,
                decreases 18 - j,
            {
                proof {
                    crate::shifts::lemma_partial_sum_bound(
                        entries@.len() as int,
                        i as int,
                        acc@[j as int] as int,
                    );
                }
                assert(live_sum(next, j as int) == live_sum(prefix, j as int)
                    + entry.minuti.values()[j as int]);
                let sum = acc[j] + values[j] as i128;
                acc.set(j, sum);
                j = j + 1;
            }
            count = count + 1;
        } else {
            proof {
                assert forall|k: int| 0 <= k < 18 implies #[trigger] acc@[k] == live_sum(next, k) by {}
                assert forall|k: int| 0 <= k < 18 implies -(i as int + 1) * 0x8000_0000_0000_0000
                    <= #[trigger] acc@[k] <= (i as int + 1) * 0x8000_0000_0000_0000 by {}
            }
        }
        i = i + 1;
    }
    assert(entries@.subrange(0, i as int) =~= entries@);
    let mut out: Vec<i64> = Vec::new();
    let mut k: usize = 0;
    while k < 18
        invariant
            k <= 18,
            acc@.len() == 18,
            out@.len() == k,
            live_totals_fit(entries@),
            forall|m: int| 0 <= m < 18 ==> #[trigger] acc@[m] == live_sum(entries@, m),
            forall|m: int| 0 <= m < k ==> #[trigger] out@[m] as int == live_sum(entries@, m),
        decreases 18 - k,
    {
        assert(fits(live_sum(entries@, k as int)));
        out.push(acc[k] as i64);
        k = k + 1;
    }
    (WorkTimeMinutes::from_values(&out), count)
}

/// Whether `m` is the month of `user_id` that `rows` describe: every stored
/// version, the live totals, and the period's closed state.
pub open spec fn describes_month(
    m: WorkTimeMonth,
    user_id: i64,
    godina: i64,
    mesec: i64,
    rows: MonthRows,
) -> bool {
    &&& m.user_id == user_id
    &&& rows.zaposleni matches Some(name) && m.zaposleni == name
    &&& m.godina == godina
    &&& m.mesec == mesec
    &&& m.entries@ == with_live_flags(rows.entries@)
    &&& forall|k: int|
        0 <= k < 18 ==> #[trigger] m.ukupno.values()[k] == live_sum(with_live_flags(rows.entries@), k)
    &&& match rows.period {
        Some(p) => m.zatvoren == (p.status@ == "closed"@) && m.closed_at == p.closed_at,
        None => !m.zatvoren && m.closed_at is None,
    }
    &&& m.napomena@ == evidencija_zaglavlje_text()
    &&& m.advisory_napomena@ == advisory_tag_text()
}

/// The outcome of reading a month: a valid period, an existing employee, then
/// the month.
pub open spec fn month_outcome(
    user_id: i64,
    godina: i64,
    mesec: i64,
    rows: MonthRows,
    r: Result<WorkTimeMonth, AppError>,
) -> bool {
    let fault = month_fault(godina as int, mesec as int);
    if fault is Some {
        r matches Err(e) && e.is_validation_saying(fault.unwrap().0, fault.unwrap().1)
    } else if rows.zaposleni is None {
        r matches Err(e) && e.is_not_found() && e.message_text() == employee_missing_text()
    } else {
        r matches Ok(m) && describes_month(m, user_id, godina, mesec, rows)
    }
}

/// Builds one employee's month from what storage holds for it.
pub fn load_month(user_id: i64, godina: i64, mesec: i64, rows: MonthRows) -> (r: Result<
    WorkTimeMonth,
    AppError,
>)
    requires
        live_totals_fit(with_live_flags(rows.entries@)),
        entries_in_order(rows.entries@),
        entries_of(rows.entries@, user_id),
    ensures
        month_outcome(user_id, godina, mesec, rows, r),
        r matches Ok(m) ==> entries_in_order(m.entries@) && entries_of(m.entries@, user_id),
{
    if let Err(e) = validate_month(godina, mesec) {
        return Err(e);
    }
    let zaposleni = match rows.zaposleni {
        Some(name) => name,
        None => return Err(not_found("Zaposleni nije pronađen.")),
    };
    let mut entries = rows.entries;
    mark_superseded(&mut entries);
    proof {
        lemma_flags_keep_order_and_owner(rows.entries@, user_id);
    }
    let (ukupno, _) = live_totals(&entries);
    let (zatvoren, closed_at) = match rows.period {
        Some(p) => (str_eq(p.status.as_str(), "closed"), p.closed_at),
        None => (false, None),
    };
    Ok(
        WorkTimeMonth {
            user_id,
            zaposleni,
            godina,
            mesec,
            zatvoren,
            closed_at,
            entries,
            ukupno,
            napomena: String::from_str(evidencija_zaglavlje()),
            advisory_napomena: String::from_str(advisory_tag()),
        },
    )
}

/// An employee's month for the admin register.
pub fn list_month(
    session: &Option<SessionUser>,
    user_id: i64,
    godina: i64,
    mesec: i64,
    rows: MonthRows,
) -> (r: Result<WorkTimeMonth, AppError>)
    requires
        live_totals_fit(with_live_flags(rows.entries@)),
        entries_in_order(rows.entries@),
        entries_of(rows.entries@, user_id),
    ensures
        match admin_refusal(*session) {
            Some(code) => r matches Err(e) && e.is_business_saying(code, refusal_text(code)),
            None => month_outcome(user_id, godina, mesec, rows, r),
        },
        r matches Ok(m) ==> entries_in_order(m.entries@) && entries_of(m.entries@, user_id),
{
    if let Err(e) = require_admin(session) {
        return Err(e);
    }
    load_month(user_id, godina, mesec, rows)
}

/// The signed-in employee's own month, read-only: the employee is the
/// session's user, never a client-supplied id, and `rows` are that user's.
pub fn my_hours(session: &Option<SessionUser>, godina: i64, mesec: i64, rows: MonthRows) -> (r:
    Result<WorkTimeMonth, AppError>)
    requires
        live_totals_fit(with_live_flags(rows.entries@)),
        entries_in_order(rows.entries@),
        session matches Some(user) ==> entries_of(rows.entries@, user.id),
    ensures
        match *session {
            None => r matches Err(e) && e.is_business_saying(BusinessCode::Unauthorized, unauthorized_text()),
            Some(user) => month_outcome(user.id, godina, mesec, rows, r) && (r matches Ok(m)
                ==> entries_in_order(m.entries@) && entries_of(m.entries@, user.id)),
        },
{
    let user_id = match require_session(session) {
        Ok(id) => id,
        Err(e) => return Err(e),
    };
    load_month(user_id, godina, mesec, rows)
}

/// The outcome of closing a period: a valid month that has ended, an
/// existing employee and an open period; the close freezes the live totals
/// and the number of recorded days.
pub open spec fn close_outcome(
    acting_id: i64,
    user_id: i64,
    godina: i64,
    mesec: i64,
    now: Seq<char>,
    rows: MonthRows,
    r: Result<ClosedPeriod, AppError>,
) -> bool {
    let fault = month_fault(godina as int, mesec as int);
    if fault is Some {
        r matches Err(e) && e.is_validation_saying(fault.unwrap().0, fault.unwrap().1)
    } else if !period_has_ended(godina as int, mesec as int, now) {
        r matches Err(e) && e.is_validation_saying(
            period_not_ended_text(godina as int, mesec as int),
            period_details(godina as int, mesec as int),
        )
    } else if rows.zaposleni is None {
        r matches Err(e) && e.is_not_found() && e.message_text() == employee_missing_text()
    } else if rows.period matches Some(p) && p.status@ == "closed"@ {
        r matches Err(e) && e.is_business_with(
            BusinessCode::PeriodClosed,
            period_closed_text(godina as int, mesec as int),
            period_details(godina as int, mesec as int),
        )
    } else {
        r matches Ok(c) && {
            &&& c.user_id == user_id
            &&& c.godina == godina
            &&& c.mesec == mesec
            &&& c.closed_at@ == now
            &&& c.closed_by == acting_id
            &&& c.klasifikacija.user_id == user_id
            &&& c.klasifikacija.godina == godina
            &&& c.klasifikacija.mesec == mesec
            &&& c.klasifikacija.dana_sa_unosom == live_count(with_live_flags(rows.entries@))
            &&& forall|k: int|
                0 <= k < 18 ==> #[trigger] c.klasifikacija.minuti.values()[k] == live_sum(
                    with_live_flags(rows.entries@),
                    k,
                )
            &&& c.klasifikacija.izvedeno_u@ == now
        }
    }
}

/// Decides closing a period (admin only). Irreversible: a closed period
/// refuses a second close, and the guard is the stored status.
pub fn close_period(
    session: &Option<SessionUser>,
    user_id: i64,
    godina: i64,
    mesec: i64,
    now: &str,
    rows: MonthRows,
) -> (r: Result<ClosedPeriod, AppError>)
    requires
        live_totals_fit(with_live_flags(rows.entries@)),
    ensures
        match admin_refusal(*session) {
            Some(code) => r matches Err(e) && e.is_business_saying(code, refusal_text(code)),
            None => close_outcome(session->0.id, user_id, godina, mesec, now@, rows, r),
        },
{
    let acting = match require_admin(session) {
        Ok(user) => user,
        Err(e) => return Err(e),
    };
    if let Err(e) = validate_month(godina, mesec) {
        return Err(e);
    }
    if let Err(e) = guard_period_has_ended(godina, mesec, now) {
        return Err(e);
    }
    if rows.zaposleni.is_none() {
        return Err(not_found("Zaposleni nije pronađen."));
    }
    let closed = match &rows.period {
        Some(p) => str_eq(p.status.as_str(), "closed"),
        None => false,
    };
    if closed {
        return Err(period_closed_error(godina, mesec));
    }
    let mut entries = rows.entries;
    mark_superseded(&mut entries);
    let (minuti, dana) = live_totals(&entries);
    Ok(
        ClosedPeriod {
            user_id,
            godina,
            mesec,
            closed_at: String::from_str(now),
            closed_by: acting.id,
            klasifikacija: PeriodClassification {
                user_id,
                godina,
                mesec,
                dana_sa_unosom: dana,
                minuti,
                izvedeno_u: String::from_str(now),
            },
        },
    )
}

/// What a close freezes is what the register shows: for the same stored
/// rows, the classification's minutes are the month's live totals.
pub proof fn lemma_close_freezes_the_live_totals(
    acting_id: i64,
    user_id: i64,
    godina: i64,
    mesec: i64,
    now: Seq<char>,
    rows: MonthRows,
    closed: ClosedPeriod,
    month: WorkTimeMonth,
)
    requires
        close_outcome(acting_id, user_id, godina, mesec, now, rows, Ok(closed)),
        month_outcome(user_id, godina, mesec, rows, Ok(month)),
    ensures
        closed.klasifikacija.minuti == month.ukupno,
{
    assert(closed.klasifikacija.minuti.values() =~= month.ukupno.values());
}

/// A closed period takes no writes on any ground: neither an original nor a
/// correction of a day in it is ever recorded, and it cannot be closed again.
pub proof fn lemma_closed_period_is_final(
    request: SaveEntryRequest,
    korekcija: Option<Seq<char>>,
    acting_id: i64,
    now: Seq<char>,
    ctx: EntryContext,
    w: EntryWrite,
    user_id: i64,
    godina: i64,
    mesec: i64,
    rows: MonthRows,
    c: ClosedPeriod,
)
    ensures
        ctx.period_closed ==> !write_entry_outcome(request, korekcija, acting_id, now, ctx, Ok(w)),
        (rows.period matches Some(p) && p.status@ == "closed"@) ==> !close_outcome(
            acting_id,
            user_id,
            godina,
            mesec,
            now,
            rows,
            Ok(c),
        ),
{
}

/// The export's column label of bucket `i`, each naming its ZEOR letter.
pub open spec fn label_text(i: int) -> Seq<char> {
    if i == 0 {
        "a) Mogući časovi (min)"@
    } else if i == 1 {
        "b) Ukupno ostvareni časovi (min)"@
    } else if i == 2 {
        "b) – efektivno izvršeni časovi (min)"@
    } else if i == 3 {
        "b) – časovi čekanja, zastoja i prekida (min)"@
    } else if i == 4 {
        "b) – časovi obustave rada zbog štrajka (min)"@
    } else if i == 5 {
        "v) Ukupno neizvršeni časovi (min)"@
    } else if i == 6 {
        "g) Časovi godišnjeg odmora (min)"@
    } else if i == 7 {
        "g) Časovi odmora za dane državnih praznika (min)"@
    } else if i == 8 {
        "g) Časovi odsustva uz naknadu zarade (min)"@
    } else if i == 9 {
        "g) Časovi stručnog osposobljavanja i usavršavanja (min)"@
    } else if i == 10 {
        "g) Časovi privremene sprečenosti — sredstva poslodavca (min)"@
    } else if i == 11 {
        "d) Časovi naknade na teret drugih poslodavaca (min)"@
    } else if i == 12 {
        "đ) Časovi privremene sprečenosti — sredstva RFZO (min)"@
    } else if i == 13 {
        "đ) Časovi porodiljskog i skraćenog radnog vremena roditelja (min)"@
    } else if i == 14 {
        "e) Časovi neplaćenog odsustva (min)"@
    } else if i == 15 {
        "ž) Časovi prekovremenog rada (min)"@
    } else if i == 16 {
        "Noćni časovi (min) — izračunato radi provere usklađenosti"@
    } else {
        "Časovi rada na praznik (min) — izračunato radi provere usklađenosti"@
    }
}

/// Each column of the export carries the bucket its label names: after the
/// day and the absence category come a) possible hours, b) and its three
/// parts, v), the g) buckets, d), the two đ) buckets, e), ž), and the two
/// figures computed for the compliance check, each label over its own
/// field.
pub proof fn lemma_export_columns_match_their_labels(e: WorkTimeEntryView)
    ensures
        header_fields().len() == 20,
        header_fields()[0] == "Datum"@ && header_fields()[1] == "Kategorija odsustva"@,
        entry_fields(e).len() == 20 && entry_fields(e)[0] == e.dan@,
        header_fields()[2] == "a) Mogući časovi (min)"@ && entry_fields(e)[2] == decimal(e.minuti.moguci_minuta as int),
        header_fields()[3] == "b) Ukupno ostvareni časovi (min)"@ && entry_fields(e)[3] == decimal(e.minuti.ukupno_ostvareni_minuta as int),
        header_fields()[4] == "b) – efektivno izvršeni časovi (min)"@ && entry_fields(e)[4] == decimal(e.minuti.efektivno_izvrseni_minuta as int),
        header_fields()[5] == "b) – časovi čekanja, zastoja i prekida (min)"@ && entry_fields(e)[5] == decimal(e.minuti.casovi_cekanja_i_zastoja_minuta as int),
        header_fields()[6] == "b) – časovi obustave rada zbog štrajka (min)"@ && entry_fields(e)[6] == decimal(e.minuti.obustava_rada_strajk_minuta as int),
        header_fields()[7] == "v) Ukupno neizvršeni časovi (min)"@ && entry_fields(e)[7] == decimal(e.minuti.ukupno_neizvrseni_minuta as int),
        header_fields()[8] == "g) Časovi godišnjeg odmora (min)"@ && entry_fields(e)[8] == decimal(e.minuti.godisnji_odmor_minuta as int),
        header_fields()[9] == "g) Časovi odmora za dane državnih praznika (min)"@ && entry_fields(e)[9] == decimal(e.minuti.praznik_odmor_minuta as int),
        header_fields()[10] == "g) Časovi odsustva uz naknadu zarade (min)"@ && entry_fields(e)[10] == decimal(e.minuti.odsustvo_uz_naknadu_minuta as int),
        header_fields()[11] == "g) Časovi stručnog osposobljavanja i usavršavanja (min)"@ && entry_fields(e)[11] == decimal(e.minuti.strucno_osposobljavanje_minuta as int),
        header_fields()[12] == "g) Časovi privremene sprečenosti — sredstva poslodavca (min)"@ && entry_fields(e)[12] == decimal(e.minuti.sprecenost_poslodavac_minuta as int),
        header_fields()[13] == "d) Časovi naknade na teret drugih poslodavaca (min)"@ && entry_fields(e)[13] == decimal(e.minuti.naknada_drugi_poslodavci_minuta as int),
        header_fields()[14] == "đ) Časovi privremene sprečenosti — sredstva RFZO (min)"@ && entry_fields(e)[14] == decimal(e.minuti.sprecenost_rfzo_minuta as int),
        header_fields()[15] == "đ) Časovi porodiljskog i skraćenog radnog vremena roditelja (min)"@ && entry_fields(e)[15] == decimal(e.minuti.porodiljsko_minuta as int),
        header_fields()[16] == "e) Časovi neplaćenog odsustva (min)"@ && entry_fields(e)[16] == decimal(e.minuti.neplaceno_odsustvo_minuta as int),
        header_fields()[17] == "ž) Časovi prekovremenog rada (min)"@ && entry_fields(e)[17] == decimal(e.minuti.prekovremeni_minuta as int),
        header_fields()[18] == "Noćni časovi (min) — izračunato radi provere usklađenosti"@ && entry_fields(e)[18] == decimal(e.minuti.nocni_minuta as int),
        header_fields()[19] == "Časovi rada na praznik (min) — izračunato radi provere usklađenosti"@ && entry_fields(e)[19] == decimal(e.minuti.rad_na_praznik_minuta as int),
{
    assert(header_fields()[2] == label_text(0));
}

fn label(i: usize) -> (r: &'static str)
    requires
        i < 18,
    ensures
        r@ == label_text(i as int),
{
    if i == 0 {
        "a) Mogući časovi (min)"
    } else if i == 1 {
        "b) Ukupno ostvareni časovi (min)"
    } else if i == 2 {
        "b) – efektivno izvršeni časovi (min)"
    } else if i == 3 {
        "b) – časovi čekanja, zastoja i prekida (min)"
    } else if i == 4 {
        "b) – časovi obustave rada zbog štrajka (min)"
    } else if i == 5 {
        "v) Ukupno neizvršeni časovi (min)"
    } else if i == 6 {
        "g) Časovi godišnjeg odmora (min)"
    } else if i == 7 {
        "g) Časovi odmora za dane državnih praznika (min)"
    } else if i == 8 {
        "g) Časovi odsustva uz naknadu zarade (min)"
    } else if i == 9 {
        "g) Časovi stručnog osposobljavanja i usavršavanja (min)"
    } else if i == 10 {
        "g) Časovi privremene sprečenosti — sredstva poslodavca (min)"
    } else if i == 11 {
        "d) Časovi naknade na teret drugih poslodavaca (min)"
    } else if i == 12 {
        "đ) Časovi privremene sprečenosti — sredstva RFZO (min)"
    } else if i == 13 {
        "đ) Časovi porodiljskog i skraćenog radnog vremena roditelja (min)"
    } else if i == 14 {
        "e) Časovi neplaćenog odsustva (min)"
    } else if i == 15 {
        "ž) Časovi prekovremenog rada (min)"
    } else if i == 16 {
        "Noćni časovi (min) — izračunato radi provere usklađenosti"
    } else {
        "Časovi rada na praznik (min) — izračunato radi provere usklađenosti"
    }
}

pub open spec fn header_fields() -> Seq<Seq<char>> {
    seq!["Datum"@, "Kategorija odsustva"@] + Seq::new(18, |k: int| label_text(k))
}

pub open spec fn value_fields(m: WorkTimeMinutes) -> Seq<Seq<char>> {
    Seq::new(18, |k: int| decimal(m.values()[k]))
}

pub open spec fn entry_fields(e: WorkTimeEntryView) -> Seq<Seq<char>> {
    seq![
        e.dan@,
        match e.kategorija_odsustva {
            Some(k) => k@,
            None => Seq::empty(),
        },
    ] + value_fields(e.minuti)
}

/// One line per live version, in order.
pub open spec fn live_rows(s: Seq<WorkTimeEntryView>) -> Seq<Seq<Seq<char>>>
    decreases s.len(),
{
    if s.len() == 0 {
        Seq::empty()
    } else if s.last().zamenjen {
        live_rows(s.drop_last())
    } else {
        live_rows(s.drop_last()).push(entry_fields(s.last()))
    }
}

pub open spec fn advisory_note_text() -> Seq<char> {
    "Noćni časovi i časovi rada na praznik su "@ + advisory_tag_text()
        + ", a ne zakonom propisano polje."@
}

/// The lines of a month's export, columns one to one onto ZEOR čl. 24 tač. 1:
/// a header naming the register, the employee, the period and its status,
/// the column labels, one line per live day, the totals, and the two notes.
/// Nothing in it is called a prescribed form.
pub open spec fn month_csv_rows(month: WorkTimeMonth) -> Seq<Seq<Seq<char>>> {
    seq![
        seq![evidencija_zaglavlje_text()],
        seq!["Zaposleni"@, month.zaposleni@],
        seq!["Period"@, zero_padded(month.mesec as int, 2) + "/"@ + decimal(month.godina as int)],
        seq![
            "Status perioda"@,
            if month.zatvoren {
                "Zaključen"@
            } else {
                "Otvoren"@
            },
        ],
        seq!["Jedinica"@, "Minuti"@],
        seq![Seq::<char>::empty()],
        header_fields(),
    ] + live_rows(month.entries@) + seq![
        seq!["Ukupno"@, Seq::<char>::empty()] + value_fields(month.ukupno),
        seq![Seq::<char>::empty()],
        seq!["Napomena"@, evidencija_zaglavlje_text()],
        seq!["Napomena"@, advisory_note_text()],
    ]
}

/// One export line per live version.
proof fn lemma_live_rows_len(s: Seq<WorkTimeEntryView>)
    ensures
        live_rows(s).len() == live_count(s),
    decreases s.len(),
{
    if s.len() > 0 {
        lemma_live_rows_len(s.drop_last());
    }
}

/// What the export's fixed lines say: the employee's name, the period's
/// status — „Zaključen“ exactly when the month is closed, „Otvoren“ exactly
/// when it is open — the unit, one line per live version of a day, and the
/// totals line of the month's live totals.
pub proof fn lemma_export_states_the_month(m: WorkTimeMonth)
    ensures
        month_csv_rows(m)[1] == seq!["Zaposleni"@, m.zaposleni@],
        m.zatvoren <==> month_csv_rows(m)[3] == seq!["Status perioda"@, "Zaključen"@],
        !m.zatvoren <==> month_csv_rows(m)[3] == seq!["Status perioda"@, "Otvoren"@],
        month_csv_rows(m)[4] == seq!["Jedinica"@, "Minuti"@],
        month_csv_rows(m).len() == 11 + live_count(m.entries@),
        month_csv_rows(m)[7 + live_count(m.entries@) as int].len() == 20,
        month_csv_rows(m)[7 + live_count(m.entries@) as int][0] == "Ukupno"@,
        forall|k: int|
            0 <= k < 18 ==> #[trigger] month_csv_rows(m)[7 + live_count(m.entries@) as int][2 + k]
                == decimal(m.ukupno.values()[k]),
{
    reveal_strlit("Zaključen");
    reveal_strlit("Otvoren");
    assert("Zaključen"@.len() != "Otvoren"@.len());
    lemma_live_rows_len(m.entries@);
    let rows = month_csv_rows(m);
    let n = live_count(m.entries@);
    let t = seq!["Ukupno"@, Seq::<char>::empty()] + value_fields(m.ukupno);
    assert(rows[7 + n as int] == t);
    if m.zatvoren {
        assert(rows[3][1] != "Otvoren"@);
    } else {
        assert(rows[3][1] != "Zaključen"@);
    }
}

fn decimal_string(n: i64) -> (r: String)
    ensures
        r@ == decimal(n as int),
{
    let mut out: Vec<char> = Vec::new();
    push_decimal(&mut out, n);
    string_from_chars(&out)
}

fn push_value_fields(fields: &mut Vec<String>, m: &WorkTimeMinutes)
    ensures
        final(fields)@.map_values(|f: String| f@) == old(fields)@.map_values(|f: String| f@)
            + value_fields(*m),
{
    let values = m.values_vec();
    let ghost start = fields@.map_values(|f: String| f@);
    let mut k: usize = 0;
    while k < 18
        invariant
            k <= 18,
            values@.len() == 18,
            forall|j: int| 0 <= j < 18 ==> values@[j] as int == #[trigger] m.values()[j],
            fields@.map_values(|f: String| f@) == start + value_fields(*m).subrange(0, k as int),
        decreases 18 - k,
    {
        let text = decimal_string(values[k]);
        assert(text@ == value_fields(*m)[k as int]);
        let ghost prev = fields@;
        fields.push(text);
        assert(fields@.map_values(|f: String| f@) =~= prev.map_values(|f: String| f@).push(text@));
        k = k + 1;
        proof {
            assert(fields@.map_values(|f: String| f@) =~= start + value_fields(*m).subrange(
                0,
                k as int,
            ));
        }
    }
    assert(value_fields(*m).subrange(0, 18) =~= value_fields(*m));
}

fn text_field(s: &str) -> (r: String)
    ensures
        r@ == s@,
{
    String::from_str(s)
}

/// Appends one line: a newline first unless it is the first line.
fn append_line(out: &mut Vec<char>, fields: &Vec<String>, first: bool)
    ensures
        final(out)@ == old(out)@ + (if first {
            Seq::<char>::empty()
        } else {
            seq!['\n']
        }) + crate::csv::csv_row(fields@.map_values(|f: String| f@)),
{
    if !first {
        out.push('\n');
    }
    let line = crate::csv::csv_line(fields);
    push_str(out, line.as_str());
    proof {
        assert(final(out)@ =~= old(out)@ + (if first {
            Seq::<char>::empty()
        } else {
            seq!['\n']
        }) + crate::csv::csv_row(fields@.map_values(|f: String| f@)));
    }
}

proof fn lemma_csv_text_push(rows: Seq<Seq<Seq<char>>>, row: Seq<Seq<char>>)
    ensures
        crate::csv::csv_text(rows.push(row)) == crate::csv::csv_text(rows) + (if rows.len() == 0 {
            Seq::<char>::empty()
        } else {
            seq!['\n']
        }) + crate::csv::csv_row(row),
{
    assert(rows.push(row).drop_last() =~= rows);
    if rows.len() == 0 {
        assert(crate::csv::csv_text(rows) =~= Seq::<char>::empty());
        assert(rows.push(row)[0] == row);
    }
}

fn emit(
    out: &mut Vec<char>,
    fields: &Vec<String>,
    first: bool,
    Ghost(rows): Ghost<Seq<Seq<Seq<char>>>>,
)
    requires
        old(out)@ == crate::csv::csv_text(rows),
        first == (rows.len() == 0),
    ensures
        final(out)@ == crate::csv::csv_text(rows.push(fields@.map_values(|f: String| f@))),
{
    proof {
        lemma_csv_text_push(rows, fields@.map_values(|f: String| f@));
    }
    append_line(out, fields, first);
}

fn pair(a: &str, b: &str) -> (r: Vec<String>)
    ensures
        r@.map_values(|f: String| f@) == seq![a@, b@],
{
    let mut v: Vec<String> = Vec::new();
    v.push(text_field(a));
    v.push(text_field(b));
    assert(v@.map_values(|f: String| f@) =~= seq![a@, b@]);
    v
}

fn entry_line(e: &WorkTimeEntryView) -> (r: Vec<String>)
    ensures
        r@.map_values(|f: String| f@) == entry_fields(*e),
{
    let kategorija = match &e.kategorija_odsustva {
        Some(k) => text_field(k.as_str()),
        None => String::new(),
    };
    let mut v: Vec<String> = Vec::new();
    v.push(text_field(e.dan.as_str()));
    v.push(kategorija);
    assert(v@.map_values(|f: String| f@) =~= seq![
        e.dan@,
        match e.kategorija_odsustva {
            Some(k) => k@,
            None => Seq::empty(),
        },
    ]);
    push_value_fields(&mut v, &e.minuti);
    v
}

/// Renders a month as CSV (see [`month_csv_rows`]): live days only, since an
/// inspector reads what the register currently says.
pub fn month_to_csv(month: &WorkTimeMonth) -> (r: String)
    ensures
        r@ == crate::csv::csv_text(month_csv_rows(*month)),
{
    let mut out: Vec<char> = Vec::new();
    let ghost mut rows: Seq<Seq<Seq<char>>> = Seq::empty();
    let mut line: Vec<String> = Vec::new();
    line.push(text_field(evidencija_zaglavlje()));
    assert(line@.map_values(|f: String| f@) =~= seq![evidencija_zaglavlje_text()]);
    emit(&mut out, &line, true, Ghost(rows));
    proof { rows = rows.push(seq![evidencija_zaglavlje_text()]); }

    let line = pair("Zaposleni", month.zaposleni.as_str());
    emit(&mut out, &line, false, Ghost(rows));
    proof { rows = rows.push(seq!["Zaposleni"@, month.zaposleni@]); }

    let mut period: Vec<char> = Vec::new();
    push_zero_padded(&mut period, month.mesec, 2);
    push_str(&mut period, "/");
    push_decimal(&mut period, month.godina);
    let period_text = string_from_chars(&period);
    assert(period_text@ =~= zero_padded(month.mesec as int, 2) + "/"@ + decimal(month.godina as int));
    let line = pair("Period", period_text.as_str());
    emit(&mut out, &line, false, Ghost(rows));
    proof {
        rows = rows.push(seq!["Period"@, zero_padded(month.mesec as int, 2) + "/"@ + decimal(month.godina as int)]);
    }

    let status = if month.zatvoren { "Zaključen" } else { "Otvoren" };
    let line = pair("Status perioda", status);
    emit(&mut out, &line, false, Ghost(rows));
    proof {
        rows = rows.push(seq!["Status perioda"@, if month.zatvoren { "Zaključen"@ } else { "Otvoren"@ }]);
    }

    let line = pair("Jedinica", "Minuti");
    emit(&mut out, &line, false, Ghost(rows));
    proof { rows = rows.push(seq!["Jedinica"@, "Minuti"@]); }

    let mut line: Vec<String> = Vec::new();
    line.push(String::new());
    assert(line@.map_values(|f: String| f@) =~= seq![Seq::<char>::empty()]);
    emit(&mut out, &line, false, Ghost(rows));
    proof { rows = rows.push(seq![Seq::<char>::empty()]); }

    let mut line: Vec<String> = Vec::new();
    line.push(text_field("Datum"));
    line.push(text_field("Kategorija odsustva"));
    let mut k: usize = 0;
    while k < 18
        invariant
            k <= 18,
            line@.map_values(|f: String| f@) == seq!["Datum"@, "Kategorija odsustva"@] + Seq::new(
                k as nat,
                |j: int| label_text(j),
            ),
        decreases 18 - k,
    {
        let ghost prev = line@;
        line.push(text_field(label(k)));
        k = k + 1;
        proof {
            assert(line@.map_values(|f: String| f@) =~= prev.map_values(|f: String| f@).push(
                label_text(k - 1),
            ));
            assert(line@.map_values(|f: String| f@) =~= seq!["Datum"@, "Kategorija odsustva"@]
                + Seq::new(k as nat, |j: int| label_text(j)));
        }
    }
    assert(line@.map_values(|f: String| f@) =~= header_fields());
    emit(&mut out, &line, false, Ghost(rows));
    proof { rows = rows.push(header_fields()); }
    let ghost head = rows;

    let entries = &month.entries;
    let mut i: usize = 0;
    assert(entries@.subrange(0, 0) =~= Seq::<WorkTimeEntryView>::empty());
    assert(head + live_rows(entries@.subrange(0, 0)) =~= head);
    while i < entries.len()
        invariant
            i <= entries@.len(),
            *entries == month.entries,
            head.len() > 0,
            rows == head + live_rows(entries@.subrange(0, i as int)),
            out@ == crate::csv::csv_text(rows),
        decreases entries@.len() - i,
    {
        let ghost next = entries@.subrange(0, i + 1);
        assert(next.drop_last() =~= entries@.subrange(0, i as int));
        let e = &entries[i];
        if !e.zamenjen {
            let line = entry_line(e);
            emit(&mut out, &line, false, Ghost(rows));
            proof {
                rows = rows.push(entry_fields(*e));
                assert(rows =~= head + live_rows(next));
            }
        } else {
            proof {
                assert(rows =~= head + live_rows(next));
            }
        }
        i = i + 1;
    }
    assert(entries@.subrange(0, i as int) =~= entries@);

    let mut line: Vec<String> = Vec::new();
    line.push(text_field("Ukupno"));
    line.push(String::new());
    assert(line@.map_values(|f: String| f@) =~= seq!["Ukupno"@, Seq::<char>::empty()]);
    push_value_fields(&mut line, &month.ukupno);
    emit(&mut out, &line, false, Ghost(rows));
    proof { rows = rows.push(seq!["Ukupno"@, Seq::<char>::empty()] + value_fields(month.ukupno)); }

    let mut line: Vec<String> = Vec::new();
    line.push(String::new());
    assert(line@.map_values(|f: String| f@) =~= seq![Seq::<char>::empty()]);
    emit(&mut out, &line, false, Ghost(rows));
    proof { rows = rows.push(seq![Seq::<char>::empty()]); }

    let line = pair("Napomena", evidencija_zaglavlje());
    emit(&mut out, &line, false, Ghost(rows));
    proof { rows = rows.push(seq!["Napomena"@, evidencija_zaglavlje_text()]); }

    let mut note: Vec<char> = Vec::new();
    push_str(&mut note, "Noćni časovi i časovi rada na praznik su ");
    push_str(&mut note, advisory_tag());
    push_str(&mut note, ", a ne zakonom propisano polje.");
    let note_text = string_from_chars(&note);
    assert(note_text@ =~= advisory_note_text());
    let line = pair("Napomena", note_text.as_str());
    emit(&mut out, &line, false, Ghost(rows));
    proof {
        rows = rows.push(seq!["Napomena"@, advisory_note_text()]);
        assert(rows =~= month_csv_rows(*month));
    }
    string_from_chars(&out)
}

/// A stored day always agrees with its own buckets: b) is the sum of its
/// indents, v) the sum of the non-worked buckets, and the absence sits in
/// exactly the bucket its category names, with every other absence bucket
/// zero.
pub proof fn lemma_stored_day_totals_agree(r: SaveEntryRequest)
    requires
        minutes_fault(r) is None,
    ensures
        ({
            let v = request_values(r);
            &&& v[1] == v[2] + v[3] + v[4]
            &&& v[5] == v[6] + v[7] + v[8] + v[9] + v[10] + v[11] + v[12] + v[13] + v[14]
            &&& forall|i: int|
                (4 <= i <= 14 && i != 5) ==> #[trigger] v[i] == if r.kategorija_odsustva matches Some(
                    k,
                ) && category_bucket(k@) == i {
                    r.odsustvo_minuta as int
                } else {
                    0
                }
            &&& v[15] == r.prekovremeni_minuta
        }),
{
}

} // verus!
