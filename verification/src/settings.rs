//! Shop settings: the company identity, tax rates, receipt numbering, sales
//! options, the shop's legal profile and the cached EUR middle rate.
//!
//! Each save is admin-only and returns the value to store; each load takes
//! what storage holds (if anything) and falls back to the documented default.
use vstd::prelude::*;
use vstd::string::*;

use crate::auth::{admin_refusal, refusal_text, require_admin, SessionUser};
use crate::error::{not_found, validation, AppError, BusinessCode};
use crate::text::{
    all_ascii_digits, is_all_ascii_digits, normalized, to_uppercase, trim, trimmed_or_none,
    trimmed_or_none_string, upper_folded, view_option, str_eq,
};

verus! {

#[derive(Debug, Clone, PartialEq, Eq)]
pub struct CompanySettings {
    pub shop_name: String,
    pub address: String,
    pub pib: String,
    pub registration_number: String,
    pub phone: String,
    pub logo_path: Option<String>,
    pub currency: String,
}

impl CompanySettings {
    pub open spec fn is_default(self) -> bool {
        &&& self.shop_name@ == "VantumPOS"@
        &&& self.address@.len() == 0
        &&& self.pib@.len() == 0
        &&& self.registration_number@.len() == 0
        &&& self.phone@.len() == 0
        &&& self.logo_path is None
        &&& self.currency@ == "RSD"@
    }
}

impl Default for CompanySettings {
    fn default() -> (r: Self)
        ensures
            r.is_default(),
    {
        CompanySettings {
            shop_name: String::from_str("VantumPOS"),
            address: String::new(),
            pib: String::new(),
            registration_number: String::new(),
            phone: String::new(),
            logo_path: None,
            currency: default_currency(),
        }
    }
}

#[derive(Debug, Clone)]
pub struct CompanySettingsRequest {
    pub shop_name: String,
    pub address: String,
    pub pib: String,
    pub registration_number: String,
    pub phone: String,
    pub logo_path: Option<String>,
    pub currency: String,
}

#[derive(Debug, Clone, PartialEq, Eq)]
pub struct TaxRate {
    pub id: i64,
    pub name: String,
    pub rate_basis_points: i64,
    pub active: bool,
}

#[derive(Debug, Clone)]
pub struct SaveTaxRateRequest {
    pub id: Option<i64>,
    pub name: String,
    pub rate_basis_points: i64,
    pub active: bool,
}

/// What a tax-rate save writes: an update of row `id`, or a new row.
#[derive(Debug, Clone)]
pub struct TaxRateWrite {
    pub id: Option<i64>,
    pub name: String,
    pub rate_basis_points: i64,
    pub active: bool,
}

/// A rate the first-run seed inserts, active.
#[derive(Debug, Clone)]
pub struct TaxRateSeed {
    pub name: String,
    pub rate_basis_points: i64,
}

#[derive(Debug, Clone, PartialEq, Eq)]
pub struct ReceiptSettings {
    pub prefix: String,
    pub next_sequence_number: i64,
    pub reset_policy: String,
}

impl ReceiptSettings {
    pub open spec fn is_default(self) -> bool {
        &&& self.prefix@ == "VP-"@
        &&& self.next_sequence_number == 1
        &&& self.reset_policy@ == "none"@
    }
}

impl Default for ReceiptSettings {
    fn default() -> (r: Self)
        ensures
            r.is_default(),
    {
        ReceiptSettings {
            prefix: default_receipt_prefix(),
            next_sequence_number: default_next_sequence_number(),
            reset_policy: default_reset_policy(),
        }
    }
}

#[derive(Debug, Clone)]
pub struct ReceiptSettingsRequest {
    pub prefix: String,
    pub next_sequence_number: i64,
}

#[derive(Debug, Clone, Copy, PartialEq, Eq)]
pub struct SalesSettings {
    pub allow_overselling: bool,
}

impl Default for SalesSettings {
    fn default() -> (r: Self)
        ensures
            !r.allow_overselling,
    {
        SalesSettings { allow_overselling: false }
    }
}

#[derive(Debug, Clone, Copy)]
pub struct SalesSettingsRequest {
    pub allow_overselling: bool,
}

/// The shop's legal form. Never inferred: an unanswered form stays `None`.
#[derive(Debug, Clone, Copy, PartialEq, Eq, Structural)]
pub enum PravnaForma {
    Preduzetnik,
    PravnoLice,
}

#[derive(Debug, Clone, Copy, PartialEq, Eq, Structural)]
pub enum EsirTip {
    Esir,
    Lpfr,
}

#[derive(Debug, Clone, PartialEq, Eq)]
pub struct EsirElement {
    pub naziv: String,
    pub verzija: String,
    pub ib: String,
    pub tip: EsirTip,
    pub checked_on: Option<String>,
}

/// The shop's legal identity. Every answer is tri-state: `None` means the
/// question has not been answered, and nothing here infers an answer from
/// silence.
#[derive(Debug, Clone, PartialEq, Eq)]
pub struct ShopProfile {
    pub pravna_forma: Option<PravnaForma>,
    pub pdv_obveznik: Option<bool>,
    pub distance_selling: Option<bool>,
    pub lpfr_in_premises: Option<bool>,
    pub esir_elements: Vec<EsirElement>,
}

impl ShopProfile {
    pub open spec fn is_unanswered(self) -> bool {
        &&& self.pravna_forma is None
        &&& self.pdv_obveznik is None
        &&& self.distance_selling is None
        &&& self.lpfr_in_premises is None
        &&& self.esir_elements@.len() == 0
    }
}

impl Default for ShopProfile {
    fn default() -> (r: Self)
        ensures
            r.is_unanswered(),
    {
        ShopProfile {
            pravna_forma: None,
            pdv_obveznik: None,
            distance_selling: None,
            lpfr_in_premises: None,
            esir_elements: Vec::new(),
        }
    }
}

#[derive(Debug, Clone)]
pub struct ShopProfileRequest {
    pub pravna_forma: Option<PravnaForma>,
    pub pdv_obveznik: Option<bool>,
    pub distance_selling: Option<bool>,
    pub lpfr_in_premises: Option<bool>,
    pub esir_elements: Vec<EsirElement>,
}

/// Where a cached EUR rate came from.
#[derive(Debug, Clone, Copy, PartialEq, Eq, Structural)]
pub enum RateSource {
    Nbs,
    Manual,
}

/// The EUR middle rate in para per euro, for the day it is quoted for.
#[derive(Debug, Clone, PartialEq, Eq)]
pub struct EurRate {
    pub rate_minor: i64,
    /// `YYYY-MM-DD`.
    pub rate_date: String,
    pub source: RateSource,
}

/// The cached rate and whether it is stale for the day it was judged against.
#[derive(Debug, Clone)]
pub struct EurRateStatus {
    pub rate: Option<EurRate>,
    pub is_stale: bool,
    pub checked_for: String,
}

pub fn default_currency() -> (r: String)
    ensures
        r@ == "RSD"@,
{
    String::from_str("RSD")
}

pub fn default_receipt_prefix() -> (r: String)
    ensures
        r@ == "VP-"@,
{
    String::from_str("VP-")
}

pub fn default_next_sequence_number() -> (r: i64)
    ensures
        r == 1,
{
    1
}

pub fn default_reset_policy() -> (r: String)
    ensures
        r@ == "none"@,
{
    String::from_str("none")
}

/// The text of `s` before its first `T`, or all of it when there is none.
pub open spec fn before_t(s: Seq<char>) -> Seq<char>
    decreases s.len(),
{
    if s.len() == 0 {
        s
    } else if s[0] == 'T' {
        Seq::empty()
    } else {
        seq![s[0]] + before_t(s.drop_first())
    }
}

/// The calendar day of an RFC 3339 stamp — its text before the `T` — which is
/// the shape a rate's date is stored in.
pub fn today_utc(now: &str) -> (r: String)
    ensures
        r@ == before_t(now@),
{
    let n = now.unicode_len();
    let mut i: usize = 0;
    assert(now@.subrange(0, 0) + before_t(now@.subrange(0, n as int)) =~= before_t(now@)) by {
        assert(now@.subrange(0, n as int) =~= now@);
    }
    while i < n && now.get_char(i) != 'T'
        invariant
            n == now@.len(),
            i <= n,
            forall|j: int| 0 <= j < i ==> now@[j] != 'T',
            before_t(now@) == now@.subrange(0, i as int) + before_t(now@.subrange(i as int, n as int)),
        decreases n - i,
    {
        proof {
            let rest = now@.subrange(i as int, n as int);
            assert(rest.drop_first() =~= now@.subrange(i + 1, n as int));
            assert(now@.subrange(0, i + 1) =~= now@.subrange(0, i as int) + seq![now@[i as int]]);
        }
        i = i + 1;
    }
    proof {
        let rest = now@.subrange(i as int, n as int);
        if i < n {
            assert(rest[0] == 'T');
        } else {
            assert(rest.len() == 0);
        }
        assert(before_t(rest) =~= Seq::<char>::empty());
        assert(before_t(now@) =~= now@.subrange(0, i as int));
    }
    String::from_str(now.substring_char(0, i))
}

/// The stored company settings, or the defaults when none are stored.
pub fn load_company_settings(stored: Option<CompanySettings>) -> (r: CompanySettings)
    ensures
        match stored {
            Some(s) => r == s,
            None => r.is_default(),
        },
{
    match stored {
        Some(s) => s,
        None => CompanySettings::default(),
    }
}

/// The first field a company request fails on, if any.
pub open spec fn company_request_fault(request: CompanySettingsRequest) -> Option<(Seq<char>, Seq<char>)> {
    let pib = trim(request.pib@);
    if trim(request.shop_name@).len() == 0 {
        Some(("shopName"@, "Naziv radnje je obavezan."@))
    } else if pib.len() > 0 && (pib.len() != 9 || !all_ascii_digits(pib)) {
        Some(("pib"@, "PIB mora imati 9 cifara."@))
    } else if upper_folded(trim(request.currency@)) != "RSD"@ {
        Some(("currency"@, "Valuta za lokalni MVP mora biti RSD."@))
    } else {
        None
    }
}

/// A company request is accepted exactly when it has a shop name, a PIB
/// that is blank or exactly nine ASCII digits, and RSD as its currency; a
/// PIB of any other length, or with any other character, is refused on the
/// `pib` field.
pub proof fn lemma_company_request_rules(r: CompanySettingsRequest)
    ensures
        company_request_fault(r) is None <==> {
            &&& trim(r.shop_name@).len() > 0
            &&& trim(r.pib@).len() == 0 || (trim(r.pib@).len() == 9 && forall|i: int|
                0 <= i < 9 ==> '0' <= #[trigger] trim(r.pib@)[i] && trim(r.pib@)[i] <= '9')
            &&& upper_folded(trim(r.currency@)) == "RSD"@
        },
        trim(r.shop_name@).len() == 0 ==> company_request_fault(r) == Some(
            ("shopName"@, "Naziv radnje je obavezan."@),
        ),
        trim(r.shop_name@).len() > 0 && trim(r.pib@).len() > 0 && (trim(r.pib@).len() != 9 || exists|
            i: int,
        | 0 <= i < trim(r.pib@).len() && !('0' <= #[trigger] trim(r.pib@)[i] && trim(r.pib@)[i] <= '9'))
            ==> company_request_fault(r) == Some(("pib"@, "PIB mora imati 9 cifara."@)),
{
}

/// Checks a company request: a shop name, a PIB of nine digits when one is
/// given, and RSD as the currency.
pub fn validate_company_request(request: &CompanySettingsRequest) -> (r: Result<(), AppError>)
    ensures
        match company_request_fault(*request) {
            Some(f) => r matches Err(e) && e.is_validation(f.0, f.1),
            None => r is Ok,
        },
{
    if trim_str_len(request.shop_name.as_str()) == 0 {
        return Err(validation("Naziv radnje je obavezan.", "shopName"));
    }
    let pib = normalized(request.pib.as_str());
    let pib_len = pib.as_str().unicode_len();
    if pib_len > 0 && (pib_len != 9 || !is_all_ascii_digits(pib.as_str())) {
        return Err(validation("PIB mora imati 9 cifara.", "pib"));
    }
    let currency = currency_of(request.currency.as_str());
    if !str_eq(currency.as_str(), "RSD") {
        return Err(validation("Valuta za lokalni MVP mora biti RSD.", "currency"));
    }
    Ok(())
}

fn trim_str_len(s: &str) -> (r: usize)
    ensures
        r == trim(s@).len(),
{
    crate::text::trim_str(s).unicode_len()
}

/// The currency as stored: trimmed and upper-cased.
fn currency_of(s: &str) -> (r: String)
    ensures
        r@ == upper_folded(trim(s@)),
{
    let t = crate::text::trim_str(s);
    to_uppercase(t)
}

/// Saves the company identity (admin only). Every text is stored trimmed, a
/// blank logo path is no logo, and the currency is RSD.
pub fn save_company_settings(
    session: &Option<SessionUser>,
    request: CompanySettingsRequest,
) -> (r: Result<CompanySettings, AppError>)
    ensures
        match admin_refusal(*session) {
            Some(code) => r matches Err(e) && e.is_business_saying(code, refusal_text(code)),
            None => match company_request_fault(request) {
                Some(f) => r matches Err(e) && e.is_validation(f.0, f.1),
                None => r matches Ok(s) && {
                    &&& s.shop_name@ == trim(request.shop_name@)
                    &&& s.address@ == trim(request.address@)
                    &&& s.pib@ == trim(request.pib@)
                    &&& s.registration_number@ == trim(request.registration_number@)
                    &&& s.phone@ == trim(request.phone@)
                    &&& view_option(s.logo_path) == trimmed_or_none(view_option(request.logo_path))
                    &&& s.currency@ == "RSD"@
                },
            },
        },
{
    if let Err(e) = require_admin(session) {
        return Err(e);
    }
    if let Err(e) = validate_company_request(&request) {
        return Err(e);
    }
    Ok(CompanySettings {
        shop_name: normalized(request.shop_name.as_str()),
        address: normalized(request.address.as_str()),
        pib: normalized(request.pib.as_str()),
        registration_number: normalized(request.registration_number.as_str()),
        phone: normalized(request.phone.as_str()),
        logo_path: trimmed_or_none_string(request.logo_path),
        currency: currency_of(request.currency.as_str()),
    })
}

/// The first field a tax-rate request fails on, if any.
pub open spec fn tax_rate_request_fault(request: SaveTaxRateRequest) -> Option<(Seq<char>, Seq<char>)> {
    if trim(request.name@).len() == 0 {
        Some(("name"@, "Naziv PDV stope je obavezan."@))
    } else if !(0 <= request.rate_basis_points <= 10_000) {
        Some(("rateBasisPoints"@, "PDV stopa mora biti između 0 i 100%."@))
    } else {
        None
    }
}

/// A tax rate is accepted exactly when it has a name and a rate from 0 to
/// 100 %, that is 0 to 10 000 basis points.
pub proof fn lemma_tax_rate_rules(r: SaveTaxRateRequest)
    ensures
        tax_rate_request_fault(r) is None <==> trim(r.name@).len() > 0 && 0 <= r.rate_basis_points
            <= 10_000,
{
}

/// A tax rate needs a name and a rate between 0 and 100 % (0–10 000 bp).
pub fn validate_tax_rate_request(request: &SaveTaxRateRequest) -> (r: Result<(), AppError>)
    ensures
        match tax_rate_request_fault(*request) {
            Some(f) => r matches Err(e) && e.is_validation(f.0, f.1),
            None => r is Ok,
        },
{
    if trim_str_len(request.name.as_str()) == 0 {
        return Err(validation("Naziv PDV stope je obavezan.", "name"));
    }
    if !(0 <= request.rate_basis_points && request.rate_basis_points <= 10_000) {
        return Err(validation("PDV stopa mora biti između 0 i 100%.", "rateBasisPoints"));
    }
    Ok(())
}

/// Decides a tax-rate save (admin only): the row to write, with the name
/// trimmed. An update whose id names no row is [`tax_rate_not_found`].
pub fn save_tax_rate(session: &Option<SessionUser>, request: SaveTaxRateRequest) -> (r: Result<
    TaxRateWrite,
    AppError,
>)
    ensures
        match admin_refusal(*session) {
            Some(code) => r matches Err(e) && e.is_business_saying(code, refusal_text(code)),
            None => match tax_rate_request_fault(request) {
                Some(f) => r matches Err(e) && e.is_validation(f.0, f.1),
                None => r matches Ok(w) && {
                    &&& w.id == request.id
                    &&& w.name@ == trim(request.name@)
                    &&& w.rate_basis_points == request.rate_basis_points
                    &&& w.active == request.active
                },
            },
        },
{
    if let Err(e) = require_admin(session) {
        return Err(e);
    }
    if let Err(e) = validate_tax_rate_request(&request) {
        return Err(e);
    }
    Ok(TaxRateWrite {
        id: request.id,
        name: normalized(request.name.as_str()),
        rate_basis_points: request.rate_basis_points,
        active: request.active,
    })
}

/// The refusal for an update of a tax rate that does not exist.
pub fn tax_rate_not_found() -> (e: AppError)
    ensures
        e.is_not_found(),
        e.message_text() == "PDV stopa nije pronađena."@,
{
    not_found("PDV stopa nije pronađena.")
}

/// The rates the first-run seed inserts, as (name, basis points): none once
/// any rate exists; otherwise PDV 20% and PDV 10% for a shop in the VAT
/// system, and a single zero rate for one outside it.
pub open spec fn tax_rate_seeds(existing: int, in_vat_system: bool) -> Seq<(Seq<char>, int)> {
    if existing != 0 {
        Seq::empty()
    } else if in_vat_system {
        seq![("PDV 20%"@, 2000int), ("PDV 10%"@, 1000int)]
    } else {
        seq![("Bez PDV-a"@, 0int)]
    }
}

/// The first run seeds by the VAT status, and only into an empty table: a
/// VAT payer gets „PDV 20%“ at 2000 basis points and „PDV 10%“ at 1000, in
/// that order; a business outside the VAT system gets „Bez PDV-a“ at 0;
/// a table that already holds a rate gets nothing.
pub proof fn lemma_seeds_match_their_names(existing: int, in_vat_system: bool)
    ensures
        existing != 0 ==> tax_rate_seeds(existing, in_vat_system).len() == 0,
        existing == 0 && in_vat_system ==> tax_rate_seeds(existing, in_vat_system) == seq![
            ("PDV 20%"@, 2000int),
            ("PDV 10%"@, 1000int),
        ],
        existing == 0 && !in_vat_system ==> tax_rate_seeds(existing, in_vat_system) == seq![
            ("Bez PDV-a"@, 0int),
        ],
{
}

/// Decides the first-run tax-rate seed (admin only); `existing` is how many
/// rates are stored.
pub fn seed_tax_rates(session: &Option<SessionUser>, existing: i64, in_vat_system: bool) -> (r:
    Result<Vec<TaxRateSeed>, AppError>)
    ensures
        match admin_refusal(*session) {
            Some(code) => r matches Err(e) && e.is_business_saying(code, refusal_text(code)),
            None => r matches Ok(seeds) && seeds@.map_values(
                |t: TaxRateSeed| (t.name@, t.rate_basis_points as int),
            ) == tax_rate_seeds(existing as int, in_vat_system),
        },
{
    if let Err(e) = require_admin(session) {
        return Err(e);
    }
    let mut seeds: Vec<TaxRateSeed> = Vec::new();
    if existing == 0 {
        if in_vat_system {
            seeds.push(TaxRateSeed { name: String::from_str("PDV 20%"), rate_basis_points: 2000 });
            seeds.push(TaxRateSeed { name: String::from_str("PDV 10%"), rate_basis_points: 1000 });
        } else {
            seeds.push(TaxRateSeed { name: String::from_str("Bez PDV-a"), rate_basis_points: 0 });
        }
    }
    assert(seeds@.map_values(|t: TaxRateSeed| (t.name@, t.rate_basis_points as int))
        =~= tax_rate_seeds(existing as int, in_vat_system));
    Ok(seeds)
}

/// Seeding is idempotent: a first run on an empty table seeds at least one
/// rate, and a run once those rates are stored seeds none.
pub proof fn lemma_seeding_twice_adds_nothing(in_vat_system: bool, again: bool)
    ensures
        tax_rate_seeds(0, in_vat_system).len() > 0,
        tax_rate_seeds(tax_rate_seeds(0, in_vat_system).len() as int, again).len() == 0,
{
}

/// The stored receipt numbering, or the defaults when none is stored.
pub fn load_receipt_settings(stored: Option<ReceiptSettings>) -> (r: ReceiptSettings)
    ensures
        match stored {
            Some(s) => r == s,
            None => r.is_default(),
        },
{
    match stored {
        Some(s) => s,
        None => ReceiptSettings::default(),
    }
}

/// The first field a receipt request fails on, if any.
pub open spec fn receipt_request_fault(request: ReceiptSettingsRequest) -> Option<(Seq<char>, Seq<char>)> {
    if trim(request.prefix@).len() == 0 {
        Some(("prefix"@, "Prefiks računa je obavezan."@))
    } else if request.next_sequence_number <= 0 {
        Some(("nextSequenceNumber"@, "Sledeći broj računa mora biti veći od nule."@))
    } else {
        None
    }
}

/// Receipt numbering is accepted exactly when it has a prefix and a next
/// number of at least one.
pub proof fn lemma_receipt_rules(r: ReceiptSettingsRequest)
    ensures
        receipt_request_fault(r) is None <==> trim(r.prefix@).len() > 0 && r.next_sequence_number
            >= 1,
{
}

/// Receipt numbering needs a prefix and a positive next number.
pub fn validate_receipt_request(request: &ReceiptSettingsRequest) -> (r: Result<(), AppError>)
    ensures
        match receipt_request_fault(*request) {
            Some(f) => r matches Err(e) && e.is_validation(f.0, f.1),
            None => r is Ok,
        },
{
    if trim_str_len(request.prefix.as_str()) == 0 {
        return Err(validation("Prefiks računa je obavezan.", "prefix"));
    }
    if request.next_sequence_number <= 0 {
        return Err(validation("Sledeći broj računa mora biti veći od nule.", "nextSequenceNumber"));
    }
    Ok(())
}

/// Saves receipt numbering (admin only). The numbering never resets.
pub fn save_receipt_settings(
    session: &Option<SessionUser>,
    request: ReceiptSettingsRequest,
) -> (r: Result<ReceiptSettings, AppError>)
    ensures
        match admin_refusal(*session) {
            Some(code) => r matches Err(e) && e.is_business_saying(code, refusal_text(code)),
            None => match receipt_request_fault(request) {
                Some(f) => r matches Err(e) && e.is_validation(f.0, f.1),
                None => r matches Ok(s) && {
                    &&& s.prefix@ == trim(request.prefix@)
                    &&& s.next_sequence_number == request.next_sequence_number
                    &&& s.reset_policy@ == "none"@
                },
            },
        },
{
    if let Err(e) = require_admin(session) {
        return Err(e);
    }
    if let Err(e) = validate_receipt_request(&request) {
        return Err(e);
    }
    Ok(ReceiptSettings {
        prefix: normalized(request.prefix.as_str()),
        next_sequence_number: request.next_sequence_number,
        reset_policy: default_reset_policy(),
    })
}

/// The stored sales options, or overselling refused when none are stored.
pub fn load_sales_settings(stored: Option<SalesSettings>) -> (r: SalesSettings)
    ensures
        match stored {
            Some(s) => r == s,
            None => !r.allow_overselling,
        },
{
    match stored {
        Some(s) => s,
        None => SalesSettings::default(),
    }
}

/// Saves the sales options (admin only).
pub fn save_sales_settings(session: &Option<SessionUser>, request: SalesSettingsRequest) -> (r:
    Result<SalesSettings, AppError>)
    ensures
        match admin_refusal(*session) {
            Some(code) => r matches Err(e) && e.is_business_saying(code, refusal_text(code)),
            None => r == Ok::<SalesSettings, AppError>(
                SalesSettings { allow_overselling: request.allow_overselling },
            ),
        },
{
    if let Err(e) = require_admin(session) {
        return Err(e);
    }
    Ok(SalesSettings { allow_overselling: request.allow_overselling })
}

/// The cached EUR rate. Absent until the first save, so "never fetched" reads
/// differently from "fetched and stale".
pub fn load_eur_rate(stored: Option<Option<EurRate>>) -> (r: Option<EurRate>)
    ensures
        match stored {
            Some(cached) => r == cached,
            None => r is None,
        },
{
    match stored {
        Some(cached) => cached,
        None => None,
    }
}

/// The value a save of `rate` leaves in the cache.
pub fn save_eur_rate(rate: EurRate) -> (r: Option<EurRate>)
    ensures
        r == Some(rate),
{
    Some(rate)
}

/// A rate is fresh only on its own date; an absent rate is stale.
pub open spec fn rate_is_stale(rate: Option<EurRate>, today: Seq<char>) -> bool {
    match rate {
        None => true,
        Some(r) => r.rate_date@ != today,
    }
}

/// The cached rate and its staleness, judged against `today`.
pub fn eur_rate_status(rate: Option<EurRate>, today: &str) -> (r: EurRateStatus)
    ensures
        r.rate == rate,
        r.is_stale == rate_is_stale(rate, today@),
        r.checked_for@ == today@,
{
    let is_stale = match &rate {
        None => true,
        Some(cached) => !str_eq(cached.rate_date.as_str(), today),
    };
    EurRateStatus { rate, is_stale, checked_for: String::from_str(today) }
}

/// A refresh (admin only): a fetched rate replaces the cache, a failed fetch
/// keeps the cached one, and either way the status is reported rather than an
/// error. Returns the rate to store, if any, and the status.
pub fn refresh_eur_rate(
    session: &Option<SessionUser>,
    cached: Option<EurRate>,
    fetched: Option<EurRate>,
    today: &str,
) -> (r: Result<(Option<EurRate>, EurRateStatus), AppError>)
    ensures
        match admin_refusal(*session) {
            Some(code) => r matches Err(e) && e.is_business_saying(code, refusal_text(code)),
            None => r matches Ok((to_store, status)) && {
                let current = if fetched is Some {
                    fetched
                } else {
                    cached
                };
                &&& to_store == fetched
                &&& status.rate == current
                &&& status.is_stale == rate_is_stale(current, today@)
                &&& status.checked_for@ == today@
            },
        },
{
    if let Err(e) = require_admin(session) {
        return Err(e);
    }
    match fetched {
        Some(rate) => {
            let status = eur_rate_status(Some(rate.clone_rate()), today);
            Ok((Some(rate), status))
        },
        None => Ok((None, eur_rate_status(cached, today))),
    }
}

impl EurRate {
    pub fn clone_rate(&self) -> (r: EurRate)
        ensures
            r == *self,
    {
        EurRate {
            rate_minor: self.rate_minor,
            rate_date: self.rate_date.clone(),
            source: self.source,
        }
    }
}

/// The manual fallback rate (admin only), for the days the NBS is
/// unreachable. A rate must be positive. Returns the rate to store and its
/// status on its own date.
pub fn set_manual_eur_rate(session: &Option<SessionUser>, rate_minor: i64, rate_date: &str) -> (r:
    Result<(EurRate, EurRateStatus), AppError>)
    ensures
        match admin_refusal(*session) {
            Some(code) => r matches Err(e) && e.is_business_saying(code, refusal_text(code)),
            None => if rate_minor <= 0 {
                r matches Err(e) && e.is_validation("rateMinor"@, "Kurs mora biti veći od nule."@)
            } else {
                r matches Ok((rate, status)) && {
                    &&& rate.rate_minor == rate_minor
                    &&& rate.rate_date@ == rate_date@
                    &&& rate.source == RateSource::Manual
                    &&& status.rate == Some(rate)
                    &&& !status.is_stale
                    &&& status.checked_for@ == rate_date@
                }
            },
        },
{
    if let Err(e) = require_admin(session) {
        return Err(e);
    }
    if rate_minor <= 0 {
        return Err(validation("Kurs mora biti veći od nule.", "rateMinor"));
    }
    let rate = EurRate {
        rate_minor,
        rate_date: String::from_str(rate_date),
        source: RateSource::Manual,
    };
    let status = eur_rate_status(load_eur_rate(Some(save_eur_rate(rate.clone_rate()))), rate_date);
    Ok((rate, status))
}

/// The stored shop profile, or the unanswered profile when none is stored.
pub fn load_shop_profile(stored: Option<ShopProfile>) -> (r: ShopProfile)
    ensures
        match stored {
            Some(p) => r == p,
            None => r.is_unanswered(),
        },
{
    match stored {
        Some(p) => p,
        None => ShopProfile::default(),
    }
}

pub open spec fn esir_element_complete(e: EsirElement) -> bool {
    &&& trim(e.naziv@).len() > 0
    &&& trim(e.verzija@).len() > 0
    &&& trim(e.ib@).len() > 0
}

/// `saved` is `given` with its three texts trimmed.
pub open spec fn esir_element_normalized(given: EsirElement, saved: EsirElement) -> bool {
    &&& saved.naziv@ == trim(given.naziv@)
    &&& saved.verzija@ == trim(given.verzija@)
    &&& saved.ib@ == trim(given.ib@)
    &&& saved.tip == given.tip
    &&& view_option(saved.checked_on) == view_option(given.checked_on)
}

fn copy_option_string(value: &Option<String>) -> (r: Option<String>)
    ensures
        view_option(r) == view_option(*value),
{
    match value {
        Some(text) => Some(String::from_str(text.as_str())),
        None => None,
    }
}

/// Saves the shop profile (admin only). Every ESIR element needs a naziv, a
/// verzija and an IB; the answers are stored exactly as given — a legal form
/// is never inferred.
pub fn save_shop_profile(session: &Option<SessionUser>, request: ShopProfileRequest) -> (r: Result<
    ShopProfile,
    AppError,
>)
    ensures
        match admin_refusal(*session) {
            Some(code) => r matches Err(e) && e.is_business_saying(code, refusal_text(code)),
            None => if forall|i: int|
                0 <= i < request.esir_elements@.len() ==> esir_element_complete(
                    #[trigger] request.esir_elements@[i],
                ) {
                r matches Ok(p) && {
                    &&& p.pravna_forma == request.pravna_forma
                    &&& p.pdv_obveznik == request.pdv_obveznik
                    &&& p.distance_selling == request.distance_selling
                    &&& p.lpfr_in_premises == request.lpfr_in_premises
                    &&& p.esir_elements@.len() == request.esir_elements@.len()
                    &&& forall|i: int|
                        0 <= i < p.esir_elements@.len() ==> esir_element_normalized(
                            request.esir_elements@[i],
                            #[trigger] p.esir_elements@[i],
                        )
                }
            } else {
                r matches Err(e) && e.is_validation(
                    "esirElements"@,
                    "Naziv, verzija i IB elementa su obavezni."@,
                )
            },
        },
{
    if let Err(e) = require_admin(session) {
        return Err(e);
    }
    let given = &request.esir_elements;
    let mut elements: Vec<EsirElement> = Vec::new();
    let mut i: usize = 0;
    while i < given.len()
        invariant
            admin_refusal(*session) is None,
            given@ == request.esir_elements@,
            i <= given@.len(),
            elements@.len() == i,
            forall|j: int| 0 <= j < i ==> esir_element_complete(#[trigger] given@[j]),
            forall|j: int|
                0 <= j < i ==> esir_element_normalized(given@[j], #[trigger] elements@[j]),
        decreases given@.len() - i,
    {
        let element = &given[i];
        let naziv = normalized(element.naziv.as_str());
        let verzija = normalized(element.verzija.as_str());
        let ib = normalized(element.ib.as_str());
        if naziv.as_str().unicode_len() == 0 || verzija.as_str().unicode_len() == 0
            || ib.as_str().unicode_len() == 0 {
            assert(!esir_element_complete(given@[i as int]));
            return Err(validation("Naziv, verzija i IB elementa su obavezni.", "esirElements"));
        }
        elements.push(
            EsirElement {
                naziv,
                verzija,
                ib,
                tip: element.tip,
                checked_on: copy_option_string(&element.checked_on),
            },
        );
        i = i + 1;
    }
    Ok(
        ShopProfile {
            pravna_forma: request.pravna_forma,
            pdv_obveznik: request.pdv_obveznik,
            distance_selling: request.distance_selling,
            lpfr_in_premises: request.lpfr_in_premises,
            esir_elements: elements,
        },
    )
}

/// Saving is stable: company settings that were saved, submitted again
/// unchanged, pass validation and save to the same values.
pub proof fn lemma_saved_company_settings_resave_unchanged(
    request: CompanySettingsRequest,
    saved: CompanySettings,
    again: CompanySettingsRequest,
)
    requires
        company_request_fault(request) is None,
        saved.shop_name@ == trim(request.shop_name@),
        saved.pib@ == trim(request.pib@),
        saved.currency@ == "RSD"@,
        again.shop_name@ == saved.shop_name@,
        again.pib@ == saved.pib@,
        again.currency@ == saved.currency@,
    ensures
        company_request_fault(again) is None,
        trim(again.shop_name@) == saved.shop_name@,
        trim(again.pib@) == saved.pib@,
        upper_folded(trim(again.currency@)) == "RSD"@,
{
    crate::text::lemma_trim_idempotent(request.shop_name@);
    crate::text::lemma_trim_idempotent(request.pib@);
    reveal_strlit("RSD");
    crate::dobavljaci::lemma_trim_of_unpadded("RSD"@);
    assert(crate::text::all_ascii("RSD"@));
    assert("RSD"@.map_values(|c: char| crate::text::ascii_upper_char(c)) =~= "RSD"@);
}

/// A manually entered rate is fresh on the day it is quoted for and stale on
/// any other day; an absent rate is always stale.
pub proof fn lemma_rate_fresh_only_on_its_own_date(rate: EurRate, day: Seq<char>)
    ensures
        !rate_is_stale(Some(rate), rate.rate_date@),
        rate_is_stale(Some(rate), day) <==> day != rate.rate_date@,
        rate_is_stale(None, day),
{
}

} // verus!
