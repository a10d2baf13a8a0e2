//! Suppliers and the documents received from them (ZoT čl. 29 st. 1, PEP
//! čl. 15 st. 4).
//!
//! Recording a broj and a datum is not possession: the only thing stored about
//! the paper is the operator's own assertion that it is filed, and that
//! assertion is never presumed.
use vstd::prelude::*;
use vstd::string::*;

use crate::error::{not_found, validation, AppError};
use crate::text::{
    decimal, is_ascii_digit, lowercase_of, normalized, push_decimal, push_str, str_eq,
    string_from_chars, to_lowercase, trim, trim_end, trim_start, trim_str, view_option,
    ascii_lower_char, all_ascii, is_whitespace_char,
};

verus! {

/// The kind of a received document. The regulation's list of source documents
/// ends in an open clause, so a kind it does not name is kept under the
/// operator's own naziv instead of being refused.
#[derive(Debug, Clone, PartialEq, Eq)]
pub enum VrstaIsprave {
    Faktura,
    Otpremnica,
    FakturaOtpremnica,
    Dostavnica,
    InternaPrenosnica,
    Prijemnica,
    /// „druga odgovarajuća isprava za robu“ — the naziv is the operator's.
    Druga(String),
}

/// The six named kinds, in the order the rule lists them.
pub open spec fn named_kind_text(i: int) -> Seq<char> {
    if i == 0 {
        "faktura"@
    } else if i == 1 {
        "otpremnica"@
    } else if i == 2 {
        "faktura-otpremnica"@
    } else if i == 3 {
        "dostavnica"@
    } else if i == 4 {
        "interna prenosnica"@
    } else {
        "prijemnica"@
    }
}

/// The lower-case form `str::to_lowercase` gives: exact on ASCII text, the
/// library's own mapping otherwise.
pub open spec fn case_folded(text: Seq<char>) -> Seq<char> {
    if all_ascii(text) {
        text.map_values(|c: char| ascii_lower_char(c))
    } else {
        lowercase_of(text)
    }
}

impl VrstaIsprave {
    /// The six named kinds, in the order the rule gives them. Offered to the
    /// operator; never used to refuse a value, since the list is open-ended.
    pub const IMENOVANE: [&'static str; 6] = [
        "faktura",
        "otpremnica",
        "faktura-otpremnica",
        "dostavnica",
        "interna prenosnica",
        "prijemnica",
    ];

    /// The naziv as it goes into kolona 3 and into storage.
    pub open spec fn naziv_text(self) -> Seq<char> {
        match self {
            VrstaIsprave::Faktura => named_kind_text(0),
            VrstaIsprave::Otpremnica => named_kind_text(1),
            VrstaIsprave::FakturaOtpremnica => named_kind_text(2),
            VrstaIsprave::Dostavnica => named_kind_text(3),
            VrstaIsprave::InternaPrenosnica => named_kind_text(4),
            VrstaIsprave::Prijemnica => named_kind_text(5),
            VrstaIsprave::Druga(naziv) => naziv@,
        }
    }

    pub open spec fn is_named(self) -> bool {
        !(self is Druga)
    }

    /// What a non-blank, already trimmed `text` parses to: the named kind whose
    /// naziv equals its lower-case form, else `Druga` carrying `text` itself.
    pub open spec fn parses_from(self, text: Seq<char>) -> bool {
        let lower = case_folded(text);
        if lower == named_kind_text(0) {
            self is Faktura
        } else if lower == named_kind_text(1) {
            self is Otpremnica
        } else if lower == named_kind_text(2) {
            self is FakturaOtpremnica
        } else if lower == named_kind_text(3) {
            self is Dostavnica
        } else if lower == named_kind_text(4) {
            self is InternaPrenosnica
        } else if lower == named_kind_text(5) {
            self is Prijemnica
        } else {
            self matches VrstaIsprave::Druga(naziv) && naziv@ == text
        }
    }

    /// Parses a stored or submitted vrsta. Only a blank value is refused —
    /// kolona 3 has to name the document — and anything outside the six named
    /// kinds becomes `Druga`.
    pub fn parse(value: &str) -> (r: Result<VrstaIsprave, AppError>)
        ensures
            match r {
                Err(e) => trim(value@).len() == 0 && e.is_validation(
                    "vrstaIsprave"@,
                    "Vrsta isprave je obavezna."@,
                ),
                Ok(kind) => trim(value@).len() > 0 && kind.parses_from(trim(value@)),
            },
    {
        let trimmed = trim_str(value);
        if trimmed.unicode_len() == 0 {
            return Err(validation("Vrsta isprave je obavezna.", "vrstaIsprave"));
        }
        let lower = to_lowercase(trimmed);
        let l = lower.as_str();
        assert(l@ == case_folded(trimmed@));
        if str_eq(l, "faktura") {
            Ok(VrstaIsprave::Faktura)
        } else if str_eq(l, "otpremnica") {
            Ok(VrstaIsprave::Otpremnica)
        } else if str_eq(l, "faktura-otpremnica") {
            Ok(VrstaIsprave::FakturaOtpremnica)
        } else if str_eq(l, "dostavnica") {
            Ok(VrstaIsprave::Dostavnica)
        } else if str_eq(l, "interna prenosnica") {
            Ok(VrstaIsprave::InternaPrenosnica)
        } else if str_eq(l, "prijemnica") {
            Ok(VrstaIsprave::Prijemnica)
        } else {
            Ok(VrstaIsprave::Druga(String::from_str(trimmed)))
        }
    }

    /// The naziv as it goes into kolona 3 and into storage.
    pub fn naziv(&self) -> (r: &str)
        ensures
            r@ == self.naziv_text(),
    {
        match self {
            VrstaIsprave::Faktura => "faktura",
            VrstaIsprave::Otpremnica => "otpremnica",
            VrstaIsprave::FakturaOtpremnica => "faktura-otpremnica",
            VrstaIsprave::Dostavnica => "dostavnica",
            VrstaIsprave::InternaPrenosnica => "interna prenosnica",
            VrstaIsprave::Prijemnica => "prijemnica",
            VrstaIsprave::Druga(naziv) => naziv.as_str(),
        }
    }
}

/// A supplier master record, reused across deliveries so the identifying
/// numbers are typed once.
#[derive(Debug, Clone, PartialEq, Eq)]
pub struct Dobavljac {
    pub id: i64,
    pub poslovno_ime: String,
    pub adresa: String,
    pub pib: String,
    /// Matični broj or BPG, under one name.
    pub maticni_broj_bpg: String,
    /// A natural person goes into kolona 3 with ime i prebivalište.
    pub fizicko_lice: bool,
    pub active: bool,
}

#[derive(Debug, Clone)]
pub struct SaveDobavljacRequest {
    pub id: Option<i64>,
    pub poslovno_ime: String,
    pub adresa: String,
    pub pib: String,
    pub maticni_broj_bpg: String,
    pub fizicko_lice: bool,
}

/// The supplier columns a save writes, already normalized.
#[derive(Debug, Clone, PartialEq, Eq)]
pub struct DobavljacFields {
    pub poslovno_ime: String,
    pub adresa: String,
    pub pib: String,
    pub maticni_broj_bpg: String,
    pub fizicko_lice: bool,
}

/// What a supplier save writes: an update of row `id`, or a new row.
#[derive(Debug, Clone)]
pub struct DobavljacWrite {
    pub id: Option<i64>,
    pub fields: DobavljacFields,
}

/// A received supplier document. The supplier's identity is a snapshot taken
/// when the document was recorded, so a later edit of the supplier cannot
/// rewrite what an issued document says.
#[derive(Debug, Clone, PartialEq, Eq)]
pub struct PrimljenaIsprava {
    pub id: i64,
    pub dobavljac_id: i64,
    pub dobavljac_poslovno_ime: String,
    pub dobavljac_adresa: String,
    pub dobavljac_pib: String,
    pub dobavljac_maticni_broj_bpg: String,
    pub dobavljac_fizicko_lice: bool,
    pub vrsta: String,
    pub broj: String,
    /// The document's own date, `YYYY-MM-DD`.
    pub datum: String,
    /// The operator's assertion that the paper is held — not proof of it.
    pub poseduje_ispravu: bool,
    pub poseduje_potvrdio: Option<i64>,
    pub poseduje_potvrdjeno_at: Option<String>,
    pub napomena: Option<String>,
    pub created_at: String,
}

pub open spec fn kolona3_text(ime: Seq<char>, adresa: Seq<char>, fizicko_lice: bool) -> Seq<char> {
    if fizicko_lice && trim(adresa).len() > 0 {
        trim(ime) + ", "@ + trim(adresa)
    } else {
        trim(ime)
    }
}

impl PrimljenaIsprava {
    /// The supplier as kolona 3 names them: poslovno ime for a legal person,
    /// „ime, prebivalište“ for a natural person whose address is known.
    pub fn kolona3_dobavljac(&self) -> (r: String)
        ensures
            r@ == kolona3_text(
                self.dobavljac_poslovno_ime@,
                self.dobavljac_adresa@,
                self.dobavljac_fizicko_lice,
            ),
    {
        let adresa = trim_str(self.dobavljac_adresa.as_str());
        let ime = trim_str(self.dobavljac_poslovno_ime.as_str());
        if self.dobavljac_fizicko_lice && adresa.unicode_len() > 0 {
            let mut out = String::from_str(ime);
            out.append(", ");
            out.append(adresa);
            out
        } else {
            String::from_str(ime)
        }
    }
}

#[derive(Debug, Clone)]
pub struct CreateIspravaRequest {
    pub dobavljac_id: i64,
    pub vrsta: String,
    pub broj: String,
    pub datum: String,
    /// Whether the operator asserts, when recording it, that the paper is held.
    pub poseduje_ispravu: bool,
    pub napomena: Option<String>,
}

/// `YYYY-MM-DD` by shape: ten characters, `-` at the fifth and eighth, ASCII
/// digits elsewhere.
pub open spec fn iso_date_shaped(t: Seq<char>) -> bool {
    &&& t.len() == 10
    &&& forall|i: int|
        0 <= i < 10 ==> if i == 4 || i == 7 {
            #[trigger] t[i] == '-'
        } else {
            is_ascii_digit(t[i])
        }
}

/// Whether `t` has the `YYYY-MM-DD` shape.
pub fn is_iso_date_shaped(t: &str) -> (r: bool)
    ensures
        r == iso_date_shaped(t@),
{
    if t.unicode_len() != 10 {
        return false;
    }
    let mut i: usize = 0;
    while i < 10
        invariant
            t@.len() == 10,
            i <= 10,
            forall|j: int|
                0 <= j < i ==> if j == 4 || j == 7 {
                    #[trigger] t@[j] == '-'
                } else {
                    is_ascii_digit(t@[j])
                },
        decreases 10 - i,
    {
        let c = t.get_char(i);
        if i == 4 || i == 7 {
            if c != '-' {
                return false;
            }
        } else if !('0' <= c && c <= '9') {
            return false;
        }
        i = i + 1;
    }
    true
}

/// A document date has the `YYYY-MM-DD` shape exactly when it is ten
/// characters long, has '-' at places 4 and 7, and an ASCII digit at every
/// other place: „2026/07/03“ or „2026-7-03“ is refused.
pub proof fn lemma_date_shape(t: Seq<char>)
    ensures
        iso_date_shaped(t) <==> {
            &&& t.len() == 10
            &&& t[4] == '-'
            &&& t[7] == '-'
            &&& forall|i: int|
                0 <= i < 10 && i != 4 && i != 7 ==> '0' <= #[trigger] t[i] && t[i] <= '9'
        },
{
    if t.len() == 10 && t[4] == '-' && t[7] == '-' && forall|i: int|
        0 <= i < 10 && i != 4 && i != 7 ==> '0' <= #[trigger] t[i] && t[i] <= '9' {
        assert forall|i: int| 0 <= i < 10 implies if i == 4 || i == 7 {
            #[trigger] t[i] == '-'
        } else {
            is_ascii_digit(t[i])
        } by {}
    }
    if iso_date_shaped(t) {
        assert(t[4] == '-');
        assert(t[7] == '-');
    }
}

pub open spec fn datum_fault_text() -> Seq<char> {
    "Datum isprave nije ispravan (očekuje se GGGG-MM-DD)."@
}

/// The document date, trimmed, refused rather than coerced when it is not
/// `YYYY-MM-DD`: a date silently replaced by today would put the booking date
/// into kolona 3.
pub fn validate_datum(value: &str) -> (r: Result<String, AppError>)
    ensures
        match r {
            Ok(datum) => iso_date_shaped(trim(value@)) && datum@ == trim(value@),
            Err(e) => !iso_date_shaped(trim(value@)) && e.is_validation("datum"@, datum_fault_text()),
        },
{
    let trimmed = trim_str(value);
    if !is_iso_date_shaped(trimmed) {
        return Err(validation("Datum isprave nije ispravan (očekuje se GGGG-MM-DD).", "datum"));
    }
    Ok(String::from_str(trimmed))
}

/// Normalizes a supplier save. A blank poslovno ime is refused; every other
/// field is stored trimmed.
pub fn save_dobavljac(request: SaveDobavljacRequest) -> (r: Result<DobavljacWrite, AppError>)
    ensures
        match r {
            Err(e) => trim(request.poslovno_ime@).len() == 0 && e.is_validation(
                "poslovnoIme"@,
                "Poslovno ime dobavljača je obavezno."@,
            ),
            Ok(w) => {
                &&& trim(request.poslovno_ime@).len() > 0
                &&& w.id == request.id
                &&& w.fields.poslovno_ime@ == trim(request.poslovno_ime@)
                &&& w.fields.adresa@ == trim(request.adresa@)
                &&& w.fields.pib@ == trim(request.pib@)
                &&& w.fields.maticni_broj_bpg@ == trim(request.maticni_broj_bpg@)
                &&& w.fields.fizicko_lice == request.fizicko_lice
            },
        },
{
    let poslovno_ime = normalized(request.poslovno_ime.as_str());
    if poslovno_ime.as_str().unicode_len() == 0 {
        return Err(validation("Poslovno ime dobavljača je obavezno.", "poslovnoIme"));
    }
    Ok(DobavljacWrite {
        id: request.id,
        fields: DobavljacFields {
            poslovno_ime,
            adresa: normalized(request.adresa.as_str()),
            pib: normalized(request.pib.as_str()),
            maticni_broj_bpg: normalized(request.maticni_broj_bpg.as_str()),
            fizicko_lice: request.fizicko_lice,
        },
    })
}

pub open spec fn dobavljac_missing_text(id: i64) -> Seq<char> {
    "Dobavljač "@ + decimal(id as int) + " ne postoji."@
}

/// The refusal for a supplier id that names no row.
pub fn dobavljac_not_found(id: i64) -> (e: AppError)
    ensures
        e.is_not_found(),
        e.message_text() == dobavljac_missing_text(id),
{
    let mut text: Vec<char> = Vec::new();
    push_str(&mut text, "Dobavljač ");
    push_decimal(&mut text, id);
    push_str(&mut text, " ne postoji.");
    not_found(string_from_chars(&text).as_str())
}

pub open spec fn isprava_missing_text(id: i64) -> Seq<char> {
    "Isprava "@ + decimal(id as int) + " ne postoji."@
}

/// The refusal for an isprava id that names no row.
pub fn isprava_not_found(id: i64) -> (e: AppError)
    ensures
        e.is_not_found(),
        e.message_text() == isprava_missing_text(id),
{
    let mut text: Vec<char> = Vec::new();
    push_str(&mut text, "Isprava ");
    push_decimal(&mut text, id);
    push_str(&mut text, " ne postoji.");
    not_found(string_from_chars(&text).as_str())
}

/// The six named kinds and their nazivi — faktura, otpremnica,
/// faktura-otpremnica, dostavnica, interna prenosnica, prijemnica — and a
/// vrsta whose lower-case form is one of them parses to that kind.
pub proof fn lemma_named_kinds_are_the_six(k: VrstaIsprave, text: Seq<char>)
    ensures
        k is Faktura ==> k.naziv_text() == "faktura"@,
        k is Otpremnica ==> k.naziv_text() == "otpremnica"@,
        k is FakturaOtpremnica ==> k.naziv_text() == "faktura-otpremnica"@,
        k is Dostavnica ==> k.naziv_text() == "dostavnica"@,
        k is InternaPrenosnica ==> k.naziv_text() == "interna prenosnica"@,
        k is Prijemnica ==> k.naziv_text() == "prijemnica"@,
        case_folded(text) == "faktura"@ ==> (k.parses_from(text) <==> k is Faktura),
        case_folded(text) == "otpremnica"@ ==> (k.parses_from(text) <==> k is Otpremnica),
        case_folded(text) == "faktura-otpremnica"@ ==> (k.parses_from(text) <==> k is FakturaOtpremnica),
        case_folded(text) == "dostavnica"@ ==> (k.parses_from(text) <==> k is Dostavnica),
        case_folded(text) == "interna prenosnica"@ ==> (k.parses_from(text) <==> k is InternaPrenosnica),
        case_folded(text) == "prijemnica"@ ==> (k.parses_from(text) <==> k is Prijemnica),
{
    reveal_strlit("faktura");
    reveal_strlit("otpremnica");
    reveal_strlit("faktura-otpremnica");
    reveal_strlit("dostavnica");
    reveal_strlit("interna prenosnica");
    reveal_strlit("prijemnica");
    assert("faktura"@.len() == 7 && "otpremnica"@.len() == 10 && "faktura-otpremnica"@.len() == 18
        && "dostavnica"@.len() == 10 && "interna prenosnica"@.len() == 18 && "prijemnica"@.len()
        == 10);
    assert("otpremnica"@ != "dostavnica"@ && "otpremnica"@ != "prijemnica"@ && "dostavnica"@
        != "prijemnica"@) by {
        assert("otpremnica"@[0] != "dostavnica"@[0]);
        assert("otpremnica"@[0] != "prijemnica"@[0]);
        assert("dostavnica"@[0] != "prijemnica"@[0]);
    }
    assert("faktura-otpremnica"@ != "interna prenosnica"@) by {
        assert("faktura-otpremnica"@[0] != "interna prenosnica"@[0]);
    }
}

/// Kolona 3 names a legal person by the poslovno ime and a natural person
/// with a known address as „ime, adresa“, both trimmed.
pub proof fn lemma_kolona3_names_the_supplier(ime: Seq<char>, adresa: Seq<char>, fizicko_lice: bool)
    ensures
        fizicko_lice && trim(adresa).len() > 0 ==> kolona3_text(ime, adresa, fizicko_lice) == trim(ime)
            + ", "@ + trim(adresa),
        !(fizicko_lice && trim(adresa).len() > 0) ==> kolona3_text(ime, adresa, fizicko_lice)
            == trim(ime),
{
}

/// The naziv a non-blank trimmed vrsta is stored under.
pub open spec fn stored_naziv(text: Seq<char>) -> Seq<char> {
    let lower = case_folded(text);
    if lower == named_kind_text(0) || lower == named_kind_text(1) || lower == named_kind_text(2)
        || lower == named_kind_text(3) || lower == named_kind_text(4) || lower
        == named_kind_text(5) {
        lower
    } else {
        text
    }
}

/// The possession assertion of one isprava: whether it is made, by whom and
/// when.
#[derive(Debug, Clone, PartialEq, Eq)]
pub struct Possession {
    pub poseduje_ispravu: bool,
    pub poseduje_potvrdio: Option<i64>,
    pub poseduje_potvrdjeno_at: Option<String>,
}

impl Possession {
    /// „Nobody said so“ and „somebody said so“ stay distinguishable: who and
    /// when are recorded exactly when the assertion is made.
    pub open spec fn well_formed(self) -> bool {
        &&& self.poseduje_ispravu == self.poseduje_potvrdio is Some
        &&& self.poseduje_ispravu == self.poseduje_potvrdjeno_at is Some
    }

    pub open spec fn asserted_by(self, user: i64, at: Seq<char>) -> bool {
        &&& self.poseduje_ispravu
        &&& self.poseduje_potvrdio == Some(user)
        &&& self.poseduje_potvrdjeno_at matches Some(t) && t@ == at
    }

    /// `next` is what confirming `self` as `user` at `at` leaves: an assertion
    /// already made stands unchanged, otherwise it is made now.
    pub open spec fn confirmed_as(self, next: Possession, user: i64, at: Seq<char>) -> bool {
        if self.poseduje_ispravu {
            next == self
        } else {
            next.asserted_by(user, at)
        }
    }

    pub open spec fn unasserted(self) -> bool {
        &&& !self.poseduje_ispravu
        &&& self.poseduje_potvrdio is None
        &&& self.poseduje_potvrdjeno_at is None
    }
}

/// The possession state an isprava is created with: asserted by `acting_user_id`
/// at `now` when the operator asserts it, and unasserted otherwise.
pub fn initial_possession(asserted: bool, acting_user_id: i64, now: &str) -> (p: Possession)
    ensures
        p.well_formed(),
        asserted ==> p.asserted_by(acting_user_id, now@),
        !asserted ==> p.unasserted(),
{
    if asserted {
        Possession {
            poseduje_ispravu: true,
            poseduje_potvrdio: Some(acting_user_id),
            poseduje_potvrdjeno_at: Some(String::from_str(now)),
        }
    } else {
        Possession {
            poseduje_ispravu: false,
            poseduje_potvrdio: None,
            poseduje_potvrdjeno_at: None,
        }
    }
}

/// Records the operator's assertion that the document is held. One-way: an
/// assertion already made stands as it was made, and there is no verb for
/// withdrawing it. An id with no row is `not_found`.
pub fn confirm_possession(
    isprava_id: i64,
    current: Option<Possession>,
    acting_user_id: i64,
    now: &str,
) -> (r: Result<Possession, AppError>)
    ensures
        match current {
            None => r matches Err(e) && e.is_not_found() && e.message_text()
                == isprava_missing_text(isprava_id),
            Some(p) => r matches Ok(q) && p.confirmed_as(q, acting_user_id, now@),
        },
{
    match current {
        None => Err(isprava_not_found(isprava_id)),
        Some(p) => {
            if p.poseduje_ispravu {
                Ok(p)
            } else {
                Ok(initial_possession(true, acting_user_id, now))
            }
        },
    }
}

/// The row a new isprava is inserted as.
#[derive(Debug, Clone)]
pub struct NewIsprava {
    pub dobavljac_id: i64,
    /// The supplier's identity as it stands when the document is recorded.
    pub dobavljac: DobavljacFields,
    pub vrsta: String,
    pub broj: String,
    pub datum: String,
    pub possession: Possession,
    pub napomena: Option<String>,
    pub created_by: i64,
    pub created_at: String,
}

pub open spec fn trimmed_option(value: Option<Seq<char>>) -> Option<Seq<char>> {
    match value {
        Some(text) => Some(trim(text)),
        None => None,
    }
}

/// Decides a new isprava: the vrsta must name something, the broj must not be
/// blank, the datum must be `YYYY-MM-DD`, and the supplier must exist; then the
/// row carries a snapshot of `dobavljac` and the possession the operator asserts.
pub fn create_isprava(
    request: CreateIspravaRequest,
    dobavljac: Option<DobavljacFields>,
    acting_user_id: i64,
    now: &str,
) -> (r: Result<NewIsprava, AppError>)
    ensures
        ({
            let vrsta = trim(request.vrsta@);
            let broj = trim(request.broj@);
            let datum = trim(request.datum@);
            if vrsta.len() == 0 {
                r matches Err(e) && e.is_validation("vrstaIsprave"@, "Vrsta isprave je obavezna."@)
            } else if broj.len() == 0 {
                r matches Err(e) && e.is_validation("broj"@, "Broj isprave je obavezan."@)
            } else if !iso_date_shaped(datum) {
                r matches Err(e) && e.is_validation("datum"@, datum_fault_text())
            } else if dobavljac is None {
                r matches Err(e) && e.is_not_found() && e.message_text() == dobavljac_missing_text(
                    request.dobavljac_id,
                )
            } else {
                r matches Ok(row) && {
                    &&& row.dobavljac_id == request.dobavljac_id
                    &&& row.dobavljac == dobavljac->0
                    &&& row.vrsta@ == stored_naziv(vrsta)
                    &&& row.broj@ == broj
                    &&& row.datum@ == datum
                    &&& row.possession.well_formed()
                    &&& request.poseduje_ispravu ==> row.possession.asserted_by(
                        acting_user_id,
                        now@,
                    )
                    &&& !request.poseduje_ispravu ==> row.possession.unasserted()
                    &&& view_option(row.napomena) == trimmed_option(view_option(request.napomena))
                    &&& row.created_by == acting_user_id
                    &&& row.created_at@ == now@
                }
            }
        }),
{
    let vrsta = match VrstaIsprave::parse(request.vrsta.as_str()) {
        Ok(kind) => kind,
        Err(e) => return Err(e),
    };
    proof {
        lemma_parsed_naziv_is_stored_naziv(trim(request.vrsta@), vrsta);
    }
    let broj = normalized(request.broj.as_str());
    if broj.as_str().unicode_len() == 0 {
        return Err(validation("Broj isprave je obavezan.", "broj"));
    }
    let datum = match validate_datum(request.datum.as_str()) {
        Ok(d) => d,
        Err(e) => return Err(e),
    };
    let snapshot = match dobavljac {
        Some(d) => d,
        None => return Err(dobavljac_not_found(request.dobavljac_id)),
    };
    let napomena = match &request.napomena {
        Some(text) => Some(normalized(text.as_str())),
        None => None,
    };
    Ok(NewIsprava {
        dobavljac_id: request.dobavljac_id,
        dobavljac: snapshot,
        vrsta: String::from_str(vrsta.naziv()),
        broj,
        datum,
        possession: initial_possession(request.poseduje_ispravu, acting_user_id, now),
        napomena,
        created_by: acting_user_id,
        created_at: String::from_str(now),
    })
}

/// A parsed kind is stored under [`stored_naziv`] of the text it came from.
pub proof fn lemma_parsed_naziv_is_stored_naziv(text: Seq<char>, kind: VrstaIsprave)
    requires
        kind.parses_from(text),
    ensures
        kind.naziv_text() == stored_naziv(text),
{
}

/// Possession is one-way: confirming keeps the state well formed and
/// asserted, a second confirmation — by anyone, at any time — changes nothing,
/// and an assertion already made keeps who made it and when.
pub proof fn lemma_possession_is_one_way(
    p: Possession,
    first: Possession,
    second: Possession,
    user1: i64,
    at1: Seq<char>,
    user2: i64,
    at2: Seq<char>,
)
    requires
        p.well_formed(),
        p.confirmed_as(first, user1, at1),
        first.confirmed_as(second, user2, at2),
    ensures
        first.well_formed(),
        first.poseduje_ispravu,
        second == first,
        p.poseduje_ispravu ==> first == p,
{
}

/// A named kind survives a round trip: its naziv parses back to that kind, and
/// the kind's naziv is the text it was parsed from.
pub proof fn lemma_named_kinds_round_trip(i: int, kind: VrstaIsprave)
    requires
        0 <= i < 6,
        kind.parses_from(trim(named_kind_text(i))),
    ensures
        trim(named_kind_text(i)) == named_kind_text(i),
        kind.is_named(),
        kind.naziv_text() == named_kind_text(i),
{
    reveal_strlit("faktura");
    reveal_strlit("otpremnica");
    reveal_strlit("faktura-otpremnica");
    reveal_strlit("dostavnica");
    reveal_strlit("interna prenosnica");
    reveal_strlit("prijemnica");
    let t = named_kind_text(i);
    lemma_trim_of_unpadded(t);
    assert(all_ascii(t));
    assert(t.map_values(|c: char| ascii_lower_char(c)) =~= t);
    if i == 0 {
    } else if i == 1 {
        assert(t != named_kind_text(0));
    } else if i == 2 {
        assert(t != named_kind_text(0));
        assert(t != named_kind_text(1));
    } else if i == 3 {
        assert(t != named_kind_text(0));
        assert(t != named_kind_text(1));
        assert(t != named_kind_text(2));
    } else if i == 4 {
        assert(t != named_kind_text(0));
        assert(t != named_kind_text(1));
        assert(t != named_kind_text(2));
        assert(t != named_kind_text(3));
    } else {
        assert(t != named_kind_text(0));
        assert(t != named_kind_text(1));
        assert(t != named_kind_text(2));
        assert(t != named_kind_text(3));
        assert(t != named_kind_text(4));
    }
}

/// Text with no whitespace at either end trims to itself.
pub proof fn lemma_trim_of_unpadded(t: Seq<char>)
    requires
        t.len() > 0,
        !is_whitespace_char(t[0]),
        !is_whitespace_char(t.last()),
    ensures
        trim(t) == t,
{
    assert(trim_start(t) == t);
    assert(trim_end(t) == t);
}

/// Whatever a vrsta parses to names the document: an unnamed kind keeps the
/// operator's trimmed text, a named kind is that text case-folded.
pub proof fn lemma_parsed_kind_names_the_document(text: Seq<char>, kind: VrstaIsprave)
    requires
        text.len() > 0,
        kind.parses_from(text),
    ensures
        kind.naziv_text().len() > 0,
        kind is Druga ==> kind.naziv_text() == text,
        kind.is_named() ==> kind.naziv_text() == case_folded(text),
{
    reveal_strlit("faktura");
    reveal_strlit("otpremnica");
    reveal_strlit("faktura-otpremnica");
    reveal_strlit("dostavnica");
    reveal_strlit("interna prenosnica");
    reveal_strlit("prijemnica");
}

} // verus!
