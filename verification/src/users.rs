//! User accounts and the employee profile the working-time guards read
//! (ZoR čl. 87–91 inputs and the two ZEOR čl. 44 st. 2 codes).
use vstd::prelude::*;
use vstd::string::*;

use crate::calendar::{iso_date_of, parse_iso_date};
use crate::error::{not_found, validation, AppError};
use crate::text::{str_eq, trim, trimmed_or_none, trimmed_or_none_string, view_option, normalized};

verus! {

/// ZoR čl. 51 st. 1: full time is 40 hours a week.
pub const PUNO_RADNO_VREME_MINUTA_NEDELJNO: i64 = 2400;

/// A šifra from the Jedinstveni kodeks šifara is a short token, not prose.
pub const MAX_SIFRA_DUZINA: usize = 16;

pub const DATUM_RODJENJA_PORUKA: &'static str = "Datum rođenja nije ispravan datum (GGGG-MM-DD). Na osnovu njega se primenjuju ZoR čl. 87 i čl. 88 st. 1.";
pub const DATUM_DETETA_PORUKA: &'static str = "Datum rođenja najmlađeg deteta nije ispravan datum (GGGG-MM-DD). Na osnovu njega se primenjuje ZoR čl. 91.";
pub const DATUM_NALAZA_PORUKA: &'static str = "Datum nalaza nadležnog zdravstvenog organa nije ispravan datum (GGGG-MM-DD) (ZoR čl. 90).";
pub const DATUM_SAGLASNOSTI_PORUKA: &'static str = "Datum pisane saglasnosti nije ispravan datum (GGGG-MM-DD). Saglasnost se evidentira po ZoR čl. 91.";
pub const NALAZ_BEZ_DATUMA_PORUKA: &'static str = "Uz evidentiranu trudnoću ili dojenje upišite datum od kog važi nalaz nadležnog zdravstvenog organa (ZoR čl. 90). Sam nalaz se ne unosi niti prilaže.";
pub const DATUM_BEZ_NALAZA_PORUKA: &'static str = "Datum se evidentira samo uz evidentiranu trudnoću ili dojenje (ZoR čl. 90).";
pub const NEPOZITIVNO_VREME_PORUKA: &'static str = "Ugovoreno radno vreme mora biti veće od nule.";
pub const PREKO_PUNOG_VREMENA_PORUKA: &'static str = "Ugovoreno radno vreme ne može biti duže od punog radnog vremena od 40 časova nedeljno (ZoR čl. 51 st. 1). Časovi preko toga su prekovremeni rad i unose se po danu.";
pub const ZANIMANJE_PORUKA: &'static str = "Zanimanje se upisuje kao šifra iz Jedinstvenog kodeksa šifara, ne kao opis (ZEOR čl. 44 st. 2).";
pub const KVALIFIKACIJA_PORUKA: &'static str = "Nivo i vrsta kvalifikacije upisuju se kao šifra iz Jedinstvenog kodeksa šifara, ne kao opis (ZEOR čl. 44 st. 2).";

#[derive(Debug, Clone)]
pub struct SaveUserRequest {
    pub username: String,
    pub display_name: String,
    pub role: String,
    pub active: bool,
    pub pin: Option<String>,
    pub password: Option<String>,
    /// Absent means this save does not carry the profile, and the stored one
    /// is left as it is.
    pub profile: Option<EmployeeProfile>,
}

/// The ZoR čl. 87–91 protection inputs plus the two ZEOR čl. 44 st. 2 codes.
/// It holds no free text: the čl. 90 condition is a flag and the date from
/// which the finding holds, nothing else.
#[derive(Debug, Clone, PartialEq, Eq)]
pub struct EmployeeProfile {
    pub datum_rodjenja: Option<String>,
    pub datum_rodjenja_najmladjeg_deteta: Option<String>,
    pub samohrani_roditelj: Option<bool>,
    pub dete_tezak_invalid: Option<bool>,
    pub trudnoca_ili_dojenje: Option<bool>,
    pub trudnoca_ili_dojenje_od: Option<String>,
    pub radi_u_preraspodeli: bool,
    pub ugovoreno_radno_vreme_minuta_nedeljno: Option<i64>,
    pub zanimanje_sifra: Option<String>,
    pub kvalifikacija_sifra: Option<String>,
    pub saglasnost_prekovremeni_od: Option<String>,
}

impl EmployeeProfile {
    /// Nothing recorded: every input absent and no preraspodela.
    pub open spec fn is_empty(self) -> bool {
        &&& self.datum_rodjenja is None
        &&& self.datum_rodjenja_najmladjeg_deteta is None
        &&& self.samohrani_roditelj is None
        &&& self.dete_tezak_invalid is None
        &&& self.trudnoca_ili_dojenje is None
        &&& self.trudnoca_ili_dojenje_od is None
        &&& !self.radi_u_preraspodeli
        &&& self.ugovoreno_radno_vreme_minuta_nedeljno is None
        &&& self.zanimanje_sifra is None
        &&& self.kvalifikacija_sifra is None
        &&& self.saglasnost_prekovremeni_od is None
    }
}

impl Default for EmployeeProfile {
    fn default() -> (r: Self)
        ensures
            r.is_empty(),
    {
        EmployeeProfile {
            datum_rodjenja: None,
            datum_rodjenja_najmladjeg_deteta: None,
            samohrani_roditelj: None,
            dete_tezak_invalid: None,
            trudnoca_ili_dojenje: None,
            trudnoca_ili_dojenje_od: None,
            radi_u_preraspodeli: false,
            ugovoreno_radno_vreme_minuta_nedeljno: None,
            zanimanje_sifra: None,
            kvalifikacija_sifra: None,
            saglasnost_prekovremeni_od: None,
        }
    }
}

/// A secret (PIN, password) or optional text as stored: trimmed, blank as none.
pub fn normalized_secret(value: Option<String>) -> (r: Option<String>)
    ensures
        view_option(r) == trimmed_or_none(view_option(value)),
{
    trimmed_or_none_string(value)
}

/// An optional date field is acceptable when blank or a real `YYYY-MM-DD` day.
pub open spec fn date_field_ok(value: Option<Seq<char>>) -> bool {
    match trimmed_or_none(value) {
        None => true,
        Some(t) => iso_date_of(t) is Some,
    }
}

/// Reads an optional date field: blank is none, anything else must be a
/// real calendar day (a `2009-13-45` is refused here, not discovered later by
/// the guard that reads it).
pub fn normalized_date(value: Option<String>, field: &str, message: &str) -> (r: Result<
    Option<String>,
    AppError,
>)
    ensures
        date_field_ok(view_option(value)) ==> (r matches Ok(d) && view_option(d)
            == trimmed_or_none(view_option(value))),
        !date_field_ok(view_option(value)) ==> (r matches Err(e) && e.is_validation_of(field@)
            && e.message_text() == message@),
{
    let datum = match normalized_secret(value) {
        None => return Ok(None),
        Some(d) => d,
    };
    if parse_iso_date(datum.as_str()).is_none() {
        return Err(validation(message, field));
    }
    Ok(Some(datum))
}

pub open spec fn is_sifra_char(c: char) -> bool {
    ||| ('0' <= c && c <= '9')
    ||| ('a' <= c && c <= 'z')
    ||| ('A' <= c && c <= 'Z')
    ||| c == '.'
    ||| c == '-'
    ||| c == '/'
}

/// A šifra: at most sixteen characters, each ASCII alphanumeric or `.`, `-`,
/// `/`. Membership in the kodeks itself cannot be checked — what is refused
/// is prose.
pub open spec fn is_sifra(t: Seq<char>) -> bool {
    &&& t.len() <= 16
    &&& forall|i: int| 0 <= i < t.len() ==> is_sifra_char(#[trigger] t[i])
}

pub open spec fn sifra_field_ok(value: Option<Seq<char>>) -> bool {
    match trimmed_or_none(value) {
        None => true,
        Some(t) => is_sifra(t),
    }
}

fn is_sifra_text(t: &str) -> (r: bool)
    ensures
        r == is_sifra(t@),
{
    let n = t.unicode_len();
    if n > MAX_SIFRA_DUZINA {
        return false;
    }
    let mut i: usize = 0;
    while i < n
        invariant
            n == t@.len(),
            i <= n,
            forall|j: int| 0 <= j < i ==> is_sifra_char(#[trigger] t@[j]),
        decreases n - i,
    {
        let c = t.get_char(i);
        if !(('0' <= c && c <= '9') || ('a' <= c && c <= 'z') || ('A' <= c && c <= 'Z') || c
            == '.' || c == '-' || c == '/') {
            return false;
        }
        i = i + 1;
    }
    true
}

/// Reads an optional šifra field: blank is none, anything else must be a
/// [`is_sifra`] token.
pub fn normalized_sifra(value: Option<String>, field: &str, message: &str) -> (r: Result<
    Option<String>,
    AppError,
>)
    ensures
        sifra_field_ok(view_option(value)) ==> (r matches Ok(d) && view_option(d)
            == trimmed_or_none(view_option(value))),
        !sifra_field_ok(view_option(value)) ==> (r matches Err(e) && e.is_validation_of(field@)
            && e.message_text() == message@),
{
    let sifra = match normalized_secret(value) {
        None => return Ok(None),
        Some(s) => s,
    };
    if !is_sifra_text(sifra.as_str()) {
        return Err(validation(message, field));
    }
    Ok(Some(sifra))
}

/// The first field of a profile that is refused, if any, in the order the
/// checks run.
pub open spec fn profile_fault(p: EmployeeProfile) -> Option<(Seq<char>, Seq<char>)> {
    let od = trimmed_or_none(view_option(p.trudnoca_ili_dojenje_od));
    if !date_field_ok(view_option(p.datum_rodjenja)) {
        Some(("datumRodjenja"@, DATUM_RODJENJA_PORUKA@))
    } else if !date_field_ok(view_option(p.datum_rodjenja_najmladjeg_deteta)) {
        Some(("datumRodjenjaNajmladjegDeteta"@, DATUM_DETETA_PORUKA@))
    } else if !date_field_ok(view_option(p.trudnoca_ili_dojenje_od)) {
        Some(("trudnocaIliDojenjeOd"@, DATUM_NALAZA_PORUKA@))
    } else if !date_field_ok(view_option(p.saglasnost_prekovremeni_od)) {
        Some(("saglasnostPrekovremeniOd"@, DATUM_SAGLASNOSTI_PORUKA@))
    } else if p.trudnoca_ili_dojenje == Some(true) && od is None {
        Some(("trudnocaIliDojenjeOd"@, NALAZ_BEZ_DATUMA_PORUKA@))
    } else if od is Some && p.trudnoca_ili_dojenje != Some(true) {
        Some(("trudnocaIliDojenje"@, DATUM_BEZ_NALAZA_PORUKA@))
    } else if (p.ugovoreno_radno_vreme_minuta_nedeljno matches Some(m) && m <= 0) {
        Some(("ugovorenoRadnoVremeMinutaNedeljno"@, NEPOZITIVNO_VREME_PORUKA@))
    } else if (p.ugovoreno_radno_vreme_minuta_nedeljno matches Some(m) && m > 2400) {
        Some(("ugovorenoRadnoVremeMinutaNedeljno"@, PREKO_PUNOG_VREMENA_PORUKA@))
    } else if !sifra_field_ok(view_option(p.zanimanje_sifra)) {
        Some(("zanimanjeSifra"@, ZANIMANJE_PORUKA@))
    } else if !sifra_field_ok(view_option(p.kvalifikacija_sifra)) {
        Some(("kvalifikacijaSifra"@, KVALIFIKACIJA_PORUKA@))
    } else {
        None
    }
}

/// `n` is `p` as stored: every date and šifra trimmed (blank as none), the
/// flags and figures unchanged.
pub open spec fn profile_normalized(p: EmployeeProfile, n: EmployeeProfile) -> bool {
    &&& view_option(n.datum_rodjenja) == trimmed_or_none(view_option(p.datum_rodjenja))
    &&& view_option(n.datum_rodjenja_najmladjeg_deteta) == trimmed_or_none(
        view_option(p.datum_rodjenja_najmladjeg_deteta),
    )
    &&& n.samohrani_roditelj == p.samohrani_roditelj
    &&& n.dete_tezak_invalid == p.dete_tezak_invalid
    &&& n.trudnoca_ili_dojenje == p.trudnoca_ili_dojenje
    &&& view_option(n.trudnoca_ili_dojenje_od) == trimmed_or_none(
        view_option(p.trudnoca_ili_dojenje_od),
    )
    &&& n.radi_u_preraspodeli == p.radi_u_preraspodeli
    &&& n.ugovoreno_radno_vreme_minuta_nedeljno == p.ugovoreno_radno_vreme_minuta_nedeljno
    &&& view_option(n.zanimanje_sifra) == trimmed_or_none(view_option(p.zanimanje_sifra))
    &&& view_option(n.kvalifikacija_sifra) == trimmed_or_none(view_option(p.kvalifikacija_sifra))
    &&& view_option(n.saglasnost_prekovremeni_od) == trimmed_or_none(
        view_option(p.saglasnost_prekovremeni_od),
    )
}

/// Validates the čl. 87–91 inputs before they reach storage: real dates, the
/// čl. 90 flag and its date together or not at all, a contracted week within
/// full time, and codes rather than descriptions.
pub fn normalize_profile(profile: EmployeeProfile) -> (r: Result<EmployeeProfile, AppError>)
    ensures
        match profile_fault(profile) {
            Some(f) => r matches Err(e) && e.is_validation(f.0, f.1),
            None => r matches Ok(n) && profile_normalized(profile, n),
        },
{
    let datum_rodjenja = match normalized_date(
        profile.datum_rodjenja,
        "datumRodjenja",
        DATUM_RODJENJA_PORUKA,
    ) {
        Ok(d) => d,
        Err(e) => return Err(e),
    };
    let datum_rodjenja_najmladjeg_deteta = match normalized_date(
        profile.datum_rodjenja_najmladjeg_deteta,
        "datumRodjenjaNajmladjegDeteta",
        DATUM_DETETA_PORUKA,
    ) {
        Ok(d) => d,
        Err(e) => return Err(e),
    };
    let trudnoca_ili_dojenje_od = match normalized_date(
        profile.trudnoca_ili_dojenje_od,
        "trudnocaIliDojenjeOd",
        DATUM_NALAZA_PORUKA,
    ) {
        Ok(d) => d,
        Err(e) => return Err(e),
    };
    let saglasnost_prekovremeni_od = match normalized_date(
        profile.saglasnost_prekovremeni_od,
        "saglasnostPrekovremeniOd",
        DATUM_SAGLASNOSTI_PORUKA,
    ) {
        Ok(d) => d,
        Err(e) => return Err(e),
    };
    let flag = profile.trudnoca_ili_dojenje;
    let flagged = match flag {
        Some(b) => b,
        None => false,
    };
    if flagged && trudnoca_ili_dojenje_od.is_none() {
        return Err(
            validation(
                NALAZ_BEZ_DATUMA_PORUKA,
                "trudnocaIliDojenjeOd",
            ),
        );
    }
    if trudnoca_ili_dojenje_od.is_some() && !flagged {
        return Err(
            validation(
                DATUM_BEZ_NALAZA_PORUKA,
                "trudnocaIliDojenje",
            ),
        );
    }
    if let Some(minuta) = profile.ugovoreno_radno_vreme_minuta_nedeljno {
        if minuta <= 0 {
            return Err(
                validation(
                    NEPOZITIVNO_VREME_PORUKA,
                    "ugovorenoRadnoVremeMinutaNedeljno",
                ),
            );
        }
        if minuta > PUNO_RADNO_VREME_MINUTA_NEDELJNO {
            return Err(
                validation(
                    PREKO_PUNOG_VREMENA_PORUKA,
                    "ugovorenoRadnoVremeMinutaNedeljno",
                ),
            );
        }
    }
    let zanimanje_sifra = match normalized_sifra(
        profile.zanimanje_sifra,
        "zanimanjeSifra",
        ZANIMANJE_PORUKA,
    ) {
        Ok(s) => s,
        Err(e) => return Err(e),
    };
    let kvalifikacija_sifra = match normalized_sifra(
        profile.kvalifikacija_sifra,
        "kvalifikacijaSifra",
        KVALIFIKACIJA_PORUKA,
    ) {
        Ok(s) => s,
        Err(e) => return Err(e),
    };
    Ok(
        EmployeeProfile {
            datum_rodjenja,
            datum_rodjenja_najmladjeg_deteta,
            samohrani_roditelj: profile.samohrani_roditelj,
            dete_tezak_invalid: profile.dete_tezak_invalid,
            trudnoca_ili_dojenje: flag,
            trudnoca_ili_dojenje_od,
            radi_u_preraspodeli: profile.radi_u_preraspodeli,
            ugovoreno_radno_vreme_minuta_nedeljno: profile.ugovoreno_radno_vreme_minuta_nedeljno,
            zanimanje_sifra,
            kvalifikacija_sifra,
            saglasnost_prekovremeni_od,
        },
    )
}

/// A profile that is accepted carries the čl. 90 flag and its date together
/// or neither, a contracted week within full time, and only real dates.
pub proof fn lemma_accepted_profile_pairs_cl_90(p: EmployeeProfile, n: EmployeeProfile)
    requires
        profile_fault(p) is None,
        profile_normalized(p, n),
    ensures
        (n.trudnoca_ili_dojenje == Some(true)) <==> n.trudnoca_ili_dojenje_od is Some,
        n.ugovoreno_radno_vreme_minuta_nedeljno matches Some(m) ==> 0 < m <= 2400,
        n.datum_rodjenja matches Some(d) ==> iso_date_of(d@) is Some,
        n.trudnoca_ili_dojenje_od matches Some(d) ==> iso_date_of(d@) is Some,
{
}

pub open spec fn is_role(role: Seq<char>) -> bool {
    role == "admin"@ || role == "cashier"@
}

/// The first field of an account request that is refused, if any.
pub open spec fn request_fault(request: SaveUserRequest) -> Option<(Seq<char>, Seq<char>)> {
    if trim(request.username@).len() == 0 {
        Some(("username"@, "Korisničko ime je obavezno."@))
    } else if trim(request.display_name@).len() == 0 {
        Some(("displayName"@, "Ime za prikaz je obavezno."@))
    } else if !is_role(trim(request.role@)) {
        Some(("role"@, "Uloga nije ispravna."@))
    } else {
        match request.profile {
            Some(p) => profile_fault(p),
            None => None,
        }
    }
}

/// A profile is accepted exactly when its four dates are blank or real days,
/// the čl. 90 flag and its date come together, the contracted week is from
/// one minute to full time (2400 minutes, 40 hours), and each šifra is blank
/// or at most sixteen characters of ASCII letters, digits, `.`, `-` and `/`.
pub proof fn lemma_profile_rules(p: EmployeeProfile)
    ensures
        profile_fault(p) is None <==> {
            &&& date_field_ok(view_option(p.datum_rodjenja))
            &&& date_field_ok(view_option(p.datum_rodjenja_najmladjeg_deteta))
            &&& date_field_ok(view_option(p.trudnoca_ili_dojenje_od))
            &&& date_field_ok(view_option(p.saglasnost_prekovremeni_od))
            &&& (p.trudnoca_ili_dojenje == Some(true)) == (trimmed_or_none(
                view_option(p.trudnoca_ili_dojenje_od),
            ) is Some)
            &&& p.ugovoreno_radno_vreme_minuta_nedeljno matches Some(m) ==> 1 <= m <= 2400
            &&& trimmed_or_none(view_option(p.zanimanje_sifra)) matches Some(t) ==> t.len() <= 16
                && forall|i: int|
                0 <= i < t.len() ==> {
                    let c = #[trigger] t[i];
                    ('0' <= c && c <= '9') || ('a' <= c && c <= 'z') || ('A' <= c && c <= 'Z') || c
                        == '.' || c == '-' || c == '/'
                }
            &&& trimmed_or_none(view_option(p.kvalifikacija_sifra)) matches Some(t) ==> t.len()
                <= 16 && forall|i: int|
                0 <= i < t.len() ==> {
                    let c = #[trigger] t[i];
                    ('0' <= c && c <= '9') || ('a' <= c && c <= 'z') || ('A' <= c && c <= 'Z') || c
                        == '.' || c == '-' || c == '/'
                }
        },
{
}

/// An account is accepted exactly when it has a username and a display name,
/// its role is `admin` or `cashier`, and the profile it carries, if any, is
/// accepted.
pub proof fn lemma_account_rules(r: SaveUserRequest)
    ensures
        request_fault(r) is None <==> {
            &&& trim(r.username@).len() > 0
            &&& trim(r.display_name@).len() > 0
            &&& trim(r.role@) == "admin"@ || trim(r.role@) == "cashier"@
            &&& r.profile matches Some(p) ==> profile_fault(p) is None
        },
{
}

/// `n` is `request` as stored: names and role trimmed, blank secrets as none,
/// the profile normalized.
pub open spec fn request_normalized(request: SaveUserRequest, n: SaveUserRequest) -> bool {
    &&& n.username@ == trim(request.username@)
    &&& n.display_name@ == trim(request.display_name@)
    &&& n.role@ == trim(request.role@)
    &&& n.active == request.active
    &&& view_option(n.pin) == trimmed_or_none(view_option(request.pin))
    &&& view_option(n.password) == trimmed_or_none(view_option(request.password))
    &&& match request.profile {
        None => n.profile is None,
        Some(p) => n.profile matches Some(q) && profile_normalized(p, q),
    }
}

/// Normalizes an account request: a username, a display name, and the role
/// `admin` or `cashier`; the profile, when carried, as [`normalize_profile`].
pub fn normalize_request(request: SaveUserRequest) -> (r: Result<SaveUserRequest, AppError>)
    ensures
        match request_fault(request) {
            Some(f) => r matches Err(e) && e.is_validation(f.0, f.1),
            None => r matches Ok(n) && request_normalized(request, n),
        },
{
    let username = normalized(request.username.as_str());
    let display_name = normalized(request.display_name.as_str());
    let role = normalized(request.role.as_str());
    if username.as_str().unicode_len() == 0 {
        return Err(validation("Korisničko ime je obavezno.", "username"));
    }
    if display_name.as_str().unicode_len() == 0 {
        return Err(validation("Ime za prikaz je obavezno.", "displayName"));
    }
    if !str_eq(role.as_str(), "admin") && !str_eq(role.as_str(), "cashier") {
        return Err(validation("Uloga nije ispravna.", "role"));
    }
    let profile = match request.profile {
        Some(p) => match normalize_profile(p) {
            Ok(n) => Some(n),
            Err(e) => return Err(e),
        },
        None => None,
    };
    Ok(
        SaveUserRequest {
            username,
            display_name,
            role,
            active: request.active,
            pin: normalized_secret(request.pin),
            password: normalized_secret(request.password),
            profile,
        },
    )
}

/// Decides a new account: the request as [`normalize_request`] stores it, and
/// at least a PIN or a password.
pub fn create_user(request: SaveUserRequest) -> (r: Result<SaveUserRequest, AppError>)
    ensures
        match request_fault(request) {
            Some(f) => r matches Err(e) && e.is_validation(f.0, f.1),
            None => if trimmed_or_none(view_option(request.pin)) is None && trimmed_or_none(
                view_option(request.password),
            ) is None {
                r matches Err(e) && e.is_validation("pin"@, "Unesite PIN ili lozinku za novog korisnika."@)
            } else {
                r matches Ok(n) && request_normalized(request, n)
            },
        },
{
    let n = match normalize_request(request) {
        Ok(n) => n,
        Err(e) => return Err(e),
    };
    if n.pin.is_none() && n.password.is_none() {
        return Err(validation("Unesite PIN ili lozinku za novog korisnika.", "pin"));
    }
    Ok(n)
}

/// Decides an account update: the request as [`normalize_request`] stores it.
pub fn update_user(request: SaveUserRequest) -> (r: Result<SaveUserRequest, AppError>)
    ensures
        match request_fault(request) {
            Some(f) => r matches Err(e) && e.is_validation(f.0, f.1),
            None => r matches Ok(n) && request_normalized(request, n),
        },
{
    normalize_request(request)
}

/// The stored credential hashes of one account.
#[derive(Debug, Clone)]
pub struct UserHashes {
    pub pin_hash: Option<String>,
    pub password_hash: Option<String>,
}

/// The credentials an update leaves: a new hash replaces the stored one, an
/// absent one keeps it, and an account may not end with neither.
pub fn credentials_after_update(
    new_pin_hash: Option<String>,
    new_password_hash: Option<String>,
    existing: UserHashes,
) -> (r: Result<UserHashes, AppError>)
    ensures
        ({
            let pin = if new_pin_hash is Some {
                new_pin_hash
            } else {
                existing.pin_hash
            };
            let password = if new_password_hash is Some {
                new_password_hash
            } else {
                existing.password_hash
            };
            if pin is None && password is None {
                r matches Err(e) && e.is_validation("pin"@, "Korisnik mora imati PIN ili lozinku."@)
            } else {
                r matches Ok(h) && h.pin_hash == pin && h.password_hash == password
            }
        }),
{
    let pin = match new_pin_hash {
        Some(h) => Some(h),
        None => existing.pin_hash,
    };
    let password = match new_password_hash {
        Some(h) => Some(h),
        None => existing.password_hash,
    };
    if pin.is_none() && password.is_none() {
        return Err(validation("Korisnik mora imati PIN ili lozinku.", "pin"));
    }
    Ok(UserHashes { pin_hash: pin, password_hash: password })
}

/// A username must be unused by any other account; `duplicates` is how many
/// other accounts carry it.
pub fn ensure_unique_username(duplicates: i64) -> (r: Result<(), AppError>)
    ensures
        duplicates > 0 ==> (r matches Err(e) && e.is_validation(
            "username"@,
            "Korisničko ime već postoji."@,
        )),
        duplicates <= 0 ==> r is Ok,
{
    if duplicates > 0 {
        return Err(validation("Korisničko ime već postoji.", "username"));
    }
    Ok(())
}

/// The refusal for a user id that names no account.
pub fn user_not_found() -> (e: AppError)
    ensures
        e.is_not_found(),
        e.message_text() == "Korisnik nije pronađen."@,
{
    not_found("Korisnik nije pronađen.")
}

/// The account a fresh database is seeded with: none once any account
/// exists, otherwise the `admin` administrator with the starting PIN `1234`,
/// to be changed after the first sign-in.
pub fn initial_admin_account(user_count: i64) -> (r: Option<SaveUserRequest>)
    ensures
        user_count > 0 ==> r is None,
        user_count <= 0 ==> (r matches Some(a) && {
            &&& a.username@ == "admin"@
            &&& a.display_name@ == "Administrator"@
            &&& a.role@ == "admin"@
            &&& a.active
            &&& view_option(a.pin) == Some("1234"@)
            &&& a.password is None
            &&& a.profile is None
        }),
{
    if user_count > 0 {
        return None;
    }
    Some(
        SaveUserRequest {
            username: String::from_str("admin"),
            display_name: String::from_str("Administrator"),
            role: String::from_str("admin"),
            active: true,
            pin: Some(String::from_str("1234")),
            password: None,
            profile: None,
        },
    )
}

} // verus!
