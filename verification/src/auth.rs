//! Who is asking: the signed-in user and the two gates every command passes.
use vstd::prelude::*;

use crate::error::{business, AppError, BusinessCode};

verus! {

#[derive(Debug, Clone, Copy, PartialEq, Eq, Structural)]
pub enum Role {
    Admin,
    Cashier,
}

/// The user the session belongs to, as resolved from the session store.
#[derive(Debug, Clone, Copy, PartialEq, Eq)]
pub struct SessionUser {
    pub id: i64,
    pub role: Role,
}

pub open spec fn unauthorized_text() -> Seq<char> {
    "Prijavite se za rad."@
}

pub open spec fn forbidden_text() -> Seq<char> {
    "Nemate ovlašćenje za ovu radnju."@
}

/// The sentence a refusal under `code` from the two gates says.
pub open spec fn refusal_text(code: BusinessCode) -> Seq<char> {
    if code == BusinessCode::Unauthorized {
        unauthorized_text()
    } else {
        forbidden_text()
    }
}

/// The refusal an admin-only action gives `session`, if any.
pub open spec fn admin_refusal(session: Option<SessionUser>) -> Option<BusinessCode> {
    match session {
        None => Some(BusinessCode::Unauthorized),
        Some(user) => if user.role == Role::Admin {
            None
        } else {
            Some(BusinessCode::Forbidden)
        },
    }
}

/// Only an admin passes the admin gate: no session is refused as
/// unauthorized with „Prijavite se za rad.“, any other role as forbidden with
/// „Nemate ovlašćenje za ovu radnju.“.
pub proof fn lemma_only_an_admin_passes(session: Option<SessionUser>)
    ensures
        admin_refusal(session) is None <==> (session matches Some(u) && u.role == Role::Admin),
        session is None ==> admin_refusal(session) == Some(BusinessCode::Unauthorized)
            && refusal_text(BusinessCode::Unauthorized) == "Prijavite se za rad."@,
        (session matches Some(u) && u.role != Role::Admin) ==> admin_refusal(session) == Some(
            BusinessCode::Forbidden,
        ) && refusal_text(BusinessCode::Forbidden) == "Nemate ovlašćenje za ovu radnju."@,
{
}

/// The admin gate: no session is `unauthorized`, a non-admin is `forbidden`.
pub fn require_admin(session: &Option<SessionUser>) -> (r: Result<SessionUser, AppError>)
    ensures
        match admin_refusal(*session) {
            Some(code) => r matches Err(e) && e.is_business_saying(code, refusal_text(code)),
            None => r == Ok::<SessionUser, AppError>(session->0),
        },
{
    match session {
        None => Err(business(BusinessCode::Unauthorized, "Prijavite se za rad.")),
        Some(user) => {
            if user.role == Role::Admin {
                Ok(*user)
            } else {
                Err(business(BusinessCode::Forbidden, "Nemate ovlašćenje za ovu radnju."))
            }
        },
    }
}

/// The session gate: any signed-in user passes and is named by id.
pub fn require_session(session: &Option<SessionUser>) -> (r: Result<i64, AppError>)
    ensures
        match *session {
            None => r matches Err(e) && e.is_business_saying(
                BusinessCode::Unauthorized,
                unauthorized_text(),
            ),
            Some(user) => r == Ok::<i64, AppError>(user.id),
        },
{
    match session {
        None => Err(business(BusinessCode::Unauthorized, "Prijavite se za rad.")),
        Some(user) => Ok(user.id),
    }
}

} // verus!
