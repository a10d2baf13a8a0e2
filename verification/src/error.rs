//! The error every rule of the library reports with.
use vstd::prelude::*;
use vstd::string::*;

use crate::worktime::{CapAssessment, ProtectionBlock};

verus! {

/// Refusals that are neither a malformed field nor a missing row.
#[derive(Debug, Clone, Copy, PartialEq, Eq, Structural)]
pub enum BusinessCode {
    /// No signed-in user.
    Unauthorized,
    /// A signed-in user without the role the action needs.
    Forbidden,
    /// A day already has an entry; a change is recorded as a correction.
    EntryExists,
    /// A ZoR čl. 87–91 protection bans the work itself.
    ProtectionBlock,
    /// A working-time ceiling is exceeded and no ground was given.
    CapOverrideRequired,
    /// The period is closed for writes.
    PeriodClosed,
    /// The user has no open shift.
    ShiftRequired,
}

/// One value of an error's details, keyed by name in [`AppError`].
#[derive(Debug, Clone)]
pub enum Detail {
    Text(String),
    Integer(i64),
    /// The čl. 87–91 findings for the day.
    Protections(Vec<ProtectionBlock>),
    /// The čl. 53 assessment the day was measured against.
    Caps(CapAssessment),
}

/// A detail value as contracts speak of it.
pub enum DetailView {
    Text(Seq<char>),
    Integer(int),
    Protections(Seq<ProtectionBlock>),
    Caps(CapAssessment),
}

pub open spec fn detail_view(d: Detail) -> DetailView {
    match d {
        Detail::Text(t) => DetailView::Text(t@),
        Detail::Integer(n) => DetailView::Integer(n as int),
        Detail::Protections(p) => DetailView::Protections(p@),
        Detail::Caps(c) => DetailView::Caps(c),
    }
}

pub open spec fn details_view(ds: Seq<(String, Detail)>) -> Seq<(Seq<char>, DetailView)> {
    ds.map_values(|d: (String, Detail)| (d.0@, detail_view(d.1)))
}

#[derive(Debug)]
pub enum AppError {
    /// A request field is malformed; `details` say which and with what.
    Validation { message: String, details: Vec<(String, Detail)> },
    /// The row the request refers to does not exist.
    NotFound { message: String },
    /// A refusal under one of the business codes.
    Business { code: BusinessCode, message: String, details: Vec<(String, Detail)> },
    /// Stored data the library cannot interpret.
    InvalidState { message: String },
}

impl AppError {
    /// The error's details, in the order they are given; empty when it has
    /// none.
    pub open spec fn details(self) -> Seq<(Seq<char>, DetailView)> {
        match self {
            AppError::Validation { details, .. } => details_view(details@),
            AppError::Business { details, .. } => details_view(details@),
            _ => Seq::empty(),
        }
    }

    /// A validation error whose details name the offending `field`.
    pub open spec fn is_validation_of(self, field: Seq<char>) -> bool {
        &&& self is Validation
        &&& self.details() == seq![("field"@, DetailView::Text(field))]
    }

    /// A validation error on `field` that says `message`.
    pub open spec fn is_validation(self, field: Seq<char>, message: Seq<char>) -> bool {
        self.is_validation_of(field) && self.message_text() == message
    }

    /// A validation error that says `message` with exactly `details`.
    pub open spec fn is_validation_saying(
        self,
        message: Seq<char>,
        details: Seq<(Seq<char>, DetailView)>,
    ) -> bool {
        &&& self is Validation
        &&& self.message_text() == message
        &&& self.details() == details
    }

    /// A refusal under `code` that says `message` and carries no details.
    pub open spec fn is_business_saying(self, code: BusinessCode, message: Seq<char>) -> bool {
        self.is_business(code) && self.message_text() == message && self.details().len() == 0
    }

    /// A refusal under `code` that says `message` with exactly `details`.
    pub open spec fn is_business_with(
        self,
        code: BusinessCode,
        message: Seq<char>,
        details: Seq<(Seq<char>, DetailView)>,
    ) -> bool {
        self.is_business(code) && self.message_text() == message && self.details() == details
    }

    pub open spec fn is_not_found(self) -> bool {
        self is NotFound
    }

    pub open spec fn is_business(self, code: BusinessCode) -> bool {
        self matches AppError::Business { code: c, .. } && c == code
    }

    /// The machine-readable code a client branches on.
    pub fn code(&self) -> (r: &'static str)
        ensures
            r@ == self.code_text(),
    {
        proof {
            reveal_strlit("validation_error");
            reveal_strlit("not_found");
            reveal_strlit("invalid_state");
            reveal_strlit("unauthorized");
            reveal_strlit("forbidden");
            reveal_strlit("entry_exists");
            reveal_strlit("protection_block");
            reveal_strlit("cap_override_required");
            reveal_strlit("period_closed");
            reveal_strlit("shift_required");
        }
        match self {
            AppError::Validation { .. } => "validation_error",
            AppError::NotFound { .. } => "not_found",
            AppError::InvalidState { .. } => "invalid_state",
            AppError::Business { code, .. } => match code {
                BusinessCode::Unauthorized => "unauthorized",
                BusinessCode::Forbidden => "forbidden",
                BusinessCode::EntryExists => "entry_exists",
                BusinessCode::ProtectionBlock => "protection_block",
                BusinessCode::CapOverrideRequired => "cap_override_required",
                BusinessCode::PeriodClosed => "period_closed",
                BusinessCode::ShiftRequired => "shift_required",
            },
        }
    }

    pub open spec fn code_text(self) -> Seq<char> {
        match self {
            AppError::Validation { .. } => "validation_error"@,
            AppError::NotFound { .. } => "not_found"@,
            AppError::InvalidState { .. } => "invalid_state"@,
            AppError::Business { code, .. } => match code {
                BusinessCode::Unauthorized => "unauthorized"@,
                BusinessCode::Forbidden => "forbidden"@,
                BusinessCode::EntryExists => "entry_exists"@,
                BusinessCode::ProtectionBlock => "protection_block"@,
                BusinessCode::CapOverrideRequired => "cap_override_required"@,
                BusinessCode::PeriodClosed => "period_closed"@,
                BusinessCode::ShiftRequired => "shift_required"@,
            },
        }
    }

    /// The operator-facing sentence.
    pub fn message(&self) -> (r: &str)
        ensures
            r@ == self.message_text(),
    {
        match self {
            AppError::Validation { message, .. } => message.as_str(),
            AppError::NotFound { message } => message.as_str(),
            AppError::Business { message, .. } => message.as_str(),
            AppError::InvalidState { message } => message.as_str(),
        }
    }

    pub open spec fn message_text(self) -> Seq<char> {
        match self {
            AppError::Validation { message, .. } => message@,
            AppError::NotFound { message } => message@,
            AppError::Business { message, .. } => message@,
            AppError::InvalidState { message } => message@,
        }
    }
}

/// A validation error on `field`: its details are `{"field": field}`.
pub fn validation(message: &str, field: &str) -> (e: AppError)
    ensures
        e.is_validation_of(field@),
        e.message_text() == message@,
{
    let details = vec![(String::from_str("field"), Detail::Text(String::from_str(field)))];
    proof {
        reveal_strlit("field");
    }
    assert(details_view(details@) =~= seq![("field"@, DetailView::Text(field@))]);
    AppError::Validation { message: String::from_str(message), details }
}

/// A validation error that carries no details.
pub fn plain_validation(message: &str) -> (e: AppError)
    ensures
        e.is_validation_saying(message@, Seq::empty()),
{
    let details: Vec<(String, Detail)> = Vec::new();
    assert(details_view(details@) =~= Seq::empty());
    AppError::Validation { message: String::from_str(message), details }
}

/// A validation error with the given details.
pub fn validation_with(message: &str, details: Vec<(String, Detail)>) -> (e: AppError)
    ensures
        e.is_validation_saying(message@, details_view(details@)),
{
    AppError::Validation { message: String::from_str(message), details }
}

/// A text detail `key: value`.
pub fn text_detail(key: &str, value: &str) -> (d: (String, Detail))
    ensures
        d.0@ == key@,
        detail_view(d.1) == DetailView::Text(value@),
{
    (String::from_str(key), Detail::Text(String::from_str(value)))
}

/// An integer detail `key: value`.
pub fn integer_detail(key: &str, value: i64) -> (d: (String, Detail))
    ensures
        d.0@ == key@,
        detail_view(d.1) == DetailView::Integer(value as int),
{
    (String::from_str(key), Detail::Integer(value))
}

pub fn not_found(message: &str) -> (e: AppError)
    ensures
        e.is_not_found(),
        e.message_text() == message@,
{
    AppError::NotFound { message: String::from_str(message) }
}

pub fn business(code: BusinessCode, message: &str) -> (e: AppError)
    ensures
        e.is_business_saying(code, message@),
{
    let details: Vec<(String, Detail)> = Vec::new();
    assert(details_view(details@) =~= Seq::empty());
    AppError::Business { code, message: String::from_str(message), details }
}

pub fn business_with(code: BusinessCode, message: &str, details: Vec<(String, Detail)>) -> (e:
    AppError)
    ensures
        e.is_business_with(code, message@, details_view(details@)),
{
    AppError::Business { code, message: String::from_str(message), details }
}

} // verus!
