//! Cashier shifts: opening, closing, cash movements and the drawer count the
//! till expects.
use vstd::prelude::*;
use vstd::string::*;

use crate::auth::{unauthorized_text, SessionUser};
use crate::error::{business, not_found, plain_validation, AppError, BusinessCode};
use crate::text::{str_eq, trimmed_or_none, trimmed_or_none_string, view_option};

verus! {

#[derive(Debug, Clone, PartialEq, Eq)]
pub struct ShiftSummary {
    pub id: i64,
    pub user_id: i64,
    pub cashier_name: String,
    pub opened_at: String,
    pub closed_at: Option<String>,
    pub opening_cash_minor: i64,
    pub expected_cash_minor: i64,
    pub counted_cash_minor: Option<i64>,
    pub cash_sales_minor: i64,
    pub card_sales_minor: i64,
    pub paid_in_minor: i64,
    pub paid_out_minor: i64,
    pub difference_minor: Option<i64>,
    pub status: String,
    pub opening_note: Option<String>,
    pub closing_note: Option<String>,
}

#[derive(Debug, Clone)]
pub struct OpenShiftRequest {
    pub opening_cash_minor: i64,
    pub note: Option<String>,
}

#[derive(Debug, Clone)]
pub struct CloseShiftRequest {
    pub shift_id: i64,
    pub counted_cash_minor: i64,
    pub note: Option<String>,
}

#[derive(Debug, Clone)]
pub struct CashMovementRequest {
    /// `pay_in`, `pay_out`, `bank_deposit` or `bank_withdrawal`.
    pub direction: String,
    pub amount_minor: i64,
    pub reason: Option<String>,
    /// Broj izvoda or uplatnice for the two bank directions; optional.
    pub bank_reference: Option<String>,
}

/// The stored columns of one shift row.
#[derive(Debug, Clone)]
pub struct ShiftRow {
    pub id: i64,
    pub user_id: i64,
    pub cashier_name: String,
    pub opened_at: String,
    pub closed_at: Option<String>,
    pub opening_cash_minor: i64,
    /// The figure frozen at close; not used while the shift is open.
    pub stored_expected_cash_minor: i64,
    pub counted_cash_minor: Option<i64>,
    pub status: String,
    pub opening_note: Option<String>,
    pub closing_note: Option<String>,
}

/// One payment of a sale made during the shift.
#[derive(Debug, Clone)]
pub struct PaymentLine {
    pub payment_method: String,
    pub amount_minor: i64,
}

/// One cash movement recorded during the shift.
#[derive(Debug, Clone)]
pub struct MovementLine {
    pub movement_type: String,
    pub amount_minor: i64,
}

/// The total of the payments made by `method`.
pub open spec fn payments_by(lines: Seq<PaymentLine>, method: Seq<char>) -> int
    decreases lines.len(),
{
    if lines.len() == 0 {
        0
    } else {
        payments_by(lines.drop_last(), method) + if lines.last().payment_method@ == method {
            lines.last().amount_minor as int
        } else {
            0
        }
    }
}

/// A movement that puts money into the drawer: a pay-in, or a withdrawal from
/// the bank (podizanje sa računa) brought to the till.
pub open spec fn fills_drawer(movement_type: Seq<char>) -> bool {
    movement_type == "pay_in"@ || movement_type == "bank_withdrawal"@
}

/// A movement that takes money out of the drawer: a pay-out, or a deposit
/// (polog) carried to the bank.
pub open spec fn empties_drawer(movement_type: Seq<char>) -> bool {
    movement_type == "pay_out"@ || movement_type == "bank_deposit"@
}

pub open spec fn paid_in(lines: Seq<MovementLine>) -> int
    decreases lines.len(),
{
    if lines.len() == 0 {
        0
    } else {
        paid_in(lines.drop_last()) + if fills_drawer(lines.last().movement_type@) {
            lines.last().amount_minor as int
        } else {
            0
        }
    }
}

pub open spec fn paid_out(lines: Seq<MovementLine>) -> int
    decreases lines.len(),
{
    if lines.len() == 0 {
        0
    } else {
        paid_out(lines.drop_last()) + if empties_drawer(lines.last().movement_type@) {
            lines.last().amount_minor as int
        } else {
            0
        }
    }
}

pub open spec fn fits_i64(x: int) -> bool {
    i64::MIN <= x <= i64::MAX
}

/// The cash an open drawer should hold: the opening float plus cash sales
/// plus money put in, less money taken out. Card and bank-transfer tenders
/// never enter the drawer.
pub open spec fn expected_cash(opening: int, cash_sales: int, paid_in: int, paid_out: int) -> int {
    opening + cash_sales + paid_in - paid_out
}

pub(crate) proof fn lemma_partial_sum_bound(n: int, k: int, sum: int)
    requires
        0 <= k <= n,
        -k * 0x8000_0000_0000_0000 <= sum <= k * 0x8000_0000_0000_0000,
        n <= 0xffff_ffff_ffff_ffff,
    ensures
        -n * 0x8000_0000_0000_0000 <= sum <= n * 0x8000_0000_0000_0000,
        n * 0x8000_0000_0000_0000 < 0x7fff_ffff_ffff_ffff_ffff_ffff_ffff_ffff,
{
    assert(k * 0x8000_0000_0000_0000 <= n * 0x8000_0000_0000_0000) by (nonlinear_arith)
        requires
            k <= n,
    ;
    assert(n * 0x8000_0000_0000_0000 <= 0xffff_ffff_ffff_ffff * 0x8000_0000_0000_0000) by (
    nonlinear_arith)
        requires
            n <= 0xffff_ffff_ffff_ffff,
    ;
}

fn sum_payments(lines: &Vec<PaymentLine>, method: &str) -> (r: i128)
    ensures
        r == payments_by(lines@, method@),
{
    let mut total: i128 = 0;
    let mut i: usize = 0;
    while i < lines.len()
        invariant
            i <= lines@.len(),
            total == payments_by(lines@.subrange(0, i as int), method@),
            -(i as int) * 0x8000_0000_0000_0000 <= total <= (i as int) * 0x8000_0000_0000_0000,
        decreases lines@.len() - i,
    {
        let line = &lines[i];
        proof {
            assert(lines@.subrange(0, i + 1).drop_last() =~= lines@.subrange(0, i as int));
            lemma_partial_sum_bound(lines@.len() as int, i as int, total as int);
        }
        if str_eq(line.payment_method.as_str(), method) {
            total = total + line.amount_minor as i128;
        }
        i = i + 1;
    }
    assert(lines@.subrange(0, i as int) =~= lines@);
    total
}

fn sum_movements(lines: &Vec<MovementLine>) -> (r: (i128, i128))
    ensures
        r.0 == paid_in(lines@),
        r.1 == paid_out(lines@),
{
    let mut total_in: i128 = 0;
    let mut total_out: i128 = 0;
    let mut i: usize = 0;
    while i < lines.len()
        invariant
            i <= lines@.len(),
            total_in == paid_in(lines@.subrange(0, i as int)),
            total_out == paid_out(lines@.subrange(0, i as int)),
            -(i as int) * 0x8000_0000_0000_0000 <= total_in <= (i as int) * 0x8000_0000_0000_0000,
            -(i as int) * 0x8000_0000_0000_0000 <= total_out <= (i as int)
                * 0x8000_0000_0000_0000,
        decreases lines@.len() - i,
    {
        let line = &lines[i];
        proof {
            assert(lines@.subrange(0, i + 1).drop_last() =~= lines@.subrange(0, i as int));
            lemma_partial_sum_bound(lines@.len() as int, i as int, total_in as int);
            lemma_partial_sum_bound(lines@.len() as int, i as int, total_out as int);
        }
        let kind = line.movement_type.as_str();
        if str_eq(kind, "pay_in") || str_eq(kind, "bank_withdrawal") {
            total_in = total_in + line.amount_minor as i128;
        }
        if str_eq(kind, "pay_out") || str_eq(kind, "bank_deposit") {
            total_out = total_out + line.amount_minor as i128;
        }
        i = i + 1;
    }
    assert(lines@.subrange(0, i as int) =~= lines@);
    (total_in, total_out)
}

pub open spec fn overflow_text() -> Seq<char> {
    "Iznos smene prelazi opseg celog broja."@
}

fn overflow_error() -> (e: AppError)
    ensures
        e is InvalidState,
        e.message_text() == overflow_text(),
{
    AppError::InvalidState { message: String::from_str("Iznos smene prelazi opseg celog broja.") }
}

/// Whether `summary` is the shift `row` describes, given its payments and
/// movements: open shifts report the live expected cash, closed ones the
/// figure frozen at close, and a counted shift reports counted − expected.
pub open spec fn summarizes(
    summary: ShiftSummary,
    row: ShiftRow,
    payments: Seq<PaymentLine>,
    movements: Seq<MovementLine>,
) -> bool {
    let expected = if row.status@ == "open"@ {
        expected_cash(
            row.opening_cash_minor as int,
            payments_by(payments, "cash"@),
            paid_in(movements),
            paid_out(movements),
        )
    } else {
        row.stored_expected_cash_minor as int
    };
    &&& summary.id == row.id
    &&& summary.user_id == row.user_id
    &&& summary.cashier_name == row.cashier_name
    &&& summary.opened_at == row.opened_at
    &&& summary.closed_at == row.closed_at
    &&& summary.opening_cash_minor == row.opening_cash_minor
    &&& summary.cash_sales_minor == payments_by(payments, "cash"@)
    &&& summary.card_sales_minor == payments_by(payments, "card"@)
    &&& summary.paid_in_minor == paid_in(movements)
    &&& summary.paid_out_minor == paid_out(movements)
    &&& summary.expected_cash_minor == expected
    &&& summary.counted_cash_minor == row.counted_cash_minor
    &&& match row.counted_cash_minor {
        Some(counted) => summary.difference_minor == Some((counted - expected) as i64),
        None => summary.difference_minor is None,
    }
    &&& summary.status == row.status
    &&& summary.opening_note == row.opening_note
    &&& summary.closing_note == row.closing_note
}

/// Whether every figure of the summary fits the stored integer type.
pub open spec fn summary_fits(
    row: ShiftRow,
    payments: Seq<PaymentLine>,
    movements: Seq<MovementLine>,
) -> bool {
    let expected = if row.status@ == "open"@ {
        expected_cash(
            row.opening_cash_minor as int,
            payments_by(payments, "cash"@),
            paid_in(movements),
            paid_out(movements),
        )
    } else {
        row.stored_expected_cash_minor as int
    };
    &&& fits_i64(payments_by(payments, "cash"@))
    &&& fits_i64(payments_by(payments, "card"@))
    &&& fits_i64(paid_in(movements))
    &&& fits_i64(paid_out(movements))
    &&& fits_i64(expected)
    &&& match row.counted_cash_minor {
        Some(counted) => fits_i64(counted - expected),
        None => true,
    }
}

/// Builds the shift summary from its row, its sales' payments and its cash
/// movements. A total that does not fit is an error rather than a wrapped
/// figure.
pub fn shift_summary(row: ShiftRow, payments: &Vec<PaymentLine>, movements: &Vec<MovementLine>) -> (r:
    Result<ShiftSummary, AppError>)
    ensures
        summary_fits(row, payments@, movements@) ==> (r matches Ok(s) && summarizes(
            s,
            row,
            payments@,
            movements@,
        )),
        !summary_fits(row, payments@, movements@) ==> (r matches Err(e) && e is InvalidState
            && e.message_text() == overflow_text()),
{
    let cash = sum_payments(payments, "cash");
    let card = sum_payments(payments, "card");
    let (moved_in, moved_out) = sum_movements(movements);
    let min = i64::MIN as i128;
    let max = i64::MAX as i128;
    if cash < min || cash > max || card < min || card > max || moved_in < min || moved_in > max
        || moved_out < min || moved_out > max {
        return Err(overflow_error());
    }
    let expected: i128 = if str_eq(row.status.as_str(), "open") {
        row.opening_cash_minor as i128 + cash + moved_in - moved_out
    } else {
        row.stored_expected_cash_minor as i128
    };
    if expected < min || expected > max {
        return Err(overflow_error());
    }
    let difference = match row.counted_cash_minor {
        Some(counted) => {
            let d = counted as i128 - expected;
            if d < min || d > max {
                return Err(overflow_error());
            }
            Some(d as i64)
        },
        None => None,
    };
    Ok(
        ShiftSummary {
            id: row.id,
            user_id: row.user_id,
            cashier_name: row.cashier_name,
            opened_at: row.opened_at,
            closed_at: row.closed_at,
            opening_cash_minor: row.opening_cash_minor,
            expected_cash_minor: expected as i64,
            counted_cash_minor: row.counted_cash_minor,
            cash_sales_minor: cash as i64,
            card_sales_minor: card as i64,
            paid_in_minor: moved_in as i64,
            paid_out_minor: moved_out as i64,
            difference_minor: difference,
            status: row.status,
            opening_note: row.opening_note,
            closing_note: row.closing_note,
        },
    )
}

/// A note as stored: trimmed, with a blank note stored as none.
pub fn normalized_note(value: Option<String>) -> (r: Option<String>)
    ensures
        view_option(r) == trimmed_or_none(view_option(value)),
{
    trimmed_or_none_string(value)
}

/// The signed-in user's id; no session is `unauthorized`.
pub fn current_user_id(session: &Option<SessionUser>) -> (r: Result<i64, AppError>)
    ensures
        match *session {
            None => r matches Err(e) && e.is_business_saying(BusinessCode::Unauthorized, unauthorized_text()),
            Some(user) => r == Ok::<i64, AppError>(user.id),
        },
{
    crate::auth::require_session(session)
}

/// Only an active account may open a shift; `active` is the stored flag of
/// the user, absent when the user does not exist.
pub fn ensure_active_user(active: Option<i64>) -> (r: Result<(), AppError>)
    ensures
        active == Some(1i64) <==> r is Ok,
        r matches Err(e) ==> e.is_business_saying(BusinessCode::Unauthorized, unauthorized_text()),
{
    match active {
        Some(flag) => if flag == 1 {
            return Ok(());
        },
        None => {},
    }
    Err(business(BusinessCode::Unauthorized, "Prijavite se za rad."))
}

/// The row a shift opens with; its expected cash starts at the opening float.
#[derive(Debug, Clone)]
pub struct ShiftOpening {
    pub user_id: i64,
    pub opening_cash_minor: i64,
    pub note: Option<String>,
}

/// What a close writes into shift `shift_id`.
#[derive(Debug, Clone)]
pub struct ShiftClosing {
    pub shift_id: i64,
    pub expected_cash_minor: i64,
    pub counted_cash_minor: i64,
    pub note: Option<String>,
}

/// Decides opening a shift for `user_id`: the float may not be negative, a
/// user has at most one open shift, and the account must be active.
pub fn open_shift_for_user(
    user_id: i64,
    request: OpenShiftRequest,
    has_open_shift: bool,
    active: Option<i64>,
) -> (r: Result<ShiftOpening, AppError>)
    ensures
        if request.opening_cash_minor < 0 {
            r matches Err(e) && e.is_validation_saying(
                "Početni novac ne može biti negativan."@,
                Seq::empty(),
            )
        } else if has_open_shift {
            r matches Err(e) && e.is_validation_saying(
                "Korisnik već ima otvorenu smenu."@,
                Seq::empty(),
            )
        } else if active != Some(1i64) {
            r matches Err(e) && e.is_business_saying(BusinessCode::Unauthorized, unauthorized_text())
        } else {
            r matches Ok(o) && {
                &&& o.user_id == user_id
                &&& o.opening_cash_minor == request.opening_cash_minor
                &&& view_option(o.note) == trimmed_or_none(view_option(request.note))
            }
        },
{
    if request.opening_cash_minor < 0 {
        return Err(plain_validation("Početni novac ne može biti negativan."));
    }
    if has_open_shift {
        return Err(plain_validation("Korisnik već ima otvorenu smenu."));
    }
    if let Err(e) = ensure_active_user(active) {
        return Err(e);
    }
    Ok(
        ShiftOpening {
            user_id,
            opening_cash_minor: request.opening_cash_minor,
            note: normalized_note(request.note),
        },
    )
}

fn missing_shift() -> (e: AppError)
    ensures
        e.is_not_found(),
        e.message_text() == "Smena nije pronađena."@,
{
    not_found("Smena nije pronađena.")
}

fn missing_open_shift() -> (e: AppError)
    ensures
        e.is_not_found(),
        e.message_text() == "Otvorena smena nije pronađena."@,
{
    not_found("Otvorena smena nije pronađena.")
}

/// Decides the cashier's own close of `shift`, the summary found under
/// `request.shift_id` (none, or another shift's, reads as not found): the
/// count may not be negative, the shift must be this user's and open, and the expected cash is derived
/// from the float, the cash sales and the movements — never taken from the
/// client.
pub fn close_shift_for_user(user_id: i64, request: CloseShiftRequest, shift: Option<ShiftSummary>) -> (r:
    Result<ShiftClosing, AppError>)
    ensures
        if request.counted_cash_minor < 0 {
            r matches Err(e) && e.is_validation_saying(
                "Prebrojana gotovina ne može biti negativna."@,
                Seq::empty(),
            )
        } else if !(shift matches Some(found) && found.id == request.shift_id) {
            r matches Err(e) && e.is_not_found() && e.message_text() == "Smena nije pronađena."@
        } else if shift->0.user_id != user_id || shift->0.status@ != "open"@ {
            r matches Err(e) && e.is_not_found() && e.message_text()
                == "Otvorena smena nije pronađena."@
        } else {
            let s = shift->0;
            let expected = expected_cash(
                s.opening_cash_minor as int,
                s.cash_sales_minor as int,
                s.paid_in_minor as int,
                s.paid_out_minor as int,
            );
            if fits_i64(expected) {
                r matches Ok(c) && {
                    &&& c.shift_id == request.shift_id
                    &&& c.expected_cash_minor == expected
                    &&& c.counted_cash_minor == request.counted_cash_minor
                    &&& view_option(c.note) == trimmed_or_none(view_option(request.note))
                }
            } else {
                r matches Err(e) && e is InvalidState && e.message_text() == overflow_text()
            }
        },
{
    if request.counted_cash_minor < 0 {
        return Err(plain_validation("Prebrojana gotovina ne može biti negativna."));
    }
    let shift = match shift {
        Some(s) if s.id == request.shift_id => s,
        _ => return Err(missing_shift()),
    };
    if shift.user_id != user_id || !str_eq(shift.status.as_str(), "open") {
        return Err(missing_open_shift());
    }
    let expected = shift.opening_cash_minor as i128 + shift.cash_sales_minor as i128
        + shift.paid_in_minor as i128 - shift.paid_out_minor as i128;
    if expected < i64::MIN as i128 || expected > i64::MAX as i128 {
        return Err(overflow_error());
    }
    Ok(
        ShiftClosing {
            shift_id: request.shift_id,
            expected_cash_minor: expected as i64,
            counted_cash_minor: request.counted_cash_minor,
            note: normalized_note(request.note),
        },
    )
}

/// Decides an admin's forced close of any open shift: the summary found
/// under `request.shift_id` must be that shift's and the shift open, and it closes at the expected cash its summary reports.
pub fn admin_close_shift(request: CloseShiftRequest, shift: Option<ShiftSummary>) -> (r: Result<
    ShiftClosing,
    AppError,
>)
    ensures
        if !(shift matches Some(found) && found.id == request.shift_id) {
            r matches Err(e) && e.is_not_found() && e.message_text() == "Smena nije pronađena."@
        } else if shift->0.status@ != "open"@ {
            r matches Err(e) && e.is_not_found() && e.message_text()
                == "Otvorena smena nije pronađena."@
        } else {
            r matches Ok(c) && {
                &&& c.shift_id == request.shift_id
                &&& c.expected_cash_minor == shift->0.expected_cash_minor
                &&& c.counted_cash_minor == request.counted_cash_minor
                &&& view_option(c.note) == trimmed_or_none(view_option(request.note))
            }
        },
{
    let shift = match shift {
        Some(s) if s.id == request.shift_id => s,
        _ => return Err(missing_shift()),
    };
    if !str_eq(shift.status.as_str(), "open") {
        return Err(missing_open_shift());
    }
    Ok(
        ShiftClosing {
            shift_id: request.shift_id,
            expected_cash_minor: shift.expected_cash_minor,
            counted_cash_minor: request.counted_cash_minor,
            note: normalized_note(request.note),
        },
    )
}

/// The four movement types a cash movement may have.
pub open spec fn is_movement_direction(d: Seq<char>) -> bool {
    fills_drawer(d) || empties_drawer(d)
}

/// The movement types are exactly the four of the till: a pay-in and a bank
/// withdrawal put money into the drawer, a pay-out and a bank deposit take
/// it out, and no type does both.
pub proof fn lemma_movement_types_are_the_four(d: Seq<char>)
    ensures
        fills_drawer(d) <==> (d == "pay_in"@ || d == "bank_withdrawal"@),
        empties_drawer(d) <==> (d == "pay_out"@ || d == "bank_deposit"@),
        is_movement_direction(d) <==> (d == "pay_in"@ || d == "pay_out"@ || d == "bank_deposit"@
            || d == "bank_withdrawal"@),
        !(fills_drawer(d) && empties_drawer(d)),
{
    reveal_strlit("pay_in");
    reveal_strlit("pay_out");
    reveal_strlit("bank_deposit");
    reveal_strlit("bank_withdrawal");
    assert("pay_in"@.len() == 6 && "pay_out"@.len() == 7 && "bank_deposit"@.len() == 12
        && "bank_withdrawal"@.len() == 15);
}

/// What a shift summary reports: an open shift expects its float plus its
/// cash sales plus the money put in, less the money taken out; a closed
/// shift keeps the figure frozen at close; a counted shift reports the count
/// less the expected cash.
pub proof fn lemma_summary_figures(
    summary: ShiftSummary,
    row: ShiftRow,
    payments: Seq<PaymentLine>,
    movements: Seq<MovementLine>,
)
    requires
        summarizes(summary, row, payments, movements),
    ensures
        summary.id == row.id,
        row.status@ == "open"@ ==> summary.expected_cash_minor == row.opening_cash_minor
            + summary.cash_sales_minor + summary.paid_in_minor - summary.paid_out_minor,
        row.status@ != "open"@ ==> summary.expected_cash_minor == row.stored_expected_cash_minor,
        row.counted_cash_minor matches Some(c) ==> summary.difference_minor == Some(
            (c - summary.expected_cash_minor) as i64,
        ),
        row.counted_cash_minor is None ==> summary.difference_minor is None,
{
}

/// The row a cash movement inserts into the open shift.
#[derive(Debug, Clone)]
pub struct CashMovementWrite {
    pub shift_id: i64,
    pub movement_type: String,
    pub amount_minor: i64,
    pub reason: Option<String>,
    pub bank_reference: Option<String>,
}

/// Decides a cash movement: a known direction, a positive amount, and an open
/// shift of the user (`current_shift`) to record it in.
pub fn record_cash_movement(request: CashMovementRequest, current_shift: Option<ShiftSummary>) -> (r:
    Result<CashMovementWrite, AppError>)
    ensures
        if !is_movement_direction(request.direction@) {
            r matches Err(e) && e.is_validation_saying("Nepoznat tip transakcije."@, Seq::empty())
        } else if request.amount_minor <= 0 {
            r matches Err(e) && e.is_validation_saying("Iznos mora biti veći od nule."@, Seq::empty())
        } else if current_shift is None {
            r matches Err(e) && e.is_business_saying(
                BusinessCode::ShiftRequired,
                "Smena nije otvorena."@,
            )
        } else {
            r matches Ok(w) && {
                &&& w.shift_id == current_shift->0.id
                &&& w.movement_type@ == request.direction@
                &&& w.amount_minor == request.amount_minor
                &&& view_option(w.reason) == trimmed_or_none(view_option(request.reason))
                &&& view_option(w.bank_reference) == trimmed_or_none(
                    view_option(request.bank_reference),
                )
            }
        },
{
    let d = request.direction.as_str();
    if !(str_eq(d, "pay_in") || str_eq(d, "pay_out") || str_eq(d, "bank_deposit") || str_eq(
        d,
        "bank_withdrawal",
    )) {
        return Err(plain_validation("Nepoznat tip transakcije."));
    }
    if request.amount_minor <= 0 {
        return Err(plain_validation("Iznos mora biti veći od nule."));
    }
    let shift = match current_shift {
        Some(s) => s,
        None => return Err(business(BusinessCode::ShiftRequired, "Smena nije otvorena.")),
    };
    Ok(
        CashMovementWrite {
            shift_id: shift.id,
            movement_type: request.direction,
            amount_minor: request.amount_minor,
            reason: normalized_note(request.reason),
            bank_reference: normalized_note(request.bank_reference),
        },
    )
}

/// Recording a movement in an open shift moves its expected cash by exactly
/// the amount: up for money put in (pay-in, bank withdrawal), down for money
/// taken out (pay-out, bank deposit).
pub proof fn lemma_movement_moves_expected_cash(
    row: ShiftRow,
    payments: Seq<PaymentLine>,
    movements: Seq<MovementLine>,
    line: MovementLine,
)
    requires
        row.status@ == "open"@,
        is_movement_direction(line.movement_type@),
    ensures
        ({
            let before = expected_cash(
                row.opening_cash_minor as int,
                payments_by(payments, "cash"@),
                paid_in(movements),
                paid_out(movements),
            );
            let after = expected_cash(
                row.opening_cash_minor as int,
                payments_by(payments, "cash"@),
                paid_in(movements.push(line)),
                paid_out(movements.push(line)),
            );
            &&& fills_drawer(line.movement_type@) ==> after == before + line.amount_minor
            &&& empties_drawer(line.movement_type@) ==> after == before - line.amount_minor
        }),
{
    reveal_strlit("pay_in");
    reveal_strlit("pay_out");
    reveal_strlit("bank_deposit");
    reveal_strlit("bank_withdrawal");
    assert(movements.push(line).drop_last() =~= movements);
    assert("pay_in"@.len() == 6 && "pay_out"@.len() == 7 && "bank_deposit"@.len() == 12
        && "bank_withdrawal"@.len() == 15);
    if fills_drawer(line.movement_type@) {
        assert(!empties_drawer(line.movement_type@));
    }
}

/// A recorded movement is read back in the shift it was recorded in. If the
/// open shift's summary before the movement is `before`, the movement written
/// is `w`, and the summary read once the movement's line is stored beside the
/// shift's other movements is `after`, then `after` is the same shift, and
/// money put in (pay-in, bank withdrawal) raises paid-in and the expected
/// cash by the amount while money taken out (pay-out, bank deposit) raises
/// paid-out and lowers the expected cash by it; the other total is unchanged.
pub proof fn lemma_recorded_movement_reads_back(
    row: ShiftRow,
    payments: Seq<PaymentLine>,
    movements: Seq<MovementLine>,
    w: CashMovementWrite,
    line: MovementLine,
    before: ShiftSummary,
    after: ShiftSummary,
)
    requires
        row.status@ == "open"@,
        summarizes(before, row, payments, movements),
        w.shift_id == before.id,
        is_movement_direction(w.movement_type@),
        line.movement_type@ == w.movement_type@,
        line.amount_minor == w.amount_minor,
        summarizes(after, row, payments, movements.push(line)),
    ensures
        after.id == w.shift_id,
        fills_drawer(w.movement_type@) ==> after.paid_in_minor == before.paid_in_minor + w.amount_minor
            && after.paid_out_minor == before.paid_out_minor && after.expected_cash_minor
            == before.expected_cash_minor + w.amount_minor,
        empties_drawer(w.movement_type@) ==> after.paid_out_minor == before.paid_out_minor
            + w.amount_minor && after.paid_in_minor == before.paid_in_minor
            && after.expected_cash_minor == before.expected_cash_minor - w.amount_minor,
{
    lemma_movement_moves_expected_cash(row, payments, movements, line);
    reveal_strlit("pay_in");
    reveal_strlit("pay_out");
    reveal_strlit("bank_deposit");
    reveal_strlit("bank_withdrawal");
    assert(movements.push(line).drop_last() =~= movements);
    assert("pay_in"@.len() == 6 && "pay_out"@.len() == 7 && "bank_deposit"@.len() == 12
        && "bank_withdrawal"@.len() == 15);
    if fills_drawer(line.movement_type@) {
        assert(!empties_drawer(line.movement_type@));
    }
}

/// Only cash tenders count toward the drawer: a card or bank-transfer payment
/// leaves the expected cash unchanged.
pub proof fn lemma_non_cash_tender_never_enters_drawer(payments: Seq<PaymentLine>, line: PaymentLine)
    requires
        line.payment_method@ != "cash"@,
    ensures
        payments_by(payments.push(line), "cash"@) == payments_by(payments, "cash"@),
{
    assert(payments.push(line).drop_last() =~= payments);
}

} // verus!
