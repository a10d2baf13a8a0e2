use vantumpos::auth::{require_admin, Role, SessionUser};
use vantumpos::shifts::{
    admin_close_shift, close_shift_for_user, current_user_id, ensure_active_user,
    normalized_note, open_shift_for_user, record_cash_movement, shift_summary,
    CashMovementRequest, CashMovementWrite, CloseShiftRequest, MovementLine, OpenShiftRequest,
    PaymentLine, ShiftClosing, ShiftOpening, ShiftRow, ShiftSummary,
};

const CASHIER_ID: i64 = 2;
const SHIFT_ID: i64 = 7;

fn open(opening_cash_minor: i64) -> ShiftOpening {
    open_shift_for_user(
        CASHIER_ID,
        OpenShiftRequest { opening_cash_minor, note: None },
        false,
        Some(1),
    )
    .expect("shift should open")
}

fn open_row(opening: &ShiftOpening) -> ShiftRow {
    ShiftRow {
        id: SHIFT_ID,
        user_id: opening.user_id,
        cashier_name: "Kasir".to_string(),
        opened_at: "2026-01-01T08:00:00Z".to_string(),
        closed_at: None,
        opening_cash_minor: opening.opening_cash_minor,
        stored_expected_cash_minor: opening.opening_cash_minor,
        counted_cash_minor: None,
        status: "open".to_string(),
        opening_note: opening.note.clone(),
        closing_note: None,
    }
}

fn closed_row(row: &ShiftRow, closing: &ShiftClosing) -> ShiftRow {
    ShiftRow {
        closed_at: Some("2026-01-01T16:00:00Z".to_string()),
        stored_expected_cash_minor: closing.expected_cash_minor,
        counted_cash_minor: Some(closing.counted_cash_minor),
        status: "closed".to_string(),
        closing_note: closing.note.clone(),
        ..row.clone()
    }
}

fn pay(method: &str, amount_minor: i64) -> PaymentLine {
    PaymentLine { payment_method: method.to_string(), amount_minor }
}

fn movement(write: &CashMovementWrite) -> MovementLine {
    MovementLine { movement_type: write.movement_type.clone(), amount_minor: write.amount_minor }
}

fn movement_request(direction: &str, amount_minor: i64, reason: Option<&str>) -> CashMovementRequest {
    CashMovementRequest {
        direction: direction.to_string(),
        amount_minor,
        reason: reason.map(str::to_string),
        bank_reference: None,
    }
}

fn summary(row: &ShiftRow, payments: &Vec<PaymentLine>, movements: &Vec<MovementLine>) -> ShiftSummary {
    shift_summary(row.clone(), payments, movements).expect("summary should build")
}

/// The pay-in of 3000 and pay-out of 1000 that several scenarios record.
fn pay_in_and_out(current: &ShiftSummary) -> Vec<MovementLine> {
    let pay_in = record_cash_movement(movement_request("pay_in", 3000, None), Some(current.clone()))
        .expect("pay_in should record");
    let pay_out = record_cash_movement(movement_request("pay_out", 1000, None), Some(current.clone()))
        .expect("pay_out should record");
    vec![movement(&pay_in), movement(&pay_out)]
}

#[test]
fn bank_transfer_tender_is_not_expected_in_the_till() {
    let row = open_row(&open(5_000));
    let payments = vec![pay("cash", 30_000), pay("bank_transfer", 500_000)];
    let s = summary(&row, &payments, &vec![]);
    assert_eq!(s.expected_cash_minor, s.opening_cash_minor + 30_000, "a bank transfer never enters the drawer");
    assert_eq!(s.cash_sales_minor, 30_000);
    assert_eq!(s.card_sales_minor, 0);
}

#[test]
fn close_shift_for_user_derives_expected_cash() {
    let row = open_row(&open(5000));
    assert_eq!(row.status, "open");
    let payments = vec![pay("cash", 12000), pay("card", 8000)];
    let current = summary(&row, &payments, &vec![]);
    let closing = close_shift_for_user(
        CASHIER_ID,
        CloseShiftRequest { shift_id: SHIFT_ID, counted_cash_minor: 17000, note: None },
        Some(current),
    )
    .expect("shift should close");
    let closed = summary(&closed_row(&row, &closing), &payments, &vec![]);
    assert_eq!(closed.status, "closed");
    assert_eq!(closed.cash_sales_minor, 12000);
    assert_eq!(closed.card_sales_minor, 8000);
    assert_eq!(closed.expected_cash_minor, 17000);
    assert_eq!(closed.counted_cash_minor, Some(17000));
    assert_eq!(closed.difference_minor, Some(0));
}

#[test]
fn open_shift_for_user_rejects_second_open_shift() {
    open_shift_for_user(CASHIER_ID, OpenShiftRequest { opening_cash_minor: 0, note: None }, false, Some(1))
        .expect("first shift should open");
    let error = open_shift_for_user(
        CASHIER_ID,
        OpenShiftRequest { opening_cash_minor: 0, note: None },
        true,
        Some(1),
    )
    .expect_err("second shift should fail");
    assert_eq!(error.code(), "validation_error");
    assert_eq!(error.message(), "Korisnik već ima otvorenu smenu.");
}

#[test]
fn shift_summary_nets_returns_against_cash_sales() {
    let row = open_row(&open(0));
    let payments = vec![pay("cash", 1000), pay("cash", -300)];
    let s = summary(&row, &payments, &vec![]);
    assert_eq!(s.cash_sales_minor, 700);
    assert_eq!(s.card_sales_minor, 0);
    assert_eq!(s.expected_cash_minor, 700);
}

#[test]
fn admin_close_shift_closes_any_open_shift() {
    let row = open_row(&open(5000));
    let current = summary(&row, &vec![], &vec![]);
    assert!(require_admin(&Some(SessionUser { id: 1, role: Role::Admin })).is_ok());
    let closing = admin_close_shift(
        CloseShiftRequest { shift_id: SHIFT_ID, counted_cash_minor: 5000, note: None },
        Some(current),
    )
    .expect("admin should force-close another user's open shift");
    let closed = summary(&closed_row(&row, &closing), &vec![], &vec![]);
    assert_eq!(closed.id, SHIFT_ID);
    assert_eq!(closed.user_id, CASHIER_ID);
    assert_eq!(closed.status, "closed");
    assert_eq!(closed.counted_cash_minor, Some(5000));
}

#[test]
fn admin_close_shift_rejects_already_closed_shift() {
    let row = open_row(&open(5000));
    let current = summary(&row, &vec![], &vec![]);
    let closing = close_shift_for_user(
        CASHIER_ID,
        CloseShiftRequest { shift_id: SHIFT_ID, counted_cash_minor: 5000, note: None },
        Some(current),
    )
    .expect("cashier's shift should close");
    let closed = summary(&closed_row(&row, &closing), &vec![], &vec![]);
    let error = admin_close_shift(
        CloseShiftRequest { shift_id: SHIFT_ID, counted_cash_minor: 5000, note: None },
        Some(closed),
    )
    .expect_err("admin should not force-close an already-closed shift");
    assert_eq!(error.code(), "not_found");
}

#[test]
fn shift_admin_close_rejected_for_cashier() {
    let error = require_admin(&Some(SessionUser { id: CASHIER_ID, role: Role::Cashier }))
        .expect_err("cashier should not force-close a shift");
    assert_eq!(error.code(), "forbidden");
}

#[test]
fn record_cash_movement_inserts_pay_in_and_pay_out_rows() {
    let row = open_row(&open(0));
    let current = summary(&row, &vec![], &vec![]);
    let pay_in = record_cash_movement(
        movement_request("pay_in", 5000, Some("Sitan novac")),
        Some(current.clone()),
    )
    .expect("pay_in should record");
    let pay_out = record_cash_movement(movement_request("pay_out", 2000, None), Some(current))
        .expect("pay_out should record");
    let rows = vec![pay_in, pay_out];
    let total_pay_in: i64 = rows.iter().filter(|w| w.movement_type == "pay_in").map(|w| w.amount_minor).sum();
    let total_pay_out: i64 = rows.iter().filter(|w| w.movement_type == "pay_out").map(|w| w.amount_minor).sum();
    assert!(rows.iter().all(|w| w.shift_id == SHIFT_ID));
    assert_eq!(rows.len(), 2);
    assert_eq!(total_pay_in, 5000);
    assert_eq!(total_pay_out, 2000);
    assert_eq!(rows[0].reason.as_deref(), Some("Sitan novac"));
}

#[test]
fn record_cash_movement_requires_open_shift() {
    let error = record_cash_movement(movement_request("pay_in", 5000, None), None)
        .expect_err("cash movement without an open shift should fail");
    assert_eq!(error.code(), "shift_required");
}

#[test]
fn record_cash_movement_rejects_non_positive_amount() {
    let current = summary(&open_row(&open(0)), &vec![], &vec![]);
    let error = record_cash_movement(movement_request("pay_in", 0, None), Some(current))
        .expect_err("non-positive amount should fail");
    assert_eq!(error.code(), "validation_error");
}

#[test]
fn record_cash_movement_rejects_unknown_direction() {
    let current = summary(&open_row(&open(0)), &vec![], &vec![]);
    let error = record_cash_movement(movement_request("refund", 1000, None), Some(current))
        .expect_err("unknown direction should fail");
    assert_eq!(error.code(), "validation_error");
}

#[test]
fn shift_summary_folds_cash_movements_into_expected_cash() {
    let row = open_row(&open(5000));
    let payments = vec![pay("cash", 1000), pay("card", 200)];
    let current = summary(&row, &payments, &vec![]);
    let pay_in = record_cash_movement(
        movement_request("pay_in", 3000, Some("Sitan novac")),
        Some(current.clone()),
    )
    .expect("pay_in should record");
    let pay_out = record_cash_movement(
        movement_request("pay_out", 1000, Some("Isplata dobavljaču")),
        Some(current),
    )
    .expect("pay_out should record");
    let s = summary(&row, &payments, &vec![movement(&pay_in), movement(&pay_out)]);
    assert_eq!(s.paid_in_minor, 3000);
    assert_eq!(s.paid_out_minor, 1000);
    assert_eq!(s.expected_cash_minor, 5000 + 1000 + 3000 - 1000);
}

#[test]
fn bank_movements_change_expected_cash_in_the_right_direction() {
    let row = open_row(&open(100_000));
    let current = summary(&row, &vec![], &vec![]);
    let withdrawal = record_cash_movement(
        CashMovementRequest {
            direction: "bank_withdrawal".to_string(),
            amount_minor: 20_000,
            reason: Some("Kusur".to_string()),
            bank_reference: Some("izvod-7".to_string()),
        },
        Some(current.clone()),
    )
    .expect("withdrawal should record");
    let deposit = record_cash_movement(
        CashMovementRequest {
            direction: "bank_deposit".to_string(),
            amount_minor: 50_000,
            reason: Some("Polog pazara".to_string()),
            bank_reference: Some("uplatnica-3".to_string()),
        },
        Some(current),
    )
    .expect("deposit should record");
    let s = summary(&row, &vec![], &vec![movement(&withdrawal), movement(&deposit)]);
    assert_eq!(
        s.expected_cash_minor,
        100_000 + 20_000 - 50_000,
        "podizanje sa računa puni kasu, polog je prazni"
    );
}

#[test]
fn close_shift_for_user_includes_cash_movements_in_expected_cash() {
    let row = open_row(&open(5000));
    let payments = vec![pay("cash", 1000), pay("card", 200)];
    let movements = pay_in_and_out(&summary(&row, &payments, &vec![]));
    let expected_cash_minor = 5000 + 1000 + 3000 - 1000;
    let closing = close_shift_for_user(
        CASHIER_ID,
        CloseShiftRequest { shift_id: SHIFT_ID, counted_cash_minor: expected_cash_minor, note: None },
        Some(summary(&row, &payments, &movements)),
    )
    .expect("shift should close");
    let closed = summary(&closed_row(&row, &closing), &payments, &movements);
    assert_eq!(closed.expected_cash_minor, expected_cash_minor);
    assert_eq!(closed.paid_in_minor, 3000);
    assert_eq!(closed.paid_out_minor, 1000);
    assert_eq!(closed.difference_minor, Some(0));
}

#[test]
fn admin_close_shift_includes_cash_movements_in_expected_cash() {
    let row = open_row(&open(5000));
    let payments = vec![pay("cash", 1000), pay("card", 200)];
    let movements = pay_in_and_out(&summary(&row, &payments, &vec![]));
    let expected_cash_minor = 5000 + 1000 + 3000 - 1000;
    let closing = admin_close_shift(
        CloseShiftRequest { shift_id: SHIFT_ID, counted_cash_minor: expected_cash_minor, note: None },
        Some(summary(&row, &payments, &movements)),
    )
    .expect("admin should force-close with movement-inclusive expected cash");
    let closed = summary(&closed_row(&row, &closing), &payments, &movements);
    assert_eq!(closed.expected_cash_minor, expected_cash_minor);
    assert_eq!(closed.difference_minor, Some(0));
}

// Further scenarios.

#[test]
fn a_negative_opening_float_is_refused() {
    let error = open_shift_for_user(CASHIER_ID, OpenShiftRequest { opening_cash_minor: -1, note: None }, false, Some(1))
        .expect_err("negative float");
    assert_eq!(error.code(), "validation_error");
}

#[test]
fn an_inactive_account_cannot_open_a_shift() {
    let error = open_shift_for_user(CASHIER_ID, OpenShiftRequest { opening_cash_minor: 0, note: None }, false, Some(0))
        .expect_err("inactive user");
    assert_eq!(error.code(), "unauthorized");
    assert!(ensure_active_user(None).is_err());
    assert!(ensure_active_user(Some(1)).is_ok());
}

#[test]
fn a_count_below_expected_shows_a_shortfall() {
    let row = open_row(&open(5000));
    let payments = vec![pay("cash", 2500)];
    let closing = close_shift_for_user(
        CASHIER_ID,
        CloseShiftRequest { shift_id: SHIFT_ID, counted_cash_minor: 7000, note: Some("  manjak  ".to_string()) },
        Some(summary(&row, &payments, &vec![])),
    )
    .expect("shift should close");
    assert_eq!(closing.expected_cash_minor, 7500);
    assert_eq!(closing.note.as_deref(), Some("manjak"));
    let closed = summary(&closed_row(&row, &closing), &payments, &vec![]);
    assert_eq!(closed.difference_minor, Some(-500));
}

#[test]
fn a_summary_of_another_shift_reads_as_not_found() {
    let row = open_row(&open(0));
    let current = summary(&row, &vec![], &vec![]);
    let error = close_shift_for_user(
        CASHIER_ID,
        CloseShiftRequest { shift_id: SHIFT_ID + 1, counted_cash_minor: 0, note: None },
        Some(current.clone()),
    )
    .expect_err("the summary is of another shift");
    assert_eq!(error.code(), "not_found");
    assert_eq!(error.message(), "Smena nije pronađena.");
    let error = admin_close_shift(
        CloseShiftRequest { shift_id: SHIFT_ID + 1, counted_cash_minor: 0, note: None },
        Some(current),
    )
    .expect_err("the summary is of another shift");
    assert_eq!(error.message(), "Smena nije pronađena.");
}

#[test]
fn another_users_shift_or_a_negative_count_cannot_be_closed() {
    let row = open_row(&open(0));
    let current = summary(&row, &vec![], &vec![]);
    let error = close_shift_for_user(
        CASHIER_ID + 1,
        CloseShiftRequest { shift_id: SHIFT_ID, counted_cash_minor: 0, note: None },
        Some(current.clone()),
    )
    .expect_err("foreign shift");
    assert_eq!(error.code(), "not_found");
    assert_eq!(error.message(), "Otvorena smena nije pronađena.");
    let error = close_shift_for_user(
        CASHIER_ID,
        CloseShiftRequest { shift_id: SHIFT_ID, counted_cash_minor: -1, note: None },
        Some(current),
    )
    .expect_err("negative count");
    assert_eq!(error.code(), "validation_error");
    let error = close_shift_for_user(
        CASHIER_ID,
        CloseShiftRequest { shift_id: SHIFT_ID, counted_cash_minor: 0, note: None },
        None,
    )
    .expect_err("missing shift");
    assert_eq!(error.message(), "Smena nije pronađena.");
}

#[test]
fn a_summary_that_does_not_fit_is_invalid_state() {
    let row = open_row(&open(i64::MAX));
    let error = shift_summary(row, &vec![pay("cash", 1)], &vec![]).expect_err("overflow");
    assert_eq!(error.code(), "invalid_state");
}

#[test]
fn notes_are_trimmed_and_blank_is_none_and_the_session_names_the_user() {
    assert_eq!(normalized_note(Some("  x ".to_string())), Some("x".to_string()));
    assert_eq!(normalized_note(Some("   ".to_string())), None);
    assert_eq!(normalized_note(None), None);
    assert_eq!(current_user_id(&Some(SessionUser { id: 9, role: Role::Cashier })).unwrap(), 9);
    assert_eq!(current_user_id(&None).unwrap_err().code(), "unauthorized");
}
