use std::collections::HashMap;

use conslist::validation::{
    decimal_string, find_user, process_order, process_order_advanced, validate, validate_all,
    validate_orders_correct, validate_user, Order, OrderError, User, UserDatabase,
    AMOUNT_LIMIT_CENTS,
};

fn order(user_id: u32, amount_cents: u64, status: &str) -> Order {
    Order { user_id, amount_cents, status: status.to_string() }
}

fn registry() -> UserDatabase {
    let mut db = UserDatabase::new();
    db.insert(1, User::new(1, "John Doe", "john@example.com"));
    db.insert(2, User::new(2, "Jane Smith", "jane@example.com"));
    db.insert(3, User::new(3, "Invalid User", "invalid-email"));
    db
}

#[test]
fn find_user_present_and_absent() {
    let db = registry();
    let u = find_user(&db, 1).expect("user 1 is registered");
    assert_eq!(u.id, 1);
    assert_eq!(u.name, "John Doe");
    assert_eq!(u.email, "john@example.com");
    assert!(find_user(&db, 4).is_none());
}

#[test]
fn validate_user_accepts_wellformed_email() {
    let u = User::new(1, "John Doe", "john@example.com");
    let v = validate_user(&u).expect("email holds an @");
    assert_eq!(v.id, 1);
}

#[test]
fn validate_user_rejects_missing_at_sign() {
    let u = User::new(3, "Invalid User", "invalid-email");
    let m = validate_user(&u).expect_err("email holds no @");
    assert_eq!(m, "Invalid email for user Invalid User");
}

#[test]
fn process_order_success_pairs_user_and_order() {
    let db = registry();
    let o = order(1, 9999, "completed");
    let (u, back) = process_order(&db, &o).expect("order 1 is valid");
    assert_eq!(u.id, 1);
    assert_eq!(back.amount_cents, 9999);
}

#[test]
fn process_order_unknown_user_message() {
    let db = registry();
    let o = order(4, 19999, "shipped");
    let m = process_order(&db, &o).expect_err("user 4 is not registered");
    assert_eq!(m, "User 4 not found");
}

#[test]
fn process_order_bad_email_message() {
    let db = registry();
    let o = order(3, 7999, "processing");
    let m = process_order(&db, &o).expect_err("user 3 has a bad email");
    assert_eq!(m, "Invalid email for user Invalid User");
}

#[test]
fn validate_reports_missing_user() {
    let db = registry();
    let o = order(4, 500, "pending");
    match validate(&db, &o) {
        Err(OrderError::UserNotFound(id)) => assert_eq!(id, 4),
        other => panic!("expected UserNotFound, got {:?}", other.is_ok()),
    }
}

#[test]
fn validate_short_circuits_on_invalid_email() {
    // User 3's email is invalid; the amount check is never reached, so the
    // error is InvalidUser even though the amount alone would pass.
    let db = registry();
    let o = order(3, 1000, "pending");
    match validate(&db, &o) {
        Err(OrderError::InvalidUser(name)) => assert_eq!(name, "Invalid User"),
        other => panic!("expected InvalidUser, got {:?}", other.is_ok()),
    }
}

#[test]
fn validate_shape_check_masks_ceiling() {
    // Both the email and the amount are bad: the earlier check wins.
    let db = registry();
    let o = order(3, AMOUNT_LIMIT_CENTS + 1, "pending");
    match validate(&db, &o) {
        Err(OrderError::InvalidUser(name)) => assert_eq!(name, "Invalid User"),
        other => panic!("expected InvalidUser, got {:?}", other.is_ok()),
    }
}

#[test]
fn validate_reports_payment_failure_above_ceiling() {
    let db = registry();
    let o = order(1, AMOUNT_LIMIT_CENTS + 1, "pending");
    match validate(&db, &o) {
        Err(OrderError::PaymentFailed(reason)) => assert_eq!(reason, "Amount too large"),
        other => panic!("expected PaymentFailed, got {:?}", other.is_ok()),
    }
}

#[test]
fn validate_accepts_amount_at_ceiling() {
    let db = registry();
    let o = order(2, AMOUNT_LIMIT_CENTS, "pending");
    let v = validate(&db, &o).expect("the ceiling itself is allowed");
    assert_eq!(v.user.id, 2);
    assert_eq!(v.order.amount_cents, AMOUNT_LIMIT_CENTS);
}

#[test]
fn process_order_advanced_success_message() {
    let db = registry();
    let o = order(1, 9999, "completed");
    let m = process_order_advanced(&db, &o).expect("order 1 is valid");
    assert_eq!(m, "Order processed for John Doe");
}

#[test]
fn error_messages_render() {
    assert_eq!(OrderError::UserNotFound(4).message(), "User 4 not found");
    assert_eq!(
        OrderError::InvalidUser("John Doe".to_string()).message(),
        "Invalid user: John Doe"
    );
    assert_eq!(
        OrderError::PaymentFailed("Amount too large".to_string()).message(),
        "Payment failed: Amount too large"
    );
}

#[test]
fn decimal_string_renders_exactly() {
    assert_eq!(decimal_string(0), "0");
    assert_eq!(decimal_string(7), "7");
    assert_eq!(decimal_string(42), "42");
    assert_eq!(decimal_string(100000), "100000");
    assert_eq!(decimal_string(u32::MAX), "4294967295");
}

#[test]
fn validate_all_fail_fast_on_missing_user() {
    // Orders: valid, valid, missing-user, valid. The batch stops at the
    // third order; the fourth (which would fail the ceiling) is never
    // evaluated and the reported error is the lookup miss.
    let db = registry();
    let orders = vec![
        order(1, 9999, "completed"),
        order(2, 14999, "pending"),
        order(4, 19999, "shipped"),
        order(1, AMOUNT_LIMIT_CENTS + 1, "pending"),
    ];
    match validate_all(&db, &orders) {
        Err(OrderError::UserNotFound(id)) => assert_eq!(id, 4),
        other => panic!("expected UserNotFound, got {:?}", other.is_ok()),
    }
}

#[test]
fn validate_all_preserves_input_order() {
    let db = registry();
    let orders = vec![
        order(2, 100, "a"),
        order(1, 200, "b"),
        order(2, 300, "c"),
    ];
    let validated = validate_all(&db, &orders).expect("all orders are valid");
    assert_eq!(validated.len(), 3);
    assert_eq!(validated[0].user.id, 2);
    assert_eq!(validated[0].order.amount_cents, 100);
    assert_eq!(validated[1].user.id, 1);
    assert_eq!(validated[1].order.amount_cents, 200);
    assert_eq!(validated[2].user.id, 2);
    assert_eq!(validated[2].order.amount_cents, 300);
}

#[test]
fn validate_all_concrete_scenario() {
    // Registry {1: John, 2: Jane}; orders for 99.99 and 149.99 (in cents).
    let mut db = UserDatabase::new();
    db.insert(1, User::new(1, "John", "john@x.com"));
    db.insert(2, User::new(2, "Jane", "jane@x.com"));
    let orders = vec![order(1, 9999, "completed"), order(2, 14999, "pending")];
    let validated = validate_all(&db, &orders).expect("both orders are valid");
    assert_eq!(validated.len(), 2);
    assert_eq!(validated[0].user.name, "John");
    assert_eq!(validated[0].order.amount_cents, 9999);
    assert_eq!(validated[1].user.name, "Jane");
    assert_eq!(validated[1].order.amount_cents, 14999);
}

#[test]
fn validate_all_empty_batch_succeeds() {
    let db = registry();
    let orders: Vec<Order> = Vec::new();
    let validated = validate_all(&db, &orders).expect("an empty batch has no failure");
    assert!(validated.is_empty());
}

#[test]
fn validate_orders_correct_returns_borrowed_orders() {
    let db = registry();
    let orders = vec![order(1, 9999, "completed"), order(2, 14999, "pending")];
    let valid = validate_orders_correct(&db, &orders).expect("both orders pass");
    assert_eq!(valid.len(), 2);
    assert_eq!(valid[0].user_id, 1);
    assert_eq!(valid[1].user_id, 2);
}

#[test]
fn validate_orders_correct_fail_fast_message() {
    let db = registry();
    let orders = vec![
        order(1, 9999, "completed"),
        order(4, 19999, "shipped"),
        order(2, 14999, "pending"),
    ];
    let m = validate_orders_correct(&db, &orders).expect_err("user 4 is missing");
    assert_eq!(m, "User 4 not found");
}
