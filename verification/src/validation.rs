//! Fallible order validation built from option/result composition.
//!
//! A read-only registry maps numeric user ids to [`User`] records. A
//! single [`Order`] is admitted only if its user exists, that user's email
//! is well-shaped, and the amount is under the ceiling; the checks run in
//! that order and stop at the first failure. Batch validation applies the
//! same pipeline to every order in input order and fails fast on the
//! first error.

use std::collections::HashMap;
use vstd::prelude::*;
use vstd::string::*;

verus! {

broadcast use vstd::std_specs::hash::group_hash_axioms;

/// A registered user: unique numeric id, display name, and email address.
#[derive(Debug, Clone)]
pub struct User {
    pub id: u32,
    pub name: String,
    pub email: String,
}

impl User {
    pub fn new(id: u32, name: &str, email: &str) -> (u: User)
        ensures
            u.id == id,
            u.name@ == name@,
            u.email@ == email@,
    {
        User { id, name: name.to_owned(), email: email.to_owned() }
    }
}

/// An order as handed to validation: a reference into the registry by
/// user id, the charged amount, and a status label. The amount is kept in
/// whole cents so that the ceiling check is exact integer arithmetic.
#[derive(Debug, Clone)]
pub struct Order {
    pub user_id: u32,
    pub amount_cents: u64,
    pub status: String,
}

/// The read-only user registry, keyed by the unique numeric id.
pub type UserDatabase = HashMap<u32, User>;

/// A user's email is well-shaped when it contains an `@` somewhere.
pub open spec fn email_ok(email: Seq<char>) -> bool {
    exists|i: int| 0 <= i < email.len() && email[i] == '@'
}

/// Looks a user up by id; `None` exactly when the registry has no entry.
pub fn find_user<'a>(db: &'a UserDatabase, id: u32) -> (r: Option<&'a User>)
    ensures
        match r {
            Some(u) => db@.contains_key(id) && *u == db@[id],
            None => !db@.contains_key(id),
        },
{
    db.get(&id)
}

/// The character for one decimal digit.
pub open spec fn digit_char(d: nat) -> char {
    if d == 0 {
        '0'
    } else if d == 1 {
        '1'
    } else if d == 2 {
        '2'
    } else if d == 3 {
        '3'
    } else if d == 4 {
        '4'
    } else if d == 5 {
        '5'
    } else if d == 6 {
        '6'
    } else if d == 7 {
        '7'
    } else if d == 8 {
        '8'
    } else {
        '9'
    }
}

/// The decimal numeral of `n`, most significant digit first, with no
/// leading zeros (the numeral of zero is the single digit `0`).
pub open spec fn decimal(n: nat) -> Seq<char>
    decreases n,
{
    if n < 10 {
        seq![digit_char(n)]
    } else {
        decimal(n / 10).push(digit_char(n % 10))
    }
}

/// The single-character string for one decimal digit.
fn digit_str(d: u32) -> (r: &'static str)
    requires
        d < 10,
    ensures
        r@ == seq![digit_char(d as nat)],
{
    proof {
        reveal_strlit("0");
        reveal_strlit("1");
        reveal_strlit("2");
        reveal_strlit("3");
        reveal_strlit("4");
        reveal_strlit("5");
        reveal_strlit("6");
        reveal_strlit("7");
        reveal_strlit("8");
        reveal_strlit("9");
    }
    match d {
        0 => "0",
        1 => "1",
        2 => "2",
        3 => "3",
        4 => "4",
        5 => "5",
        6 => "6",
        7 => "7",
        8 => "8",
        _ => "9",
    }
}

/// Renders `n` as its decimal numeral.
pub fn decimal_string(n: u32) -> (r: String)
    ensures
        r@ == decimal(n as nat),
    decreases n,
{
    if n < 10 {
        digit_str(n).to_owned()
    } else {
        let mut s = decimal_string(n / 10);
        s.append(digit_str(n % 10));
        proof {
            assert(decimal(n as nat) =~= decimal((n / 10) as nat) + seq![
                digit_char((n % 10) as nat),
            ]);
        }
        s
    }
}

/// Whether `s` contains the character `'@'`.
fn contains_at_sign(s: &str) -> (r: bool)
    ensures
        r == email_ok(s@),
{
    let n: usize = s.unicode_len();
    let mut i: usize = 0;
    while i < n
        invariant
            n == s@.len(),
            0 <= i <= n,
            forall|j: int| 0 <= j < i ==> s@[j] != '@',
        decreases n - i,
    {
        if s.get_char(i) == '@' {
            return true;
        }
        i = i + 1;
    }
    false
}

/// The message reported when an order references an unknown user id.
pub open spec fn user_not_found_msg(id: u32) -> Seq<char> {
    "User "@ + decimal(id as nat) + " not found"@
}

/// The message reported when a found user fails the email shape check.
pub open spec fn invalid_email_msg(name: Seq<char>) -> Seq<char> {
    "Invalid email for user "@ + name
}

/// Checks the user's shape: the email must contain an `@`. On failure the
/// error carries a message naming the user.
pub fn validate_user<'a>(user: &'a User) -> (r: Result<&'a User, String>)
    ensures
        match r {
            Ok(u) => email_ok(user.email@) && *u == *user,
            Err(m) => !email_ok(user.email@) && m@ == invalid_email_msg(user.name@),
        },
{
    if contains_at_sign(user.email.as_str()) {
        Ok(user)
    } else {
        let mut m = "Invalid email for user ".to_owned();
        m.append(user.name.as_str());
        Err(m)
    }
}

/// A user both present in the registry and of valid shape; what the
/// message-typed pipeline checks (the amount ceiling is not part of it).
pub open spec fn order_referenced(db: Map<u32, User>, order: Order) -> bool {
    db.contains_key(order.user_id) && email_ok(db[order.user_id].email@)
}

/// Chains lookup and shape check: missing user or bad email fails with a
/// message, otherwise the borrowed user/order pair is returned.
pub fn process_order<'a>(db: &'a UserDatabase, order: &'a Order) -> (r: Result<
    (&'a User, &'a Order),
    String,
>)
    ensures
        match r {
            Ok((u, o)) => order_referenced(db@, *order) && *u == db@[order.user_id] && *o
                == *order,
            Err(m) => !order_referenced(db@, *order) && (if !db@.contains_key(order.user_id) {
                m@ == user_not_found_msg(order.user_id)
            } else {
                m@ == invalid_email_msg(db@[order.user_id].name@)
            }),
        },
{
    let user = match find_user(db, order.user_id) {
        Some(u) => u,
        None => {
            let mut m = "User ".to_owned();
            m.append(decimal_string(order.user_id).as_str());
            m.append(" not found");
            return Err(m);
        },
    };
    match validate_user(user) {
        Ok(validated_user) => Ok((validated_user, order)),
        Err(m) => Err(m),
    }
}

/// The closed set of ways an order can fail validation, carried as data
/// rather than unwound: a lookup miss, a shape failure on a found user,
/// or a business-rule violation on otherwise-valid data.
#[derive(Debug)]
pub enum OrderError {
    UserNotFound(u32),
    InvalidUser(String),
    PaymentFailed(String),
}

/// The human-readable rendering of each error case.
pub open spec fn error_message(e: OrderError) -> Seq<char> {
    match e {
        OrderError::UserNotFound(id) => "User "@ + decimal(id as nat) + " not found"@,
        OrderError::InvalidUser(name) => "Invalid user: "@ + name@,
        OrderError::PaymentFailed(reason) => "Payment failed: "@ + reason@,
    }
}

impl OrderError {
    /// Reconstructs the message for this error; the caller decides how to
    /// display it.
    pub fn message(&self) -> (r: String)
        ensures
            r@ == error_message(*self),
    {
        match self {
            OrderError::UserNotFound(id) => {
                let mut m = "User ".to_owned();
                m.append(decimal_string(*id).as_str());
                m.append(" not found");
                m
            },
            OrderError::InvalidUser(name) => {
                let mut m = "Invalid user: ".to_owned();
                m.append(name.as_str());
                m
            },
            OrderError::PaymentFailed(reason) => {
                let mut m = "Payment failed: ".to_owned();
                m.append(reason.as_str());
                m
            },
        }
    }
}

/// The amount ceiling, in cents: orders strictly above it are refused.
pub const AMOUNT_LIMIT_CENTS: u64 = 100000;

/// An order the full pipeline admits: its user exists, that user's email
/// is well-shaped, and the amount is within the ceiling.
pub open spec fn order_admissible(db: Map<u32, User>, order: Order) -> bool {
    &&& db.contains_key(order.user_id)
    &&& email_ok(db[order.user_id].email@)
    &&& order.amount_cents <= AMOUNT_LIMIT_CENTS
}

/// The one error the pipeline reports for an inadmissible order: the
/// checks run in lookup, shape, ceiling order and stop at the first
/// failure, so an earlier failure masks every later one.
pub open spec fn order_error_for(db: Map<u32, User>, order: Order, e: OrderError) -> bool {
    if !db.contains_key(order.user_id) {
        e == OrderError::UserNotFound(order.user_id)
    } else if !email_ok(db[order.user_id].email@) {
        e matches OrderError::InvalidUser(name) && name@ == db[order.user_id].name@
    } else if order.amount_cents > AMOUNT_LIMIT_CENTS {
        e matches OrderError::PaymentFailed(reason) && reason@ == "Amount too large"@
    } else {
        false
    }
}

/// Produced only after every check of the pipeline passed: the registry
/// user the order references and the order itself, both borrowed from
/// their owning collections.
#[derive(Debug)]
pub struct ValidatedOrder<'a> {
    pub user: &'a User,
    pub order: &'a Order,
}

/// The validation pipeline on one order: user lookup, email shape check,
/// then the amount ceiling, stopping at the first failure. Succeeds on
/// exactly the admissible orders and classifies every failure.
pub fn validate<'a>(db: &'a UserDatabase, order: &'a Order) -> (r: Result<
    ValidatedOrder<'a>,
    OrderError,
>)
    ensures
        match r {
            Ok(v) => order_admissible(db@, *order) && *v.user == db@[order.user_id] && *v.order
                == *order,
            Err(e) => !order_admissible(db@, *order) && order_error_for(db@, *order, e),
        },
{
    let user = match find_user(db, order.user_id) {
        Some(u) => u,
        None => {
            return Err(OrderError::UserNotFound(order.user_id));
        },
    };
    if !contains_at_sign(user.email.as_str()) {
        return Err(OrderError::InvalidUser(user.name.clone()));
    }
    if order.amount_cents > AMOUNT_LIMIT_CENTS {
        return Err(OrderError::PaymentFailed("Amount too large".to_owned()));
    }
    Ok(ValidatedOrder { user, order })
}

/// The message a fully processed order reports.
pub open spec fn order_processed_msg(name: Seq<char>) -> Seq<char> {
    "Order processed for "@ + name
}

/// The full pipeline with a typed error and a confirmation message on
/// success, naming the user the order was processed for.
pub fn process_order_advanced(db: &UserDatabase, order: &Order) -> (r: Result<String, OrderError>)
    ensures
        match r {
            Ok(m) => order_admissible(db@, *order) && m@ == order_processed_msg(
                db@[order.user_id].name@,
            ),
            Err(e) => !order_admissible(db@, *order) && order_error_for(db@, *order, e),
        },
{
    match validate(db, order) {
        Ok(v) => {
            let mut m = "Order processed for ".to_owned();
            m.append(v.user.name.as_str());
            Ok(m)
        },
        Err(e) => Err(e),
    }
}

/// The batch validator: applies [`validate`] to each order in input
/// order. On full success the validated pairs come back in exactly the
/// input order; on the first failure the batch aborts and reports that
/// single classified error, and no later order is evaluated (fail-fast,
/// all-or-nothing: no partial success set is returned).
pub fn validate_all<'a>(db: &'a UserDatabase, orders: &'a Vec<Order>) -> (r: Result<
    Vec<ValidatedOrder<'a>>,
    OrderError,
>)
    ensures
        match r {
            Ok(v) => {
                &&& forall|i: int| 0 <= i < orders@.len() ==> order_admissible(db@, orders@[i])
                &&& v@.len() == orders@.len()
                &&& forall|i: int|
                    0 <= i < v@.len() ==> *v@[i].user == db@[orders@[i].user_id] && *v@[i].order
                        == orders@[i]
            },
            Err(e) => exists|j: int|
                {
                    &&& 0 <= j < orders@.len()
                    &&& forall|i: int| 0 <= i < j ==> order_admissible(db@, orders@[i])
                    &&& !order_admissible(db@, #[trigger] orders@[j])
                    &&& order_error_for(db@, orders@[j], e)
                },
        },
{
    let mut validated: Vec<ValidatedOrder<'a>> = Vec::new();
    let mut idx: usize = 0;
    while idx < orders.len()
        invariant
            0 <= idx <= orders@.len(),
            validated@.len() == idx,
            forall|i: int| 0 <= i < idx ==> order_admissible(db@, orders@[i]),
            forall|i: int|
                0 <= i < idx ==> *validated@[i].user == db@[orders@[i].user_id]
                    && *validated@[i].order == orders@[i],
        decreases orders@.len() - idx,
    {
        match validate(db, &orders[idx]) {
            Ok(v) => {
                validated.push(v);
            },
            Err(e) => {
                proof {
                    let j: int = idx as int;
                    assert({
                        &&& 0 <= j < orders@.len()
                        &&& forall|i: int| 0 <= i < j ==> order_admissible(db@, orders@[i])
                        &&& !order_admissible(db@, orders@[j])
                        &&& order_error_for(db@, orders@[j], e)
                    });
                }
                return Err(e);
            },
        }
        idx = idx + 1;
    }
    Ok(validated)
}

/// The message-typed batch check: runs [`process_order`] over the orders
/// in input order, collecting a borrow of each order that passed, and
/// fail-fast returns the first message on a miss or a badly-shaped user
/// (the amount ceiling is not part of this chain).
pub fn validate_orders_correct<'a>(db: &'a UserDatabase, orders: &'a Vec<Order>) -> (r: Result<
    Vec<&'a Order>,
    String,
>)
    ensures
        match r {
            Ok(v) => {
                &&& forall|i: int| 0 <= i < orders@.len() ==> order_referenced(db@, orders@[i])
                &&& v@.len() == orders@.len()
                &&& forall|i: int| 0 <= i < v@.len() ==> *v@[i] == orders@[i]
            },
            Err(m) => exists|j: int|
                {
                    &&& 0 <= j < orders@.len()
                    &&& forall|i: int| 0 <= i < j ==> order_referenced(db@, orders@[i])
                    &&& !order_referenced(db@, #[trigger] orders@[j])
                    &&& (if !db@.contains_key(orders@[j].user_id) {
                        m@ == user_not_found_msg(orders@[j].user_id)
                    } else {
                        m@ == invalid_email_msg(db@[orders@[j].user_id].name@)
                    })
                },
        },
{
    let mut valid_orders: Vec<&'a Order> = Vec::new();
    let mut idx: usize = 0;
    while idx < orders.len()
        invariant
            0 <= idx <= orders@.len(),
            valid_orders@.len() == idx,
            forall|i: int| 0 <= i < idx ==> order_referenced(db@, orders@[i]),
            forall|i: int| 0 <= i < idx ==> *valid_orders@[i] == orders@[i],
        decreases orders@.len() - idx,
    {
        let order = &orders[idx];
        match process_order(db, order) {
            Ok(_) => {
                valid_orders.push(order);
            },
            Err(m) => {
                proof {
                    let j: int = idx as int;
                    assert({
                        &&& 0 <= j < orders@.len()
                        &&& forall|i: int| 0 <= i < j ==> order_referenced(db@, orders@[i])
                        &&& !order_referenced(db@, orders@[j])
                        &&& (if !db@.contains_key(orders@[j].user_id) {
                            m@ == user_not_found_msg(orders@[j].user_id)
                        } else {
                            m@ == invalid_email_msg(db@[orders@[j].user_id].name@)
                        })
                    });
                }
                return Err(m);
            },
        }
        idx = idx + 1;
    }
    Ok(valid_orders)
}

} // verus!
