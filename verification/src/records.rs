//! Record and event values exchanged with the host, and the codes that tag them.

use vstd::prelude::*;

verus! {

/// Table identifier of the orders table.
pub const TABLE_ID_ORDERS: u8 = 1;

/// Table identifier of the users table.
pub const TABLE_ID_USERS: u8 = 2;

/// Operation code of an insert-or-update.
pub const EV_OP_UPSERT: u8 = 1;

/// Operation code of a removal.
pub const EV_OP_DELETE: u8 = 2;

/// Code under which a failure is reported to the host.
pub const ERROR_CODE: i32 = -1;

/// Number of slots in the orders table.
pub const ORDERS_CAP: usize = 128;

/// Number of slots in the users table.
pub const USERS_CAP: usize = 64;

/// Width in bytes of the name field of a user record.
pub const USER_NAME_LEN: usize = 32;

/// A versioned order. An `id` of 0 marks an empty slot. The price is held in
/// cents.
#[derive(Debug, Clone, Copy, PartialEq, Eq, Structural)]
pub struct Order {
    pub id: u64,
    pub version: u32,
    pub qty: i32,
    pub price_cents: u32,
}

/// A versioned user. An `id` of 0 marks an empty slot. The name is a
/// NUL-terminated byte field.
#[derive(Debug, Clone, Copy, PartialEq, Eq)]
pub struct User {
    pub id: u64,
    pub version: u32,
    pub name: [u8; 32],
}

/// A change notification: which table, which slot, what happened, and the
/// record's version at that moment.
#[derive(Debug, Clone, Copy, PartialEq, Eq, Structural)]
pub struct Event {
    pub table_id: u8,
    pub index: u16,
    pub op: u8,
    pub version: u32,
}

/// The name under which an operation code is reported.
pub open spec fn op_name(op: u8) -> Seq<char> {
    if op == EV_OP_UPSERT {
        "UPSERT"@
    } else if op == EV_OP_DELETE {
        "DELETE"@
    } else {
        "UNKNOWN"@
    }
}

/// Names an operation code: `UPSERT`, `DELETE`, and `UNKNOWN` for any other code.
pub fn op_to_string(op: u8) -> (name: &'static str)
    ensures
        name@ == op_name(op),
{
    if op == EV_OP_UPSERT {
        "UPSERT"
    } else if op == EV_OP_DELETE {
        "DELETE"
    } else {
        "UNKNOWN"
    }
}

/// The order that marks a slot as empty.
pub open spec fn spec_empty_order() -> Order {
    Order { id: 0, version: 0, qty: 0, price_cents: 0 }
}

/// The bytes of a name field that holds the empty name.
pub open spec fn blank_name() -> Seq<u8> {
    Seq::new(32, |i: int| 0u8)
}

impl Order {
    /// An order with every field zero, which reads as an empty slot.
    pub fn empty() -> (order: Order)
        ensures
            order == spec_empty_order(),
    {
        Order { id: 0, version: 0, qty: 0, price_cents: 0 }
    }
}

impl User {
    /// A user with every field zero, which reads as an empty slot.
    pub fn empty() -> (user: User)
        ensures
            user.id == 0,
            user.version == 0,
            user.name@ == blank_name(),
    {
        User { id: 0, version: 0, name: [0u8; 32] }
    }
}

/// The record that a slot holding `raw` presents to a reader: nothing when
/// the identity is the empty sentinel.
pub open spec fn present_order(raw: Order) -> Option<Order> {
    if raw.id == 0 {
        None
    } else {
        Some(raw)
    }
}

/// The record that a slot holding `raw` presents to a reader: nothing when
/// the identity is the empty sentinel.
pub open spec fn present_user(raw: User) -> Option<User> {
    if raw.id == 0 {
        None
    } else {
        Some(raw)
    }
}

/// Hides the content of an empty slot.
pub fn occupied_order(raw: Order) -> (record: Option<Order>)
    ensures
        record == present_order(raw),
{
    if raw.id == 0 {
        None
    } else {
        Some(raw)
    }
}

/// Hides the content of an empty slot.
pub fn occupied_user(raw: User) -> (record: Option<User>)
    ensures
        record == present_user(raw),
{
    if raw.id == 0 {
        None
    } else {
        Some(raw)
    }
}

/// The code under which `err` is reported to the host. Every failure is
/// reported under the same code; the text is for the log.
pub fn handle_error(err: &str) -> (code: i32)
    ensures
        code == ERROR_CODE,
{
    ERROR_CODE
}

} // verus!
