//! The two record tables: fixed-capacity arrays of versioned records, read
//! and written one slot at a time.
//!
//! A slot whose record has identity 0 is empty. A record is never changed in
//! place: a write replaces the slot's whole content in one store.

use vstd::prelude::*;
use crate::fence::memory_fence_release;
use crate::records::{
    blank_name, occupied_order, occupied_user, present_order, present_user, spec_empty_order,
    Order, User, ORDERS_CAP, USERS_CAP,
};

verus! {

/// The table of orders.
#[derive(Debug, Clone, Copy)]
pub struct OrderTable {
    slots: [Order; ORDERS_CAP],
}

/// The table of users.
#[derive(Debug, Clone, Copy)]
pub struct UserTable {
    slots: [User; USERS_CAP],
}

impl View for OrderTable {
    type V = Seq<Order>;

    closed spec fn view(&self) -> Seq<Order> {
        self.slots@
    }
}

impl View for UserTable {
    type V = Seq<User>;

    closed spec fn view(&self) -> Seq<User> {
        self.slots@
    }
}

/// The order that a reader finds at `index` of a table with content `slots`:
/// none outside the table, none in an empty slot.
pub open spec fn stored_order(slots: Seq<Order>, index: int) -> Option<Order> {
    if 0 <= index < slots.len() {
        present_order(slots[index])
    } else {
        None
    }
}

/// The user that a reader finds at `index` of a table with content `slots`:
/// none outside the table, none in an empty slot.
pub open spec fn stored_user(slots: Seq<User>, index: int) -> Option<User> {
    if 0 <= index < slots.len() {
        present_user(slots[index])
    } else {
        None
    }
}

/// The answer to a write at `index` of a table of `capacity` slots: a refusal
/// outside the table.
pub open spec fn write_result(index: usize, capacity: usize) -> Result<(), &'static str> {
    if index < capacity {
        Ok(())
    } else {
        Err("Index out of bounds")
    }
}

/// The content of the orders table after a write of `order` at `index`: the
/// slot holds `order` and every other slot is untouched; a write outside the
/// table changes nothing.
pub open spec fn orders_after_write(slots: Seq<Order>, index: usize, order: Order) -> Seq<Order> {
    if index < slots.len() {
        slots.update(index as int, order)
    } else {
        slots
    }
}

/// The content of the users table after a write of `user` at `index`: the
/// slot holds `user` and every other slot is untouched; a write outside the
/// table changes nothing.
pub open spec fn users_after_write(slots: Seq<User>, index: usize, user: User) -> Seq<User> {
    if index < slots.len() {
        slots.update(index as int, user)
    } else {
        slots
    }
}

impl OrderTable {
    /// The content of a table whose slots are all empty.
    pub open spec fn blank() -> Seq<Order> {
        Seq::new(ORDERS_CAP as nat, |i: int| spec_empty_order())
    }

    /// A table of `ORDERS_CAP` empty slots.
    pub fn new() -> (table: OrderTable)
        ensures
            table@ == OrderTable::blank(),
    {
        let table = OrderTable { slots: [Order::empty(); ORDERS_CAP] };
        assert(table@ =~= OrderTable::blank());
        table
    }

    /// The table always has `ORDERS_CAP` slots.
    pub proof fn lemma_len(&self)
        ensures
            self@.len() == ORDERS_CAP,
    {
    }

    /// The raw content of slot `index`, an empty slot included.
    pub fn load(&self, index: usize) -> (raw: Order)
        requires
            index < ORDERS_CAP,
        ensures
            raw == self@[index as int],
    {
        self.slots[index]
    }
}

impl UserTable {
    /// A table of `USERS_CAP` empty slots.
    pub fn new() -> (table: UserTable)
        ensures
            table@.len() == USERS_CAP,
            forall|i: int|
                0 <= i < USERS_CAP ==> (#[trigger] table@[i]).id == 0 && table@[i].version == 0
                    && table@[i].name@ == blank_name(),
    {
        UserTable { slots: [User::empty(); USERS_CAP] }
    }

    /// The table always has `USERS_CAP` slots.
    pub proof fn lemma_len(&self)
        ensures
            self@.len() == USERS_CAP,
    {
    }

    /// The raw content of slot `index`, an empty slot included.
    pub fn load(&self, index: usize) -> (raw: User)
        requires
            index < USERS_CAP,
        ensures
            raw == self@[index as int],
    {
        self.slots[index]
    }
}

/// Decides whether a write at `index` of a table of `capacity` slots goes
/// ahead.
pub fn check_slot(index: usize, capacity: usize) -> (result: Result<(), &'static str>)
    ensures
        result == write_result(index, capacity),
{
    if index >= capacity {
        Err("Index out of bounds")
    } else {
        Ok(())
    }
}

/// Reads the order at `index`. There is none outside the table and none in
/// an empty slot.
pub fn read_order(table: &OrderTable, index: usize) -> (record: Option<Order>)
    ensures
        record == stored_order(table@, index as int),
{
    if index >= ORDERS_CAP {
        return None;
    }
    occupied_order(table.slots[index])
}

/// Stores `order` at `index` as one whole value and releases the store. An
/// index outside the table is refused and the table stays as it was.
pub fn write_order(table: &mut OrderTable, index: usize, order: Order) -> (result: Result<
    (),
    &'static str,
>)
    ensures
        result == write_result(index, ORDERS_CAP),
        final(table)@ == orders_after_write(old(table)@, index, order),
        final(table)@.len() == ORDERS_CAP,
{
    if let Err(reason) = check_slot(index, ORDERS_CAP) {
        return Err(reason);
    }
    table.slots[index] = order;
    memory_fence_release();
    Ok(())
}

/// Reads the user at `index`. There is none outside the table and none in an
/// empty slot.
pub fn read_user(table: &UserTable, index: usize) -> (record: Option<User>)
    ensures
        record == stored_user(table@, index as int),
{
    if index >= USERS_CAP {
        return None;
    }
    occupied_user(table.slots[index])
}

/// Stores `user` at `index` as one whole value and releases the store. An
/// index outside the table is refused and the table stays as it was.
pub fn write_user(table: &mut UserTable, index: usize, user: User) -> (result: Result<
    (),
    &'static str,
>)
    ensures
        result == write_result(index, USERS_CAP),
        final(table)@ == users_after_write(old(table)@, index, user),
        final(table)@.len() == USERS_CAP,
{
    if let Err(reason) = check_slot(index, USERS_CAP) {
        return Err(reason);
    }
    table.slots[index] = user;
    memory_fence_release();
    Ok(())
}

/// An order that was written is the order that a read of its slot returns,
/// whole and under the version it was written with, and a read of any other
/// slot returns what it returned before. An order with identity 0 is left
/// out: it empties the slot.
pub proof fn order_read_follows_write(slots: Seq<Order>, index: usize, order: Order)
    requires
        index < slots.len(),
        order.id != 0,
    ensures
        stored_order(orders_after_write(slots, index, order), index as int) == Some(order),
        forall|other: int|
            other != index ==> stored_order(orders_after_write(slots, index, order), other)
                == stored_order(slots, other),
{
}

/// A user that was written is the user that a read of its slot returns,
/// whole and under the version it was written with, and a read of any other
/// slot returns what it returned before. A user with identity 0 is left out:
/// it empties the slot.
pub proof fn user_read_follows_write(slots: Seq<User>, index: usize, user: User)
    requires
        index < slots.len(),
        user.id != 0,
    ensures
        stored_user(users_after_write(slots, index, user), index as int) == Some(user),
        forall|other: int|
            other != index ==> stored_user(users_after_write(slots, index, user), other)
                == stored_user(slots, other),
{
}

/// A write of a record with identity 0 empties the slot.
pub proof fn write_of_empty_record_deletes(slots: Seq<Order>, index: usize, order: Order)
    requires
        index < slots.len(),
        order.id == 0,
    ensures
        stored_order(orders_after_write(slots, index, order), index as int) is None,
{
}

} // verus!
