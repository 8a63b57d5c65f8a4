use sync_module::records::{Order, User, ORDERS_CAP, USERS_CAP};
use sync_module::store::{
    check_slot, read_order, read_user, write_order, write_user, OrderTable, UserTable,
};

fn sample_order(id: u64, version: u32) -> Order {
    Order { id, version, qty: 7, price_cents: 10050 }
}

fn sample_user(id: u64, version: u32) -> User {
    let mut name = [0u8; 32];
    name[0] = b'u';
    User { id, version, name }
}

#[test]
fn new_tables_are_empty() {
    let orders = OrderTable::new();
    for i in 0..ORDERS_CAP {
        assert_eq!(read_order(&orders, i), None);
        assert_eq!(orders.load(i), Order::empty());
    }
    let users = UserTable::new();
    for i in 0..USERS_CAP {
        assert_eq!(read_user(&users, i), None);
        assert_eq!(users.load(i), User::empty());
    }
}

#[test]
fn order_written_is_order_read_at_every_slot() {
    let mut orders = OrderTable::new();
    for i in 0..ORDERS_CAP {
        let order = sample_order(1 + i as u64, 10 + i as u32);
        assert_eq!(write_order(&mut orders, i, order), Ok(()));
        assert_eq!(read_order(&orders, i), Some(order));
        assert_eq!(read_order(&orders, i).unwrap().version, 10 + i as u32);
    }
    for i in 0..ORDERS_CAP {
        assert_eq!(read_order(&orders, i), Some(sample_order(1 + i as u64, 10 + i as u32)));
    }
}

#[test]
fn user_written_is_user_read_at_every_slot() {
    let mut users = UserTable::new();
    for i in 0..USERS_CAP {
        let user = sample_user(1 + i as u64, i as u32);
        assert_eq!(write_user(&mut users, i, user), Ok(()));
        assert_eq!(read_user(&users, i), Some(user));
    }
}

#[test]
fn write_leaves_other_slots_alone() {
    let mut orders = OrderTable::new();
    write_order(&mut orders, 3, sample_order(30, 1)).unwrap();
    write_order(&mut orders, 4, sample_order(40, 1)).unwrap();
    write_order(&mut orders, 3, sample_order(31, 2)).unwrap();
    assert_eq!(read_order(&orders, 3), Some(sample_order(31, 2)));
    assert_eq!(read_order(&orders, 4), Some(sample_order(40, 1)));
    assert_eq!(read_order(&orders, 2), None);
    assert_eq!(read_order(&orders, 5), None);
}

#[test]
fn write_outside_the_orders_table_is_refused() {
    let mut orders = OrderTable::new();
    assert_eq!(write_order(&mut orders, ORDERS_CAP, sample_order(1, 1)), Err("Index out of bounds"));
    assert_eq!(write_order(&mut orders, usize::MAX, sample_order(1, 1)), Err("Index out of bounds"));
    for i in 0..ORDERS_CAP {
        assert_eq!(orders.load(i), Order::empty());
    }
    assert_eq!(write_order(&mut orders, ORDERS_CAP - 1, sample_order(1, 1)), Ok(()));
}

#[test]
fn write_outside_the_users_table_is_refused() {
    let mut users = UserTable::new();
    assert_eq!(write_user(&mut users, USERS_CAP, sample_user(1, 1)), Err("Index out of bounds"));
    assert_eq!(write_user(&mut users, 127, sample_user(1, 1)), Err("Index out of bounds"));
    for i in 0..USERS_CAP {
        assert_eq!(users.load(i), User::empty());
    }
    assert_eq!(write_user(&mut users, USERS_CAP - 1, sample_user(1, 1)), Ok(()));
}

#[test]
fn read_outside_the_table_finds_nothing() {
    let mut orders = OrderTable::new();
    write_order(&mut orders, 127, sample_order(5, 5)).unwrap();
    assert_eq!(read_order(&orders, 128), None);
    assert_eq!(read_order(&orders, usize::MAX), None);
    let users = UserTable::new();
    assert_eq!(read_user(&users, 64), None);
    assert_eq!(read_user(&users, usize::MAX), None);
}

#[test]
fn record_with_identity_zero_empties_the_slot() {
    let mut orders = OrderTable::new();
    write_order(&mut orders, 9, sample_order(77, 3)).unwrap();
    let tombstone = Order { id: 0, version: 4, qty: 0, price_cents: 0 };
    assert_eq!(write_order(&mut orders, 9, tombstone), Ok(()));
    assert_eq!(read_order(&orders, 9), None);
    assert_eq!(orders.load(9), tombstone);
}

#[test]
fn slot_check_refuses_from_the_capacity_on() {
    assert_eq!(check_slot(0, 128), Ok(()));
    assert_eq!(check_slot(127, 128), Ok(()));
    assert_eq!(check_slot(128, 128), Err("Index out of bounds"));
    assert_eq!(check_slot(63, 64), Ok(()));
    assert_eq!(check_slot(64, 64), Err("Index out of bounds"));
    assert_eq!(check_slot(0, 0), Err("Index out of bounds"));
}
