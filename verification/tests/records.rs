use sync_module::records::{
    handle_error, occupied_order, occupied_user, op_to_string, Order, User, ERROR_CODE,
    EV_OP_DELETE, EV_OP_UPSERT, ORDERS_CAP, TABLE_ID_ORDERS, TABLE_ID_USERS, USERS_CAP,
};

#[test]
fn test_op_to_string() {
    assert_eq!(op_to_string(EV_OP_UPSERT), "UPSERT");
    assert_eq!(op_to_string(EV_OP_DELETE), "DELETE");
    assert_eq!(op_to_string(99), "UNKNOWN");
}

#[test]
fn op_code_zero_is_unknown() {
    assert_eq!(op_to_string(0), "UNKNOWN");
    assert_eq!(op_to_string(3), "UNKNOWN");
    assert_eq!(op_to_string(255), "UNKNOWN");
}

#[test]
fn codes_and_capacities() {
    assert_eq!(TABLE_ID_ORDERS, 1);
    assert_eq!(TABLE_ID_USERS, 2);
    assert_eq!(EV_OP_UPSERT, 1);
    assert_eq!(EV_OP_DELETE, 2);
    assert_eq!(ORDERS_CAP, 128);
    assert_eq!(USERS_CAP, 64);
}

#[test]
fn empty_records_read_as_absent() {
    assert_eq!(Order::empty(), Order { id: 0, version: 0, qty: 0, price_cents: 0 });
    assert_eq!(occupied_order(Order::empty()), None);
    assert_eq!(User::empty(), User { id: 0, version: 0, name: [0u8; 32] });
    assert_eq!(occupied_user(User::empty()), None);
}

#[test]
fn identity_zero_hides_the_rest_of_the_record() {
    let order = Order { id: 0, version: 9, qty: 3, price_cents: 100 };
    assert_eq!(occupied_order(order), None);
    let user = User { id: 0, version: 9, name: [b'x'; 32] };
    assert_eq!(occupied_user(user), None);
}

#[test]
fn occupied_records_come_back_whole() {
    let order = Order { id: 8000, version: 2, qty: -5, price_cents: 12345 };
    assert_eq!(occupied_order(order), Some(order));
    let user = User { id: 1, version: 0, name: [0u8; 32] };
    assert_eq!(occupied_user(user), Some(user));
}

#[test]
fn every_error_is_reported_as_minus_one() {
    assert_eq!(ERROR_CODE, -1);
    assert_eq!(handle_error("Index out of bounds"), -1);
    assert_eq!(handle_error(""), -1);
}
