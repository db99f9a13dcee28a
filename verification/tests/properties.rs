use order_core::admin;
use order_core::errors::Error;
use order_core::item;
use order_core::models::{
    Date, ItemForCreate, ItemForUpdate, OrderForCreate, OrderForUpdate, OrderListParams,
    Privileges, Timestamp,
};
use order_core::order;
use order_core::session::Session;
use order_core::store::Store;

fn basic() -> Session {
    Session::new(1, Privileges::Basic)
}

fn full() -> Session {
    Session::new(2, Privileges::Full)
}

fn ts(year: i32, month: u32, day: u32) -> Timestamp {
    Timestamp { date: Date { year, month, day }, secs: 0 }
}

fn order_fc(receiver: &str) -> OrderForCreate {
    OrderForCreate { receiver: receiver.to_owned(), additional_info: None }
}

#[test]
fn create_read_round_trip() {
    let mut store = Store::new();
    let id = order::create(basic(), order_fc("Eryk"), &mut store).unwrap();

    let basic_view = order::read(basic(), id, &store).unwrap();
    assert_eq!(basic_view.receiver, "Eryk");
    assert_eq!(basic_view.additional_info, None);
    assert_eq!(basic_view.items.len(), 0);

    let full_view = admin::read(full(), id, &store).unwrap();
    assert_eq!(full_view.deleted, false);
    assert_eq!(full_view.paid, false);
    assert_eq!(full_view.receiver, "Eryk");
    assert_eq!(full_view.additional_info, None);
}

#[test]
fn soft_delete_hides_from_list() {
    let mut store = Store::new();
    let id1 = order::create(basic(), order_fc("Eryk"), &mut store).unwrap();
    let id2 = order::create(basic(), order_fc("Eryk"), &mut store).unwrap();
    let id3 = order::create(basic(), order_fc("Eryk"), &mut store).unwrap();

    order::delete(basic(), id2, &mut store).unwrap();

    let listing = order::list(basic(), &store).unwrap();
    assert_eq!(listing.len(), 2);
    assert_eq!(listing[0].id, id1);
    assert_eq!(listing[1].id, id3);

    let read = order::read(basic(), id2, &store);
    assert_eq!(read.unwrap_err(), Error::SQLEntityNotFound { entity_type: "order", id: id2 });
}

#[test]
fn partial_update_preserves_omitted_fields() {
    let mut store = Store::new();
    let id = order::create(basic(), order_fc("Eryk"), &mut store).unwrap();

    let payload = OrderForUpdate { receiver: None, additional_info: Some("Actually".to_owned()) };
    order::update(basic(), id, payload, &mut store).unwrap();

    let read = order::read(basic(), id, &store).unwrap();
    assert_eq!(read.receiver, "Eryk");
    assert_eq!(read.additional_info, Some("Actually".to_owned()));
}

#[test]
fn date_filter_inclusive_bounds() {
    let mut store = Store::new();
    for day in [4, 5, 6, 7, 8] {
        store.create_order(0, ts(2005, 5, day), order_fc("Eryk"));
    }

    let from_day5 = OrderListParams {
        date_start: Some(Date { year: 2005, month: 5, day: 5 }),
        date_end: None,
    };
    assert_eq!(order::list_with_params(basic(), from_day5, &store).unwrap().len(), 4);

    let until_day5 = OrderListParams {
        date_start: None,
        date_end: Some(Date { year: 2005, month: 5, day: 5 }),
    };
    assert_eq!(order::list_with_params(basic(), until_day5, &store).unwrap().len(), 2);

    let day5_to_day7 = OrderListParams {
        date_start: Some(Date { year: 2005, month: 5, day: 5 }),
        date_end: Some(Date { year: 2005, month: 5, day: 7 }),
    };
    assert_eq!(order::list_with_params(basic(), day5_to_day7, &store).unwrap().len(), 3);
}

#[test]
fn privilege_gate() {
    let mut store = Store::new();
    let id = order::create(basic(), order_fc("Eryk"), &mut store).unwrap();

    assert!(matches!(admin::list(basic(), &store), Err(Error::AuthNoAccess)));
    assert!(matches!(admin::read(basic(), id, &store), Err(Error::AuthNoAccess)));
    assert!(matches!(admin::pay(basic(), id, true, &mut store), Err(Error::AuthNoAccess)));

    assert!(admin::list(full(), &store).is_ok());
    assert!(admin::read(full(), id, &store).is_ok());
    assert!(admin::pay(full(), id, true, &mut store).is_ok());
}

#[test]
fn parent_child_join() {
    let mut store = Store::new();
    let order_a = order::create(basic(), order_fc("Eryk"), &mut store).unwrap();
    let order_b = order::create(basic(), order_fc("Eryk"), &mut store).unwrap();

    let fc = ItemForCreate {
        quantity: "1".to_owned(),
        name: "klej".to_owned(),
        value: 100,
        additional_info: None,
    };
    let first = item::create(basic(), fc.clone(), order_a, &mut store).unwrap();
    let second = item::create(basic(), fc, order_a, &mut store).unwrap();

    let read_a = order::read(basic(), order_a, &store).unwrap();
    assert_eq!(read_a.items.len(), 2);
    assert_eq!(read_a.items[0].id, first);
    assert_eq!(read_a.items[1].id, second);

    let read_b = order::read(basic(), order_b, &store).unwrap();
    assert_eq!(read_b.items.len(), 0);
}

#[test]
fn not_found_on_unmatched_update_and_delete() {
    let mut store = Store::new();

    let order_payload = OrderForUpdate { receiver: None, additional_info: None };
    assert_eq!(
        order::update(basic(), 41, order_payload, &mut store).unwrap_err(),
        Error::SQLEntityNotFound { entity_type: "order", id: 41 }
    );
    assert_eq!(
        order::delete(basic(), 42, &mut store).unwrap_err(),
        Error::SQLEntityNotFound { entity_type: "order", id: 42 }
    );

    let item_payload = ItemForUpdate {
        quantity: None,
        name: None,
        value: None,
        additional_info: None,
        checked: None,
    };
    assert_eq!(
        item::update(basic(), 43, item_payload, &mut store).unwrap_err(),
        Error::SQLEntityNotFound { entity_type: "item", id: 43 }
    );
    assert_eq!(
        item::delete(basic(), 44, &mut store).unwrap_err(),
        Error::SQLEntityNotFound { entity_type: "item", id: 44 }
    );
}

#[test]
fn response_shape_asymmetry() {
    let mut store = Store::new();
    let id = order::create(basic(), order_fc("Eryk"), &mut store).unwrap();
    let fc = ItemForCreate {
        quantity: "1".to_owned(),
        name: "klej".to_owned(),
        value: 100,
        additional_info: None,
    };
    item::create(basic(), fc, id, &mut store).unwrap();

    // The basic shape carries no creator, deletion or payment fields;
    // the full shape exposes all of them, and its items keep their
    // deletion flags.
    let basic_view = order::read(basic(), id, &store).unwrap();
    let full_view = admin::read(full(), id, &store).unwrap();

    assert_eq!(basic_view.id, full_view.id);
    assert_eq!(basic_view.receiver, full_view.receiver);
    assert_eq!(full_view.creator_id, basic().id());
    assert_eq!(full_view.deleted, false);
    assert_eq!(full_view.paid, false);
    assert_eq!(full_view.items[0].deleted, false);
    assert_eq!(basic_view.items[0].checked, false);
}

#[test]
fn created_rows_carry_a_calendar_timestamp() {
    let mut store = Store::new();
    order::create(basic(), order_fc("Eryk"), &mut store).unwrap();
    let t = store.orders[0].time_created;
    assert!((1..=12).contains(&t.date.month));
    assert!((1..=31).contains(&t.date.day));
    assert!(t.secs < 86400);
}

#[test]
fn soft_delete_is_a_flag_flip_and_repeatable() {
    let mut store = Store::new();
    let id = order::create(basic(), order_fc("Eryk"), &mut store).unwrap();

    order::delete(basic(), id, &mut store).unwrap();
    // the statement has no deleted=false guard: deleting again still
    // matches the row and succeeds
    order::delete(basic(), id, &mut store).unwrap();

    let shown = admin::read(full(), id, &store).unwrap();
    assert!(shown.deleted);
}
