use order_core::errors::Error;
use order_core::models::{Date, OrderForCreate, OrderForUpdate, OrderListParams, Privileges, Timestamp};
use order_core::order;
use order_core::session::Session;
use order_core::store::Store;

fn basic() -> Session {
    Session::new(1, Privileges::Basic)
}

fn ts(year: i32, month: u32, day: u32) -> Timestamp {
    Timestamp { date: Date { year, month, day }, secs: 0 }
}

fn order_fc(receiver: &str) -> OrderForCreate {
    OrderForCreate { receiver: receiver.to_owned(), additional_info: None }
}

#[test]
fn order_create() {
    let mut store = Store::new();
    let id = order::create(basic(), order_fc("tomek"), &mut store).unwrap();
    assert_eq!(id, 1); // first db item id should be 1

    let order = &store.orders[0];
    assert_eq!(order.id, id);
    assert_eq!(order.receiver, "tomek");
    assert_eq!(order.creator_id, basic().id());
    assert!(!order.deleted);
    assert!(!order.paid);
}

#[test]
fn order_order_read() {
    let mut store = Store::new();
    let item_fc = order_core::models::ItemForCreate {
        quantity: "1".to_owned(),
        name: "1".to_owned(),
        value: 1,
        additional_info: None,
    };
    let id1 = order_core::item::create(basic(), item_fc.clone(), 1, &mut store).unwrap();
    let _id2 = order_core::item::create(basic(), item_fc, 1, &mut store).unwrap();

    let order_id_1 = order::create(basic(), order_fc("tomek"), &mut store).unwrap();
    let order_id_2 = order::create(basic(), order_fc("tomek"), &mut store).unwrap();

    assert_eq!(order_id_1, 1); // first_item should have id of 1
    assert_eq!(order_id_2, 2);

    let order1 = order::read(basic(), order_id_1, &store).unwrap();
    let order2 = order::read(basic(), order_id_2, &store).unwrap();

    assert_eq!(order1.id, order_id_1);
    assert_eq!(order1.items.len(), 2);
    assert_eq!(order2.items.len(), 0);
    assert_eq!(order1.items[0].id, id1);
    assert_eq!(order1.receiver, "tomek");

    // a row already soft-deleted is not readable
    let deleted_id = store.create_order(0, ts(1970, 1, 1), order_fc("tomek"));
    store.soft_delete_order(deleted_id).unwrap();

    let should_err = order::read(basic(), deleted_id, &store);
    assert_eq!(
        should_err.unwrap_err(),
        Error::SQLEntityNotFound { entity_type: "order", id: deleted_id }
    );
}

#[test]
fn order_read_not_found() {
    let store = Store::new();
    let result = order::read(basic(), 0, &store);
    assert_eq!(result.unwrap_err(), Error::SQLEntityNotFound { entity_type: "order", id: 0 });
}

#[test]
fn order_order_list() {
    let mut store = Store::new();
    let empty = order::list(basic(), &store).unwrap();
    assert_eq!(empty.len(), 0);

    let order_id_1 = order::create(basic(), order_fc("tomek"), &mut store).unwrap();
    let one = order::list(basic(), &store).unwrap();
    assert_eq!(one.len(), 1);
    assert_eq!(one[0].id, order_id_1);

    let order_id_2 = order::create(basic(), order_fc("tomek"), &mut store).unwrap();
    let both = order::list(basic(), &store).unwrap();
    assert_eq!(both.len(), 2);
    assert_eq!(both[1].id, order_id_2);
}

#[test]
fn order_list_deleted() {
    let mut store = Store::new();
    let _order_id_1 = order::create(basic(), order_fc("tomek"), &mut store).unwrap();
    let order_id_2 = order::create(basic(), order_fc("tomek"), &mut store).unwrap();
    let _order_id_3 = order::create(basic(), order_fc("tomek"), &mut store).unwrap();
    let vec = order::list(basic(), &store).unwrap();
    assert_eq!(vec.len(), 3);

    order::delete(basic(), order_id_2, &mut store).unwrap();

    let vec = order::list(basic(), &store).unwrap();
    assert_eq!(vec.len(), 2);
}

#[test]
fn order_list_with_date_start() {
    let mut store = Store::new();
    store.create_order(0, ts(2005, 5, 4), order_fc("tomek"));
    store.create_order(0, ts(2005, 5, 5), order_fc("tomek"));
    store.create_order(0, ts(2005, 5, 6), order_fc("tomek"));

    let params_all = OrderListParams {
        date_start: Some(Date { year: 2005, month: 5, day: 2 }),
        date_end: None,
    };
    let all = order::list_with_params(basic(), params_all, &store).unwrap();
    assert_eq!(all.len(), 3);

    let params_middle = OrderListParams {
        date_start: Some(Date { year: 2005, month: 5, day: 5 }),
        date_end: None,
    };
    let middle = order::list_with_params(basic(), params_middle, &store).unwrap();
    assert_eq!(middle.len(), 2);

    let params_none = OrderListParams {
        date_start: Some(Date { year: 2005, month: 5, day: 8 }),
        date_end: None,
    };
    let none = order::list_with_params(basic(), params_none, &store).unwrap();
    assert_eq!(none.len(), 0);
}

#[test]
fn order_list_with_date_end() {
    let mut store = Store::new();
    store.create_order(0, ts(2005, 5, 4), order_fc("tomek"));
    store.create_order(0, ts(2005, 5, 5), order_fc("tomek"));
    store.create_order(0, ts(2005, 5, 6), order_fc("tomek"));

    let params_all = OrderListParams {
        date_start: None,
        date_end: Some(Date { year: 2008, month: 1, day: 1 }),
    };
    let all = order::list_with_params(basic(), params_all, &store).unwrap();
    assert_eq!(all.len(), 3);

    let params_middle = OrderListParams {
        date_start: None,
        date_end: Some(Date { year: 2005, month: 5, day: 5 }),
    };
    let middle = order::list_with_params(basic(), params_middle, &store).unwrap();
    assert_eq!(middle.len(), 2);

    let params_none = OrderListParams {
        date_start: None,
        date_end: Some(Date { year: 2005, month: 5, day: 2 }),
    };
    let none = order::list_with_params(basic(), params_none, &store).unwrap();
    assert_eq!(none.len(), 0);
}

#[test]
fn order_list_with_date() {
    let mut store = Store::new();
    store.create_order(0, ts(2005, 5, 4), order_fc("tomek"));
    store.create_order(0, ts(2005, 5, 5), order_fc("tomek"));
    store.create_order(0, ts(2005, 5, 6), order_fc("tomek"));
    store.create_order(0, ts(2005, 5, 7), order_fc("tomek"));
    store.create_order(0, ts(2005, 5, 8), order_fc("tomek"));

    let params_three = OrderListParams {
        date_start: Some(Date { year: 2005, month: 5, day: 5 }),
        date_end: Some(Date { year: 2005, month: 5, day: 7 }),
    };
    let three = order::list_with_params(basic(), params_three, &store).unwrap();
    assert_eq!(three.len(), 3);
}

#[test]
fn order_update_not_found() {
    let mut store = Store::new();
    let orderfu = OrderForUpdate { receiver: None, additional_info: None };
    let should_err = order::update(basic(), 0, orderfu, &mut store);
    assert_eq!(should_err.unwrap_err(), Error::SQLEntityNotFound { entity_type: "order", id: 0 });
}

#[test]
fn order_update() {
    let mut store = Store::new();
    let id = order::create(basic(), order_fc("tomek"), &mut store).unwrap();

    let fetched = order::read(basic(), id, &store).unwrap();
    assert_eq!(fetched.additional_info, None);

    let order_fu = OrderForUpdate { receiver: None, additional_info: Some("Actually".to_owned()) };
    order::update(basic(), id, order_fu, &mut store).unwrap();

    let fetched = order::read(basic(), id, &store).unwrap();
    assert_eq!(fetched.additional_info, Some("Actually".to_owned()));
}

#[test]
fn order_delete_not_found() {
    let mut store = Store::new();
    let should_err = order::delete(basic(), 0, &mut store);
    assert_eq!(should_err.unwrap_err(), Error::SQLEntityNotFound { entity_type: "order", id: 0 });
}

#[test]
fn order_delete() {
    let mut store = Store::new();
    let id = order::create(basic(), order_fc("tomek"), &mut store).unwrap();

    let fetched = order::read(basic(), id, &store).unwrap();
    assert_eq!(fetched.additional_info, None);

    order::delete(basic(), id, &mut store).unwrap();

    let list = order::list(basic(), &store).unwrap();
    assert_eq!(list.len(), 0);

    let get = order::read(basic(), id, &store);
    assert_eq!(get.unwrap_err(), Error::SQLEntityNotFound { entity_type: "order", id });
}

#[test]
fn order_helper_mapper() {
    // order_and_items_into_response
    let epoch = ts(1970, 1, 1);
    let fx_order = order_core::models::Order {
        id: 0,
        creator_id: 1,
        time_created: epoch,
        receiver: "wujek".to_owned(),
        additional_info: Some("Actually info".to_owned()),
        deleted: true,
        paid: false,
    };
    let fx_item1 = order_core::models::Item {
        id: 1,
        order_id: 1,
        creator_id: 1,
        time_created: epoch,
        quantity: "1".to_owned(),
        name: "1".to_owned(),
        value: 1,
        additional_info: None,
        deleted: true,
        checked: false,
    };
    let fx_item2 = order_core::models::Item {
        id: 2,
        order_id: 2,
        creator_id: 2,
        time_created: epoch,
        quantity: "2".to_owned(),
        name: "2".to_owned(),
        value: 2,
        additional_info: None,
        deleted: true,
        checked: false,
    };

    let output =
        order_core::respond::order_and_items_into_response(fx_order, vec![fx_item1, fx_item2]);
    assert_eq!(output.id, 0);
    assert_eq!(output.time_created, epoch);
    assert_eq!(output.receiver, "wujek");
    assert_eq!(output.items[0].id, 1);
    assert_eq!(output.items[1].id, 2);
    assert_eq!(output.items[0].quantity, "1");
    assert_eq!(output.items[1].quantity, "2");
}
