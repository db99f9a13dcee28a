use order_core::errors::Error;
use order_core::item;
use order_core::models::{ItemForCreate, ItemForUpdate, Privileges};
use order_core::session::Session;
use order_core::store::Store;

fn basic() -> Session {
    Session::new(1, Privileges::Basic)
}

fn item_fc(name: &str) -> ItemForCreate {
    ItemForCreate {
        quantity: "15kg".to_owned(),
        name: name.to_owned(),
        value: 13000,
        additional_info: None,
    }
}

#[test]
fn item_create() {
    let mut store = Store::new();
    let id = item::create(basic(), item_fc("bejca"), 0, &mut store).unwrap();
    assert_eq!(id, 1); // on empty db first item should have 1 id

    let item = store.items.iter().find(|it| it.id == id);
    assert!(item.is_some());
    let found_id = item.unwrap().id;
    assert_eq!(found_id, id);
}

#[test]
fn item_delete() {
    let mut store = Store::new();
    let id = item::create(basic(), item_fc("bejca"), 0, &mut store).unwrap();

    let item = store.items.iter().find(|it| it.id == id).unwrap();
    assert!(!item.deleted);

    item::delete(basic(), id, &mut store).unwrap();

    let item = store.items.iter().find(|it| it.id == id).unwrap();
    assert!(item.deleted);
}

#[test]
fn item_delete_entity_not_found() {
    let mut store = Store::new();
    let id = 4;
    let result = item::delete(basic(), id, &mut store);
    assert_eq!(result, Err(Error::SQLEntityNotFound { entity_type: "item", id }));
}

#[test]
fn item_read_where_order_id() {
    let mut store = Store::new();
    let names = ["bejca", "lakier", "klej"];

    let id1_order1 = item::create(basic(), item_fc(names[0]), 1, &mut store).unwrap();
    let id2_order1 = item::create(basic(), item_fc(names[1]), 1, &mut store).unwrap();
    let id3_order2 = item::create(basic(), item_fc(names[2]), 2, &mut store).unwrap();

    let res = item::read_where_order_id(basic(), 1, &store).unwrap();
    assert_eq!(res.len(), 2);
    assert_eq!(res[0].id, id1_order1);
    assert_eq!(res[1].id, id2_order1);

    let res = item::read_where_order_id(basic(), 2, &store).unwrap();
    assert_eq!(res.len(), 1);
    assert_eq!(res[0].id, id3_order2);
}

#[test]
fn item_update_not_found() {
    let mut store = Store::new();
    let payload = ItemForUpdate {
        quantity: None,
        name: None,
        value: None,
        additional_info: None,
        checked: None,
    };
    let result = item::update(basic(), 9, payload, &mut store);
    assert_eq!(result, Err(Error::SQLEntityNotFound { entity_type: "item", id: 9 }));
}

#[test]
fn item_update_checked_only() {
    let mut store = Store::new();
    let id = item::create(basic(), item_fc("bejca"), 1, &mut store).unwrap();
    let payload = ItemForUpdate {
        quantity: None,
        name: None,
        value: None,
        additional_info: None,
        checked: Some(true),
    };
    item::update(basic(), id, payload, &mut store).unwrap();

    let item = store.items.iter().find(|it| it.id == id).unwrap();
    assert!(item.checked);
    // omitted fields kept their stored values
    assert_eq!(item.quantity, "15kg");
    assert_eq!(item.name, "bejca");
    assert_eq!(item.value, 13000);
    assert_eq!(item.additional_info, None);
}
