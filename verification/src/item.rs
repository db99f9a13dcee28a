//! The item flow: create under a parent order, list by parent,
//! partial update, and soft delete, all open to every authenticated
//! session.
use vstd::prelude::*;
use crate::clock::now_local;
use crate::errors::{is_entity_not_found, Error};
use crate::models::{Item, ItemForCreate, ItemForUpdate, Timestamp};
use crate::session::Session;
use crate::store::{live_items_of, mark_item_deleted, merge_item, new_item_row, Store};

verus! {

/// Creates an item under `order_id`, owned by the session's identity,
/// stamped with the wall clock, with `deleted` and `checked` false;
/// returns the assigned key. The parent key is taken as given. Never
/// fails.
pub fn create(session: Session, item_fc: ItemForCreate, order_id: i32, store: &mut Store) -> (r:
    Result<i32, Error>)
    requires
        old(store).wf(),
        old(store).next_item_id < i32::MAX,
    ensures
        final(store).wf(),
        r == Ok::<i32, Error>(old(store).next_item_id),
        exists|t: Timestamp|
            t.wf() && final(store).items@ == old(store).items@.push(
                #[trigger] new_item_row(
                    old(store).next_item_id,
                    order_id,
                    session.id_spec(),
                    t,
                    item_fc,
                ),
            ),
        final(store).orders@ == old(store).orders@,
        final(store).next_item_id == old(store).next_item_id + 1,
        final(store).next_order_id == old(store).next_order_id,
{
    let creator_id = session.id();
    let time_created = now_local();
    let id = store.create_item(order_id, creator_id, time_created, item_fc);
    proof {
        assert(store.items@ == old(store).items@.push(
            new_item_row(
                old(store).next_item_id,
                order_id,
                session.id_spec(),
                time_created,
                item_fc,
            ),
        ));
    }
    Ok(id)
}

/// Lists the items under `order_id` that are not soft-deleted,
/// ascending by key. Never fails.
pub fn read_where_order_id(_session: Session, order_id: i32, store: &Store) -> (r: Result<
    Vec<Item>,
    Error,
>)
    requires
        store.wf(),
    ensures
        r matches Ok(v) && v@ == live_items_of(store.items@, order_id),
{
    Ok(store.live_items_for_order(order_id))
}

/// Applies a coalescing partial update to an item: each supplied
/// field replaces the stored one, an omitted field keeps its stored
/// value. Fails exactly when the key matches no row.
pub fn update(_session: Session, item_id: i32, payload: ItemForUpdate, store: &mut Store) -> (r:
    Result<(), Error>)
    requires
        old(store).wf(),
    ensures
        final(store).wf(),
        match r {
            Ok(_) => {
                &&& old(store).has_item(item_id)
                &&& final(store).items@ == old(store).items@.update(
                    old(store).item_index(item_id),
                    merge_item(old(store).item_with(item_id), payload),
                )
                &&& final(store).orders@ == old(store).orders@
                &&& final(store).next_order_id == old(store).next_order_id
                &&& final(store).next_item_id == old(store).next_item_id
            },
            Err(e) => {
                &&& !old(store).has_item(item_id)
                &&& *final(store) == *old(store)
                &&& is_entity_not_found(e, "item"@, item_id)
            },
        },
{
    store.update_item(item_id, payload)
}

/// Soft-deletes an item: its deletion flag is set whatever it was
/// before. Fails exactly when the key matches no row.
pub fn delete(_session: Session, item_id: i32, store: &mut Store) -> (r: Result<(), Error>)
    requires
        old(store).wf(),
    ensures
        final(store).wf(),
        match r {
            Ok(_) => {
                &&& old(store).has_item(item_id)
                &&& final(store).items@ == old(store).items@.update(
                    old(store).item_index(item_id),
                    mark_item_deleted(old(store).item_with(item_id)),
                )
                &&& final(store).orders@ == old(store).orders@
                &&& final(store).next_order_id == old(store).next_order_id
                &&& final(store).next_item_id == old(store).next_item_id
            },
            Err(e) => {
                &&& !old(store).has_item(item_id)
                &&& *final(store) == *old(store)
                &&& is_entity_not_found(e, "item"@, item_id)
            },
        },
{
    store.soft_delete_item(item_id)
}

} // verus!
