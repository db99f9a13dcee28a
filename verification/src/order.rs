//! The order flow: create, read, list (optionally date-filtered),
//! partial update, and soft delete, all open to every authenticated
//! session.
use vstd::prelude::*;
use crate::clock::now_local;
use crate::errors::{is_entity_not_found, Error};
use crate::models::{
    OrderForCreate, OrderForUpdate, OrderListParams, OrderResponseBasic, Timestamp,
};
use crate::query::{lemma_orders_in_params_push, orders_in_params, order_matches_params};
use crate::respond::{
    basic_list_matches, basic_matches, order_and_items_into_response,
};
use crate::session::Session;
use crate::store::{
    lemma_live_orders_push, live_orders, merge_order, mark_deleted, new_order_row, Store,
};

verus! {

/// Creates an order owned by the session's identity, stamped with the
/// wall clock, with `deleted` and `paid` false; returns the assigned
/// key. Never fails.
pub fn create(session: Session, payload: OrderForCreate, store: &mut Store) -> (r: Result<
    i32,
    Error,
>)
    requires
        old(store).wf(),
        old(store).next_order_id < i32::MAX,
    ensures
        final(store).wf(),
        r == Ok::<i32, Error>(old(store).next_order_id),
        exists|t: Timestamp|
            t.wf() && final(store).orders@ == old(store).orders@.push(
                #[trigger] new_order_row(old(store).next_order_id, session.id_spec(), t, payload),
            ),
        final(store).items@ == old(store).items@,
        final(store).next_order_id == old(store).next_order_id + 1,
        final(store).next_item_id == old(store).next_item_id,
{
    let creator_id = session.id();
    let time_created = now_local();
    let id = store.create_order(creator_id, time_created, payload);
    proof {
        assert(store.orders@ == old(store).orders@.push(
            new_order_row(old(store).next_order_id, session.id_spec(), time_created, payload),
        ));
    }
    Ok(id)
}

/// Reads one order together with its visible items; a missing or
/// soft-deleted order is reported as not found.
pub fn read(session: Session, payload: i32, store: &Store) -> (r: Result<
    OrderResponseBasic,
    Error,
>)
    requires
        store.wf(),
    ensures
        match r {
            Ok(resp) => store.has_live_order(payload) && basic_matches(
                resp,
                store.order_with(payload),
                store.items@,
            ),
            Err(e) => !store.has_live_order(payload) && is_entity_not_found(e, "order"@, payload),
        },
{
    let row = match store.order_row(payload) {
        Some(o) => {
            if o.deleted {
                return Err(Error::SQLEntityNotFound { entity_type: "order", id: payload });
            }
            o.duplicate()
        },
        None => {
            return Err(Error::SQLEntityNotFound { entity_type: "order", id: payload });
        },
    };
    let items = store.live_items_for_order(row.id);
    Ok(order_and_items_into_response(row, items))
}

/// Lists every order that is not soft-deleted, ascending by key, each
/// joined with its visible items. Never fails.
pub fn list(session: Session, store: &Store) -> (r: Result<Vec<OrderResponseBasic>, Error>)
    requires
        store.wf(),
    ensures
        r matches Ok(v) && basic_list_matches(v@, live_orders(store.orders@), store.items@),
{
    let n = store.orders.len();
    let mut out: Vec<OrderResponseBasic> = Vec::new();
    let mut k: usize = 0;
    while k < n
        invariant
            store.wf(),
            n == store.orders@.len(),
            k <= n,
            basic_list_matches(out@, live_orders(store.orders@.take(k as int)), store.items@),
        decreases n - k,
    {
        proof {
            assert(store.orders@.take(k as int + 1) =~= store.orders@.take(k as int).push(
                store.orders@[k as int],
            ));
            lemma_live_orders_push(store.orders@.take(k as int), store.orders@[k as int]);
        }
        let o = &store.orders[k];
        if !o.deleted {
            let items = store.live_items_for_order(o.id);
            let resp = order_and_items_into_response(o.duplicate(), items);
            out.push(resp);
        }
        k += 1;
    }
    proof {
        assert(store.orders@.take(n as int) =~= store.orders@);
    }
    Ok(out)
}

/// Lists the orders that are not soft-deleted and whose creation date
/// lies within the caller's optional inclusive bounds, ascending by
/// key, each joined with its visible items. Never fails.
pub fn list_with_params(session: Session, params: OrderListParams, store: &Store) -> (r: Result<
    Vec<OrderResponseBasic>,
    Error,
>)
    requires
        store.wf(),
    ensures
        r matches Ok(v) && basic_list_matches(
            v@,
            orders_in_params(store.orders@, params),
            store.items@,
        ),
{
    let n = store.orders.len();
    let mut out: Vec<OrderResponseBasic> = Vec::new();
    let mut k: usize = 0;
    while k < n
        invariant
            store.wf(),
            n == store.orders@.len(),
            k <= n,
            basic_list_matches(
                out@,
                orders_in_params(store.orders@.take(k as int), params),
                store.items@,
            ),
        decreases n - k,
    {
        proof {
            assert(store.orders@.take(k as int + 1) =~= store.orders@.take(k as int).push(
                store.orders@[k as int],
            ));
            lemma_orders_in_params_push(
                store.orders@.take(k as int),
                params,
                store.orders@[k as int],
            );
        }
        let o = &store.orders[k];
        if order_matches_params(o, &params) {
            let items = store.live_items_for_order(o.id);
            let resp = order_and_items_into_response(o.duplicate(), items);
            out.push(resp);
        }
        k += 1;
    }
    proof {
        assert(store.orders@.take(n as int) =~= store.orders@);
    }
    Ok(out)
}

/// Applies a coalescing partial update to an order: a supplied
/// receiver or note replaces the stored one, an omitted field keeps
/// its stored value. Matches the row whether or not it is
/// soft-deleted; fails exactly when the key matches no row.
pub fn update(_session: Session, id: i32, payload: OrderForUpdate, store: &mut Store) -> (r:
    Result<(), Error>)
    requires
        old(store).wf(),
    ensures
        final(store).wf(),
        match r {
            Ok(_) => {
                &&& old(store).has_order(id)
                &&& final(store).orders@ == old(store).orders@.update(
                    old(store).order_index(id),
                    merge_order(old(store).order_with(id), payload),
                )
                &&& final(store).items@ == old(store).items@
                &&& final(store).next_order_id == old(store).next_order_id
                &&& final(store).next_item_id == old(store).next_item_id
            },
            Err(e) => {
                &&& !old(store).has_order(id)
                &&& *final(store) == *old(store)
                &&& is_entity_not_found(e, "order"@, id)
            },
        },
{
    store.update_order(id, payload)
}

/// Soft-deletes an order: its deletion flag is set whatever it was
/// before, so repeating the call succeeds again. Fails exactly when
/// the key matches no row.
pub fn delete(_session: Session, id: i32, store: &mut Store) -> (r: Result<(), Error>)
    requires
        old(store).wf(),
    ensures
        final(store).wf(),
        match r {
            Ok(_) => {
                &&& old(store).has_order(id)
                &&& final(store).orders@ == old(store).orders@.update(
                    old(store).order_index(id),
                    mark_deleted(old(store).order_with(id)),
                )
                &&& final(store).items@ == old(store).items@
                &&& final(store).next_order_id == old(store).next_order_id
                &&& final(store).next_item_id == old(store).next_item_id
            },
            Err(e) => {
                &&& !old(store).has_order(id)
                &&& *final(store) == *old(store)
                &&& is_entity_not_found(e, "order"@, id)
            },
        },
{
    store.soft_delete_order(id)
}

} // verus!
