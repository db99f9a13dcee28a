//! The privileged flow: listing and reading orders with soft-deleted
//! rows and every field included, marking an order paid, and hard
//! deletion. Each operation is gated on the `Full` tier before any
//! store access.
use vstd::prelude::*;
use crate::errors::{is_entity_not_found, Error};
use crate::models::OrderResponseFull;
use crate::policy::{allows, authorize, Operation};
use crate::respond::{full_list_matches, full_matches, order_and_items_into_full_response};
use crate::session::Session;
use crate::store::{with_paid, Store};

verus! {

/// Lists every order row, soft-deleted ones included, ascending by
/// key, each joined with all its items in the full shape. Denied to
/// the `Basic` tier before the store is touched.
pub fn list(session: Session, store: &Store) -> (r: Result<Vec<OrderResponseFull>, Error>)
    requires
        store.wf(),
    ensures
        allows(session.privileges_spec(), Operation::AdminListOrders) ==> (r matches Ok(v)
            && full_list_matches(v@, store.orders@, store.items@)),
        !allows(session.privileges_spec(), Operation::AdminListOrders) ==> r == Err::<
            Vec<OrderResponseFull>,
            Error,
        >(Error::AuthNoAccess),
{
    if let Err(e) = authorize(session.privileges(), Operation::AdminListOrders) {
        return Err(e);
    }
    let n = store.orders.len();
    let mut out: Vec<OrderResponseFull> = Vec::new();
    let mut k: usize = 0;
    while k < n
        invariant
            store.wf(),
            n == store.orders@.len(),
            k <= n,
            out@.len() == k,
            forall|m: int|
                0 <= m < k ==> full_matches(#[trigger] out@[m], store.orders@[m], store.items@),
        decreases n - k,
    {
        let o = &store.orders[k];
        let items = store.items_for_order(o.id);
        let resp = order_and_items_into_full_response(o.duplicate(), items);
        out.push(resp);
        k += 1;
    }
    Ok(out)
}

/// Reads one order in the full shape, found whether or not it is
/// soft-deleted, joined with all its items. Denied to the `Basic`
/// tier; otherwise fails exactly when the key matches no row.
pub fn read(session: Session, order_id: i32, store: &Store) -> (r: Result<
    OrderResponseFull,
    Error,
>)
    requires
        store.wf(),
    ensures
        !allows(session.privileges_spec(), Operation::AdminReadOrder) ==> r == Err::<
            OrderResponseFull,
            Error,
        >(Error::AuthNoAccess),
        allows(session.privileges_spec(), Operation::AdminReadOrder) ==> match r {
            Ok(resp) => store.has_order(order_id) && full_matches(
                resp,
                store.order_with(order_id),
                store.items@,
            ),
            Err(e) => !store.has_order(order_id) && is_entity_not_found(e, "order"@, order_id),
        },
{
    if let Err(e) = authorize(session.privileges(), Operation::AdminReadOrder) {
        return Err(e);
    }
    let row = match store.order_row(order_id) {
        Some(o) => o.duplicate(),
        None => {
            return Err(Error::SQLEntityNotFound { entity_type: "order", id: order_id });
        },
    };
    let items = store.items_for_order(order_id);
    Ok(order_and_items_into_full_response(row, items))
}

/// Sets the payment flag of an order to `payload`, found whether or
/// not it is soft-deleted. Denied to the `Basic` tier; otherwise
/// fails exactly when the key matches no row.
pub fn pay(session: Session, order_id: i32, payload: bool, store: &mut Store) -> (r: Result<
    (),
    Error,
>)
    requires
        old(store).wf(),
    ensures
        final(store).wf(),
        !allows(session.privileges_spec(), Operation::MarkOrderPaid) ==> r == Err::<(), Error>(
            Error::AuthNoAccess,
        ) && *final(store) == *old(store),
        allows(session.privileges_spec(), Operation::MarkOrderPaid) ==> match r {
            Ok(_) => {
                &&& old(store).has_order(order_id)
                &&& final(store).orders@ == old(store).orders@.update(
                    old(store).order_index(order_id),
                    with_paid(old(store).order_with(order_id), payload),
                )
                &&& final(store).items@ == old(store).items@
                &&& final(store).next_order_id == old(store).next_order_id
                &&& final(store).next_item_id == old(store).next_item_id
            },
            Err(e) => {
                &&& !old(store).has_order(order_id)
                &&& *final(store) == *old(store)
                &&& is_entity_not_found(e, "order"@, order_id)
            },
        },
{
    if let Err(e) = authorize(session.privileges(), Operation::MarkOrderPaid) {
        return Err(e);
    }
    store.set_order_paid(order_id, payload)
}

/// Physically removes an order row; its items are left in place.
/// Denied to the `Basic` tier; otherwise fails exactly when the key
/// matches no row.
pub fn hard_delete(session: Session, order_id: i32, store: &mut Store) -> (r: Result<(), Error>)
    requires
        old(store).wf(),
    ensures
        final(store).wf(),
        !allows(session.privileges_spec(), Operation::HardDeleteOrder) ==> r == Err::<(), Error>(
            Error::AuthNoAccess,
        ) && *final(store) == *old(store),
        allows(session.privileges_spec(), Operation::HardDeleteOrder) ==> match r {
            Ok(_) => {
                &&& old(store).has_order(order_id)
                &&& final(store).orders@ == old(store).orders@.remove(
                    old(store).order_index(order_id),
                )
                &&& final(store).items@ == old(store).items@
                &&& final(store).next_order_id == old(store).next_order_id
                &&& final(store).next_item_id == old(store).next_item_id
            },
            Err(e) => {
                &&& !old(store).has_order(order_id)
                &&& *final(store) == *old(store)
                &&& is_entity_not_found(e, "order"@, order_id)
            },
        },
{
    if let Err(e) = authorize(session.privileges(), Operation::HardDeleteOrder) {
        return Err(e);
    }
    store.hard_delete_order(order_id)
}

} // verus!
