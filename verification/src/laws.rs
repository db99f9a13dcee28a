//! Laws the flows obey jointly: creation round-trips into reading,
//! soft deletion hides a row from the default views, and a partial
//! update touches nothing the caller omitted.
use vstd::prelude::*;
use crate::models::{Item, Order, OrderForCreate, OrderForUpdate, Timestamp};
use crate::store::{live_items_of, live_orders, mark_deleted, merge_order, new_order_row, Store};

verus! {

/// After replacing the row at `id`'s position with a row keeping the
/// same key, that key still resolves, and to the new row.
pub proof fn lemma_order_with_update(pre: Store, post: Store, id: i32, row: Order)
    requires
        pre.wf(),
        pre.has_order(id),
        row.id == id,
        post.orders@ == pre.orders@.update(pre.order_index(id), row),
    ensures
        post.has_order(id),
        post.order_with(id) == row,
{
    let i = pre.order_index(id);
    assert(pre.orders@[i].id == id);
    assert(post.orders@[i].id == id);
    let j = post.order_index(id);
    if j != i {
        assert(post.orders@[j] == pre.orders@[j]);
        pre.lemma_order_key_unique(j, i);
    }
}

/// Law: an order just created reads back as supplied — the key the
/// call returned resolves to a live row holding the given receiver
/// and note, not deleted and not paid, so the default read yields
/// exactly those values.
pub proof fn lemma_create_then_read(
    pre: Store,
    post: Store,
    creator_id: i32,
    t: Timestamp,
    fc: OrderForCreate,
)
    requires
        pre.wf(),
        post.orders@ == pre.orders@.push(new_order_row(pre.next_order_id, creator_id, t, fc)),
    ensures
        post.has_live_order(pre.next_order_id),
        post.order_with(pre.next_order_id) == new_order_row(pre.next_order_id, creator_id, t, fc),
{
    let id = pre.next_order_id;
    let n = pre.orders@.len() as int;
    assert(post.orders@[n].id == id);
    let j = post.order_index(id);
    if j != n {
        assert(post.orders@[j] == pre.orders@[j]);
        assert(pre.orders@[j].id < pre.next_order_id);
    }
}

/// A key under which no item row stands joins zero items. Together
/// with `lemma_create_then_read` this closes the create-then-read
/// round trip: when no item row sits under the key about to be
/// assigned — the store's referential intent, though creation under
/// an arbitrary parent key is not rejected — the fresh order reads
/// back with the supplied fields and an empty item list.
pub proof fn lemma_unused_key_has_no_items(items: Seq<Item>, order_id: i32)
    requires
        forall|i: int| 0 <= i < items.len() ==> (#[trigger] items[i]).order_id != order_id,
    ensures
        live_items_of(items, order_id) == Seq::<Item>::empty(),
    decreases items.len(),
{
    if items.len() > 0 {
        assert(forall|i: int|
            0 <= i < items.drop_last().len() ==> (#[trigger] items.drop_last()[i]).order_id
                != order_id);
        lemma_unused_key_has_no_items(items.drop_last(), order_id);
    }
}

/// Every row the default listing shows stands in the table and is not
/// soft-deleted.
pub proof fn lemma_live_orders_membership(s: Seq<Order>)
    ensures
        forall|k: int|
            0 <= k < live_orders(s).len() ==> exists|j: int|
                0 <= j < s.len() && s[j] == #[trigger] live_orders(s)[k] && !s[j].deleted,
    decreases s.len(),
{
    if s.len() > 0 {
        lemma_live_orders_membership(s.drop_last());
        let rest = live_orders(s.drop_last());
        assert forall|k: int| 0 <= k < live_orders(s).len() implies exists|j: int|
            0 <= j < s.len() && s[j] == #[trigger] live_orders(s)[k] && !s[j].deleted by {
            if k < rest.len() {
                assert(live_orders(s)[k] == rest[k]);
                let j = choose|j: int|
                    0 <= j < s.drop_last().len() && s.drop_last()[j] == rest[k]
                        && !s.drop_last()[j].deleted;
                assert(s[j] == live_orders(s)[k] && !s[j].deleted);
            } else {
                assert(live_orders(s)[k] == s.last());
                assert(s[s.len() - 1] == live_orders(s)[k] && !s[s.len() - 1].deleted);
            }
        }
    }
}

/// Law: the default listing keeps insertion order — over a table with
/// strictly ascending keys it shows rows with strictly ascending keys.
pub proof fn lemma_live_orders_ascending(s: Seq<Order>)
    requires
        forall|i: int, j: int| #![trigger s[i], s[j]] 0 <= i < j < s.len() ==> s[i].id < s[j].id,
    ensures
        forall|i: int, j: int|
            #![trigger live_orders(s)[i], live_orders(s)[j]]
            0 <= i < j < live_orders(s).len() ==> live_orders(s)[i].id < live_orders(s)[j].id,
    decreases s.len(),
{
    if s.len() > 0 {
        let ds = s.drop_last();
        assert(forall|i: int, j: int|
            #![trigger ds[i], ds[j]]
            0 <= i < j < ds.len() ==> ds[i].id < ds[j].id);
        lemma_live_orders_ascending(ds);
        lemma_live_orders_membership(ds);
        let rest = live_orders(ds);
        if !s.last().deleted {
            assert(live_orders(s) == rest.push(s.last()));
            assert forall|i: int, j: int|
                0 <= i < j < live_orders(s).len() implies (#[trigger] live_orders(s)[i]).id < (
            #[trigger] live_orders(s)[j]).id by {
                if j < rest.len() {
                    assert(live_orders(s)[i] == rest[i] && live_orders(s)[j] == rest[j]);
                } else {
                    assert(live_orders(s)[j] == s.last());
                    assert(live_orders(s)[i] == rest[i]);
                    let m = choose|m: int| 0 <= m < ds.len() && ds[m] == rest[i] && !ds[m].deleted;
                    assert(s[m] == ds[m]);
                    assert(s[m].id < s[s.len() - 1].id);
                }
            }
        }
    }
}

/// Every row the parent-scoped item listing shows stands in the item
/// table, under the requested parent and not soft-deleted.
pub proof fn lemma_live_items_membership(items: Seq<Item>, order_id: i32)
    ensures
        forall|k: int|
            0 <= k < live_items_of(items, order_id).len() ==> exists|j: int|
                0 <= j < items.len() && items[j] == #[trigger] live_items_of(items, order_id)[k]
                    && !items[j].deleted && items[j].order_id == order_id,
    decreases items.len(),
{
    if items.len() > 0 {
        lemma_live_items_membership(items.drop_last(), order_id);
        let rest = live_items_of(items.drop_last(), order_id);
        assert forall|k: int| 0 <= k < live_items_of(items, order_id).len() implies exists|j: int|
            0 <= j < items.len() && items[j] == #[trigger] live_items_of(items, order_id)[k]
                && !items[j].deleted && items[j].order_id == order_id by {
            if k < rest.len() {
                assert(live_items_of(items, order_id)[k] == rest[k]);
                let j = choose|j: int|
                    0 <= j < items.drop_last().len() && items.drop_last()[j] == rest[k]
                        && !items.drop_last()[j].deleted && items.drop_last()[j].order_id
                        == order_id;
                assert(items[j] == live_items_of(items, order_id)[k] && !items[j].deleted
                    && items[j].order_id == order_id);
            } else {
                assert(live_items_of(items, order_id)[k] == items.last());
                assert(items[items.len() - 1] == live_items_of(items, order_id)[k]
                    && !items[items.len() - 1].deleted && items[items.len() - 1].order_id
                    == order_id);
            }
        }
    }
}

/// Law: the items joined under an order keep creation order — over an
/// item table with strictly ascending keys, the parent-scoped listing
/// shows strictly ascending keys.
pub proof fn lemma_live_items_ascending(items: Seq<Item>, order_id: i32)
    requires
        forall|i: int, j: int|
            #![trigger items[i], items[j]]
            0 <= i < j < items.len() ==> items[i].id < items[j].id,
    ensures
        forall|i: int, j: int|
            #![trigger live_items_of(items, order_id)[i], live_items_of(items, order_id)[j]]
            0 <= i < j < live_items_of(items, order_id).len() ==> live_items_of(
                items,
                order_id,
            )[i].id < live_items_of(items, order_id)[j].id,
    decreases items.len(),
{
    if items.len() > 0 {
        let ds = items.drop_last();
        assert(forall|i: int, j: int|
            #![trigger ds[i], ds[j]]
            0 <= i < j < ds.len() ==> ds[i].id < ds[j].id);
        lemma_live_items_ascending(ds, order_id);
        lemma_live_items_membership(ds, order_id);
        let rest = live_items_of(ds, order_id);
        if items.last().order_id == order_id && !items.last().deleted {
            assert(live_items_of(items, order_id) == rest.push(items.last()));
            assert forall|i: int, j: int|
                0 <= i < j < live_items_of(items, order_id).len() implies (
            #[trigger] live_items_of(items, order_id)[i]).id < (#[trigger] live_items_of(
                items,
                order_id,
            )[j]).id by {
                if j < rest.len() {
                    assert(live_items_of(items, order_id)[i] == rest[i] && live_items_of(
                        items,
                        order_id,
                    )[j] == rest[j]);
                } else {
                    assert(live_items_of(items, order_id)[j] == items.last());
                    assert(live_items_of(items, order_id)[i] == rest[i]);
                    let m = choose|m: int|
                        0 <= m < ds.len() && ds[m] == rest[i] && !ds[m].deleted && ds[m].order_id
                            == order_id;
                    assert(items[m] == ds[m]);
                    assert(items[m].id < items[items.len() - 1].id);
                }
            }
        }
    }
}

/// Law: soft-deleting an order hides it — afterwards the key resolves
/// to a deleted row (so the default read reports it missing) and the
/// default listing shows no row with that key.
pub proof fn lemma_soft_delete_hides(pre: Store, post: Store, id: i32)
    requires
        pre.wf(),
        pre.has_order(id),
        post.orders@ == pre.orders@.update(pre.order_index(id), mark_deleted(pre.order_with(id))),
    ensures
        !post.has_live_order(id),
        forall|k: int|
            0 <= k < live_orders(post.orders@).len() ==> (#[trigger] live_orders(post.orders@)[k]).id
                != id,
{
    let i = pre.order_index(id);
    assert(pre.orders@[i].id == id);
    lemma_order_with_update(pre, post, id, mark_deleted(pre.order_with(id)));
    lemma_live_orders_membership(post.orders@);
    assert forall|k: int|
        0 <= k < live_orders(post.orders@).len() implies (#[trigger] live_orders(
        post.orders@,
    )[k]).id != id by {
        let row = live_orders(post.orders@)[k];
        let j = choose|j: int|
            0 <= j < post.orders@.len() && post.orders@[j] == row && !post.orders@[j].deleted;
        if row.id == id {
            if j != i {
                assert(post.orders@[j] == pre.orders@[j]);
                pre.lemma_order_key_unique(j, i);
            }
            assert(false);
        }
    }
}

/// Law: a coalescing partial update replaces exactly the supplied
/// fields; every omitted field, and every field outside the update
/// shape, keeps its stored value.
pub proof fn lemma_partial_update_preserves(
    pre: Store,
    post: Store,
    id: i32,
    payload: OrderForUpdate,
)
    requires
        pre.wf(),
        pre.has_order(id),
        post.orders@ == pre.orders@.update(
            pre.order_index(id),
            merge_order(pre.order_with(id), payload),
        ),
    ensures
        post.has_order(id),
        payload.receiver is None ==> post.order_with(id).receiver == pre.order_with(id).receiver,
        payload.receiver matches Some(r) ==> post.order_with(id).receiver == r,
        payload.additional_info is None ==> post.order_with(id).additional_info == pre.order_with(
            id,
        ).additional_info,
        payload.additional_info matches Some(a) ==> post.order_with(id).additional_info == Some(a),
        post.order_with(id).time_created == pre.order_with(id).time_created,
        post.order_with(id).creator_id == pre.order_with(id).creator_id,
        post.order_with(id).deleted == pre.order_with(id).deleted,
        post.order_with(id).paid == pre.order_with(id).paid,
{
    assert(pre.orders@[pre.order_index(id)].id == id);
    lemma_order_with_update(pre, post, id, merge_order(pre.order_with(id), payload));
}

} // verus!
