//! The response assembler: joins an order row with its item rows into
//! the two response shapes, a pure transformation that preserves item
//! order.
use vstd::prelude::*;
use crate::models::{
    clone_opt_string, Item, ItemResponseBasic, Order, OrderResponseBasic, OrderResponseFull,
};
use crate::store::{items_of, live_items_of};

verus! {

/// The caller-facing shape of one item row: every field but the
/// creator and the deletion flag.
pub open spec fn basic_item(it: Item) -> ItemResponseBasic {
    ItemResponseBasic {
        id: it.id,
        order_id: it.order_id,
        time_created: it.time_created,
        quantity: it.quantity,
        name: it.name,
        value: it.value,
        additional_info: it.additional_info,
        checked: it.checked,
    }
}

/// The caller-facing shapes of a row sequence, order preserved.
pub open spec fn basic_items(items: Seq<Item>) -> Seq<ItemResponseBasic> {
    items.map_values(|it: Item| basic_item(it))
}

/// Whether `r` is the basic response for order `o` joined with its
/// visible items out of the table `items`.
pub open spec fn basic_matches(r: OrderResponseBasic, o: Order, items: Seq<Item>) -> bool {
    &&& r.id == o.id
    &&& r.time_created == o.time_created
    &&& r.receiver == o.receiver
    &&& r.additional_info == o.additional_info
    &&& r.items@ == basic_items(live_items_of(items, o.id))
}

/// Whether `r` is the full response for order `o` joined with all its
/// items (soft-deleted ones included) out of the table `items`.
pub open spec fn full_matches(r: OrderResponseFull, o: Order, items: Seq<Item>) -> bool {
    &&& r.id == o.id
    &&& r.creator_id == o.creator_id
    &&& r.time_created == o.time_created
    &&& r.receiver == o.receiver
    &&& r.additional_info == o.additional_info
    &&& r.deleted == o.deleted
    &&& r.paid == o.paid
    &&& r.items@ == items_of(items, o.id)
}

/// Whether `rs` holds, element for element, the basic responses for
/// the order rows `os`, each joined with its visible items out of the
/// table `items`.
pub open spec fn basic_list_matches(
    rs: Seq<OrderResponseBasic>,
    os: Seq<Order>,
    items: Seq<Item>,
) -> bool {
    &&& rs.len() == os.len()
    &&& forall|k: int| 0 <= k < os.len() ==> basic_matches(#[trigger] rs[k], os[k], items)
}

/// Whether `rs` holds, element for element, the full responses for
/// the order rows `os`, each joined with all its items out of the
/// table `items`.
pub open spec fn full_list_matches(
    rs: Seq<OrderResponseFull>,
    os: Seq<Order>,
    items: Seq<Item>,
) -> bool {
    &&& rs.len() == os.len()
    &&& forall|k: int| 0 <= k < os.len() ==> full_matches(#[trigger] rs[k], os[k], items)
}

/// Joins an order with the given item rows into the basic response:
/// order fields copied, each item narrowed to its caller-facing
/// shape, item order preserved.
pub fn order_and_items_into_response(res: Order, items: Vec<Item>) -> (r: OrderResponseBasic)
    ensures
        r.id == res.id,
        r.time_created == res.time_created,
        r.receiver == res.receiver,
        r.additional_info == res.additional_info,
        r.items@ == basic_items(items@),
{
    let n = items.len();
    let mut mapped: Vec<ItemResponseBasic> = Vec::new();
    let mut k: usize = 0;
    while k < n
        invariant
            n == items@.len(),
            k <= n,
            mapped@ == basic_items(items@.take(k as int)),
        decreases n - k,
    {
        let it = &items[k];
        mapped.push(ItemResponseBasic {
            id: it.id,
            order_id: it.order_id,
            time_created: it.time_created,
            quantity: it.quantity.clone(),
            name: it.name.clone(),
            value: it.value,
            additional_info: clone_opt_string(&it.additional_info),
            checked: it.checked,
        });
        proof {
            assert(mapped@ =~= basic_items(items@.take(k as int + 1)));
        }
        k += 1;
    }
    proof {
        assert(items@.take(n as int) =~= items@);
    }
    OrderResponseBasic {
        id: res.id,
        time_created: res.time_created,
        receiver: res.receiver,
        additional_info: res.additional_info,
        items: mapped,
    }
}

/// Joins an order with the given item rows into the full response:
/// every order field exposed, the item rows taken as they stand.
pub fn order_and_items_into_full_response(res: Order, items: Vec<Item>) -> (r: OrderResponseFull)
    ensures
        r.id == res.id,
        r.creator_id == res.creator_id,
        r.time_created == res.time_created,
        r.receiver == res.receiver,
        r.additional_info == res.additional_info,
        r.deleted == res.deleted,
        r.paid == res.paid,
        r.items@ == items@,
{
    OrderResponseFull {
        id: res.id,
        creator_id: res.creator_id,
        time_created: res.time_created,
        receiver: res.receiver,
        additional_info: res.additional_info,
        deleted: res.deleted,
        paid: res.paid,
        items,
    }
}

} // verus!
