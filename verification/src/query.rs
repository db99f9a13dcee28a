//! The query composer: the visibility predicate for filtered listing,
//! built from the optional inclusive date bounds a caller supplies.
use vstd::prelude::*;
use crate::models::{Date, Order, OrderListParams};
use crate::store::live_orders;

verus! {

/// Whether `d` lies within the optional inclusive bounds: a missing
/// bound does not restrict.
pub open spec fn date_in_range(d: Date, date_start: Option<Date>, date_end: Option<Date>) -> bool {
    &&& match date_start {
        Some(s) => s.le_spec(d),
        None => true,
    }
    &&& match date_end {
        Some(e) => d.le_spec(e),
        None => true,
    }
}

/// Whether the default listing with `params` shows `o`: not
/// soft-deleted, and created within the requested date range.
pub open spec fn order_in_params(o: Order, params: OrderListParams) -> bool {
    !o.deleted && date_in_range(o.time_created.date, params.date_start, params.date_end)
}

/// The order rows the filtered listing shows, in stored (ascending
/// key) order: the conjunction of the base predicate and each bound
/// that is present.
pub open spec fn orders_in_params(orders: Seq<Order>, params: OrderListParams) -> Seq<Order>
    decreases orders.len(),
{
    if orders.len() == 0 {
        Seq::empty()
    } else {
        let rest = orders_in_params(orders.drop_last(), params);
        if order_in_params(orders.last(), params) {
            rest.push(orders.last())
        } else {
            rest
        }
    }
}

/// Unfolds `orders_in_params` over a push at the end.
pub proof fn lemma_orders_in_params_push(orders: Seq<Order>, params: OrderListParams, x: Order)
    ensures
        orders_in_params(orders.push(x), params) == if order_in_params(x, params) {
            orders_in_params(orders, params).push(x)
        } else {
            orders_in_params(orders, params)
        },
{
    assert(orders.push(x).drop_last() =~= orders);
    assert(orders.push(x).last() == x);
}

/// Decides `order_in_params` for a stored row.
pub fn order_matches_params(o: &Order, params: &OrderListParams) -> (r: bool)
    ensures
        r == order_in_params(*o, *params),
{
    if o.deleted {
        return false;
    }
    if let Some(s) = &params.date_start {
        if !s.le(&o.time_created.date) {
            return false;
        }
    }
    if let Some(e) = &params.date_end {
        if !o.time_created.date.le(e) {
            return false;
        }
    }
    true
}

/// Every row the filtered listing shows stands in the table and
/// satisfies the composed predicate: this names the position it
/// stands at.
pub proof fn lemma_orders_in_params_member_at(
    orders: Seq<Order>,
    params: OrderListParams,
    k: int,
) -> (j: int)
    requires
        0 <= k < orders_in_params(orders, params).len(),
    ensures
        0 <= j < orders.len(),
        orders[j] == orders_in_params(orders, params)[k],
        order_in_params(orders[j], params),
    decreases orders.len(),
{
    let rest = orders_in_params(orders.drop_last(), params);
    if k < rest.len() {
        let j = lemma_orders_in_params_member_at(orders.drop_last(), params, k);
        assert(orders[j] == orders.drop_last()[j]);
        assert(orders_in_params(orders, params)[k] == rest[k]);
        j
    } else {
        assert(orders_in_params(orders, params)[k] == orders.last());
        orders.len() - 1
    }
}

/// Law: the filtered listing keeps insertion order — over a table
/// with strictly ascending keys it shows rows with strictly ascending
/// keys.
pub proof fn lemma_orders_in_params_ascending(orders: Seq<Order>, params: OrderListParams)
    requires
        forall|i: int, j: int|
            #![trigger orders[i], orders[j]]
            0 <= i < j < orders.len() ==> orders[i].id < orders[j].id,
    ensures
        forall|i: int, j: int|
            #![trigger orders_in_params(orders, params)[i], orders_in_params(orders, params)[j]]
            0 <= i < j < orders_in_params(orders, params).len() ==> orders_in_params(
                orders,
                params,
            )[i].id < orders_in_params(orders, params)[j].id,
    decreases orders.len(),
{
    if orders.len() > 0 {
        let ds = orders.drop_last();
        assert(forall|i: int, j: int|
            #![trigger ds[i], ds[j]]
            0 <= i < j < ds.len() ==> ds[i].id < ds[j].id);
        lemma_orders_in_params_ascending(ds, params);
        let rest = orders_in_params(ds, params);
        if order_in_params(orders.last(), params) {
            assert(orders_in_params(orders, params) == rest.push(orders.last()));
            assert forall|i: int, j: int|
                0 <= i < j < orders_in_params(orders, params).len() implies (
            #[trigger] orders_in_params(orders, params)[i]).id < (#[trigger] orders_in_params(
                orders,
                params,
            )[j]).id by {
                if j < rest.len() {
                    assert(orders_in_params(orders, params)[i] == rest[i] && orders_in_params(
                        orders,
                        params,
                    )[j] == rest[j]);
                } else {
                    assert(orders_in_params(orders, params)[j] == orders.last());
                    assert(orders_in_params(orders, params)[i] == rest[i]);
                    let m = lemma_orders_in_params_member_at(ds, params, i);
                    assert(orders[m] == ds[m]);
                    assert(orders[m].id < orders[orders.len() - 1].id);
                }
            }
        }
    }
}

/// With neither bound present the filtered listing equals the
/// unfiltered one.
pub proof fn lemma_no_params_is_unfiltered(orders: Seq<Order>)
    ensures
        orders_in_params(orders, OrderListParams { date_start: None, date_end: None })
            == live_orders(orders),
    decreases orders.len(),
{
    if orders.len() > 0 {
        lemma_no_params_is_unfiltered(orders.drop_last());
    }
}

} // verus!
