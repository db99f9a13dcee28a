//! The repository: every order and item row, with soft deletion,
//! monotonic key assignment, and coalescing partial updates.
use vstd::prelude::*;
use crate::errors::{is_entity_not_found, Error};
use crate::models::{
    Item, ItemForCreate, ItemForUpdate, Order, OrderForCreate, OrderForUpdate, Timestamp,
};

verus! {

use vstd::pervasive::VecAdditionalExecFns;

/// Keys are strictly ascending (so unique, in insertion order) and all
/// below the next key to be assigned, which starts at 1.
pub open spec fn order_seq_wf(s: Seq<Order>, next: i32) -> bool {
    &&& forall|i: int, j: int|
        #![trigger s[i], s[j]]
        0 <= i < j < s.len() ==> s[i].id < s[j].id
    &&& forall|i: int| #![trigger s[i]] 0 <= i < s.len() ==> 1 <= s[i].id < next
    &&& 1 <= next
}

/// The same discipline for item rows.
pub open spec fn item_seq_wf(s: Seq<Item>, next: i32) -> bool {
    &&& forall|i: int, j: int|
        #![trigger s[i], s[j]]
        0 <= i < j < s.len() ==> s[i].id < s[j].id
    &&& forall|i: int| #![trigger s[i]] 0 <= i < s.len() ==> 1 <= s[i].id < next
    &&& 1 <= next
}

/// The row produced by creating an order: caller-supplied fields, the
/// assigned key, and the entity defaults.
pub open spec fn new_order_row(
    id: i32,
    creator_id: i32,
    time_created: Timestamp,
    fc: OrderForCreate,
) -> Order {
    Order {
        id,
        creator_id,
        time_created,
        receiver: fc.receiver,
        additional_info: fc.additional_info,
        deleted: false,
        paid: false,
    }
}

/// The row produced by creating an item under `order_id`.
pub open spec fn new_item_row(
    id: i32,
    order_id: i32,
    creator_id: i32,
    time_created: Timestamp,
    fc: ItemForCreate,
) -> Item {
    Item {
        id,
        order_id,
        creator_id,
        time_created,
        quantity: fc.quantity,
        name: fc.name,
        value: fc.value,
        additional_info: fc.additional_info,
        deleted: false,
        checked: false,
    }
}

/// The coalescing merge of a partial order update: a supplied field
/// replaces the stored one, an absent field keeps it.
pub open spec fn merge_order(o: Order, u: OrderForUpdate) -> Order {
    Order {
        receiver: match u.receiver {
            Some(r) => r,
            None => o.receiver,
        },
        additional_info: match u.additional_info {
            Some(a) => Some(a),
            None => o.additional_info,
        },
        ..o
    }
}

/// The coalescing merge of a partial item update.
pub open spec fn merge_item(it: Item, u: ItemForUpdate) -> Item {
    Item {
        quantity: match u.quantity {
            Some(q) => q,
            None => it.quantity,
        },
        name: match u.name {
            Some(n) => n,
            None => it.name,
        },
        value: match u.value {
            Some(v) => v,
            None => it.value,
        },
        additional_info: match u.additional_info {
            Some(a) => Some(a),
            None => it.additional_info,
        },
        checked: match u.checked {
            Some(c) => c,
            None => it.checked,
        },
        ..it
    }
}

/// `o` marked soft-deleted; every other field kept.
pub open spec fn mark_deleted(o: Order) -> Order {
    Order { deleted: true, ..o }
}

/// `it` marked soft-deleted; every other field kept.
pub open spec fn mark_item_deleted(it: Item) -> Item {
    Item { deleted: true, ..it }
}

/// `o` with its payment flag set to `paid`; every other field kept.
pub open spec fn with_paid(o: Order, paid: bool) -> Order {
    Order { paid, ..o }
}

/// The order rows that are not soft-deleted, in stored (ascending key)
/// order: what the default listing shows.
pub open spec fn live_orders(orders: Seq<Order>) -> Seq<Order>
    decreases orders.len(),
{
    if orders.len() == 0 {
        Seq::empty()
    } else {
        let rest = live_orders(orders.drop_last());
        if !orders.last().deleted {
            rest.push(orders.last())
        } else {
            rest
        }
    }
}

/// Every item row under `order_id`, soft-deleted ones included, in
/// stored (ascending key) order: what the admin views show.
pub open spec fn items_of(items: Seq<Item>, order_id: i32) -> Seq<Item>
    decreases items.len(),
{
    if items.len() == 0 {
        Seq::empty()
    } else {
        let rest = items_of(items.drop_last(), order_id);
        if items.last().order_id == order_id {
            rest.push(items.last())
        } else {
            rest
        }
    }
}

/// The item rows under `order_id` that are not soft-deleted, in stored
/// (ascending key) order: what ordinary callers see.
pub open spec fn live_items_of(items: Seq<Item>, order_id: i32) -> Seq<Item>
    decreases items.len(),
{
    if items.len() == 0 {
        Seq::empty()
    } else {
        let rest = live_items_of(items.drop_last(), order_id);
        if items.last().order_id == order_id && !items.last().deleted {
            rest.push(items.last())
        } else {
            rest
        }
    }
}

/// Unfolds `live_orders` over a push at the end.
pub proof fn lemma_live_orders_push(orders: Seq<Order>, x: Order)
    ensures
        live_orders(orders.push(x)) == if !x.deleted {
            live_orders(orders).push(x)
        } else {
            live_orders(orders)
        },
{
    assert(orders.push(x).drop_last() =~= orders);
    assert(orders.push(x).last() == x);
}

/// Unfolds `items_of` over a push at the end.
pub proof fn lemma_items_of_push(items: Seq<Item>, order_id: i32, x: Item)
    ensures
        items_of(items.push(x), order_id) == if x.order_id == order_id {
            items_of(items, order_id).push(x)
        } else {
            items_of(items, order_id)
        },
{
    assert(items.push(x).drop_last() =~= items);
    assert(items.push(x).last() == x);
}

/// Unfolds `live_items_of` over a push at the end.
pub proof fn lemma_live_items_of_push(items: Seq<Item>, order_id: i32, x: Item)
    ensures
        live_items_of(items.push(x), order_id) == if x.order_id == order_id && !x.deleted {
            live_items_of(items, order_id).push(x)
        } else {
            live_items_of(items, order_id)
        },
{
    assert(items.push(x).drop_last() =~= items);
    assert(items.push(x).last() == x);
}

/// The repository state: the two tables and the next key of each.
pub struct Store {
    pub orders: Vec<Order>,
    pub items: Vec<Item>,
    pub next_order_id: i32,
    pub next_item_id: i32,
}

impl Store {
    /// Both tables keep their key discipline.
    pub open spec fn wf(self) -> bool {
        order_seq_wf(self.orders@, self.next_order_id)
            && item_seq_wf(self.items@, self.next_item_id)
    }

    /// Whether some order row carries key `id`.
    pub open spec fn has_order(self, id: i32) -> bool {
        exists|i: int| 0 <= i < self.orders@.len() && (#[trigger] self.orders@[i]).id == id
    }

    /// The position of the order row with key `id`.
    pub open spec fn order_index(self, id: i32) -> int {
        choose|i: int| 0 <= i < self.orders@.len() && (#[trigger] self.orders@[i]).id == id
    }

    /// The order row with key `id`.
    pub open spec fn order_with(self, id: i32) -> Order {
        self.orders@[self.order_index(id)]
    }

    /// Whether the order with key `id` exists and is not soft-deleted.
    pub open spec fn has_live_order(self, id: i32) -> bool {
        self.has_order(id) && !self.order_with(id).deleted
    }

    /// Whether some item row carries key `id`.
    pub open spec fn has_item(self, id: i32) -> bool {
        exists|i: int| 0 <= i < self.items@.len() && (#[trigger] self.items@[i]).id == id
    }

    /// The position of the item row with key `id`.
    pub open spec fn item_index(self, id: i32) -> int {
        choose|i: int| 0 <= i < self.items@.len() && (#[trigger] self.items@[i]).id == id
    }

    /// The item row with key `id`.
    pub open spec fn item_with(self, id: i32) -> Item {
        self.items@[self.item_index(id)]
    }

    /// An empty repository; keys start at 1.
    pub fn new() -> (s: Store)
        ensures
            s.wf(),
            s.orders@ == Seq::<Order>::empty(),
            s.items@ == Seq::<Item>::empty(),
            s.next_order_id == 1,
            s.next_item_id == 1,
    {
        let s = Store { orders: Vec::new(), items: Vec::new(), next_order_id: 1, next_item_id: 1 };
        proof {
            assert(s.orders@ =~= Seq::<Order>::empty());
            assert(s.items@ =~= Seq::<Item>::empty());
        }
        s
    }

    /// Two positions holding the same order key are the same position.
    pub proof fn lemma_order_key_unique(self, i: int, j: int)
        requires
            self.wf(),
            0 <= i < self.orders@.len(),
            0 <= j < self.orders@.len(),
            self.orders@[i].id == self.orders@[j].id,
        ensures
            i == j,
    {
        if i < j {
            assert(self.orders@[i].id < self.orders@[j].id);
        }
        if j < i {
            assert(self.orders@[j].id < self.orders@[i].id);
        }
    }

    /// Two positions holding the same item key are the same position.
    pub proof fn lemma_item_key_unique(self, i: int, j: int)
        requires
            self.wf(),
            0 <= i < self.items@.len(),
            0 <= j < self.items@.len(),
            self.items@[i].id == self.items@[j].id,
        ensures
            i == j,
    {
        if i < j {
            assert(self.items@[i].id < self.items@[j].id);
        }
        if j < i {
            assert(self.items@[j].id < self.items@[i].id);
        }
    }

    /// Linear scan for the order row keyed `id`.
    fn find_order(&self, id: i32) -> (r: Option<usize>)
        requires
            self.wf(),
        ensures
            match r {
                Some(i) => {
                    &&& i < self.orders@.len()
                    &&& self.orders@[i as int].id == id
                    &&& self.has_order(id)
                    &&& self.order_index(id) == i as int
                },
                None => !self.has_order(id),
            },
    {
        let n = self.orders.len();
        let mut k: usize = 0;
        while k < n
            invariant
                self.wf(),
                n == self.orders@.len(),
                k <= n,
                forall|m: int| 0 <= m < k ==> (#[trigger] self.orders@[m]).id != id,
            decreases n - k,
        {
            if self.orders[k].id == id {
                proof {
                    let j = self.order_index(id);
                    self.lemma_order_key_unique(j, k as int);
                }
                return Some(k);
            }
            k += 1;
        }
        None
    }

    /// Linear scan for the item row keyed `id`.
    fn find_item(&self, id: i32) -> (r: Option<usize>)
        requires
            self.wf(),
        ensures
            match r {
                Some(i) => {
                    &&& i < self.items@.len()
                    &&& self.items@[i as int].id == id
                    &&& self.has_item(id)
                    &&& self.item_index(id) == i as int
                },
                None => !self.has_item(id),
            },
    {
        let n = self.items.len();
        let mut k: usize = 0;
        while k < n
            invariant
                self.wf(),
                n == self.items@.len(),
                k <= n,
                forall|m: int| 0 <= m < k ==> (#[trigger] self.items@[m]).id != id,
            decreases n - k,
        {
            if self.items[k].id == id {
                proof {
                    let j = self.item_index(id);
                    self.lemma_item_key_unique(j, k as int);
                }
                return Some(k);
            }
            k += 1;
        }
        None
    }

    /// Inserts a new order row with the next key and the entity
    /// defaults (`deleted` and `paid` both false), and returns the key.
    pub fn create_order(
        &mut self,
        creator_id: i32,
        time_created: Timestamp,
        fc: OrderForCreate,
    ) -> (id: i32)
        requires
            old(self).wf(),
            old(self).next_order_id < i32::MAX,
        ensures
            final(self).wf(),
            id == old(self).next_order_id,
            final(self).orders@ == old(self).orders@.push(
                new_order_row(old(self).next_order_id, creator_id, time_created, fc),
            ),
            final(self).items@ == old(self).items@,
            final(self).next_order_id == old(self).next_order_id + 1,
            final(self).next_item_id == old(self).next_item_id,
    {
        let id = self.next_order_id;
        let row = Order {
            id,
            creator_id,
            time_created,
            receiver: fc.receiver,
            additional_info: fc.additional_info,
            deleted: false,
            paid: false,
        };
        self.orders.push(row);
        self.next_order_id = id + 1;
        id
    }

    /// Inserts a new item row under `order_id` with the next key and
    /// the entity defaults (`deleted` and `checked` both false), and
    /// returns the key.
    pub fn create_item(
        &mut self,
        order_id: i32,
        creator_id: i32,
        time_created: Timestamp,
        fc: ItemForCreate,
    ) -> (id: i32)
        requires
            old(self).wf(),
            old(self).next_item_id < i32::MAX,
        ensures
            final(self).wf(),
            id == old(self).next_item_id,
            final(self).items@ == old(self).items@.push(
                new_item_row(old(self).next_item_id, order_id, creator_id, time_created, fc),
            ),
            final(self).orders@ == old(self).orders@,
            final(self).next_item_id == old(self).next_item_id + 1,
            final(self).next_order_id == old(self).next_order_id,
    {
        let id = self.next_item_id;
        let row = Item {
            id,
            order_id,
            creator_id,
            time_created,
            quantity: fc.quantity,
            name: fc.name,
            value: fc.value,
            additional_info: fc.additional_info,
            deleted: false,
            checked: false,
        };
        self.items.push(row);
        self.next_item_id = id + 1;
        id
    }

    /// The order row keyed `id`, if any row carries that key.
    pub fn order_row(&self, id: i32) -> (r: Option<&Order>)
        requires
            self.wf(),
        ensures
            match r {
                Some(o) => self.has_order(id) && *o == self.order_with(id),
                None => !self.has_order(id),
            },
    {
        match self.find_order(id) {
            Some(i) => Some(&self.orders[i]),
            None => None,
        }
    }

    /// Copies of the item rows under `order_id` that are not
    /// soft-deleted, ascending by key.
    pub fn live_items_for_order(&self, order_id: i32) -> (r: Vec<Item>)
        ensures
            r@ == live_items_of(self.items@, order_id),
    {
        let n = self.items.len();
        let mut out: Vec<Item> = Vec::new();
        let mut k: usize = 0;
        while k < n
            invariant
                n == self.items@.len(),
                k <= n,
                out@ == live_items_of(self.items@.take(k as int), order_id),
            decreases n - k,
        {
            proof {
                assert(self.items@.take(k as int + 1) =~= self.items@.take(k as int).push(
                    self.items@[k as int],
                ));
                lemma_live_items_of_push(
                    self.items@.take(k as int),
                    order_id,
                    self.items@[k as int],
                );
            }
            let it = &self.items[k];
            if it.order_id == order_id && !it.deleted {
                out.push(it.duplicate());
            }
            k += 1;
        }
        proof {
            assert(self.items@.take(n as int) =~= self.items@);
        }
        out
    }

    /// Copies of every item row under `order_id`, soft-deleted ones
    /// included, ascending by key.
    pub fn items_for_order(&self, order_id: i32) -> (r: Vec<Item>)
        ensures
            r@ == items_of(self.items@, order_id),
    {
        let n = self.items.len();
        let mut out: Vec<Item> = Vec::new();
        let mut k: usize = 0;
        while k < n
            invariant
                n == self.items@.len(),
                k <= n,
                out@ == items_of(self.items@.take(k as int), order_id),
            decreases n - k,
        {
            proof {
                assert(self.items@.take(k as int + 1) =~= self.items@.take(k as int).push(
                    self.items@[k as int],
                ));
                lemma_items_of_push(self.items@.take(k as int), order_id, self.items@[k as int]);
            }
            let it = &self.items[k];
            if it.order_id == order_id {
                out.push(it.duplicate());
            }
            k += 1;
        }
        proof {
            assert(self.items@.take(n as int) =~= self.items@);
        }
        out
    }

    /// Applies a coalescing partial update to the order keyed `id`:
    /// supplied fields replace stored ones, absent fields are kept.
    /// The row is matched whether or not it is soft-deleted. Fails
    /// exactly when no row carries the key.
    pub fn update_order(&mut self, id: i32, payload: OrderForUpdate) -> (r: Result<(), Error>)
        requires
            old(self).wf(),
        ensures
            final(self).wf(),
            match r {
                Ok(_) => {
                    &&& old(self).has_order(id)
                    &&& final(self).orders@ == old(self).orders@.update(
                        old(self).order_index(id),
                        merge_order(old(self).order_with(id), payload),
                    )
                    &&& final(self).items@ == old(self).items@
                    &&& final(self).next_order_id == old(self).next_order_id
                    &&& final(self).next_item_id == old(self).next_item_id
                },
                Err(e) => {
                    &&& !old(self).has_order(id)
                    &&& *final(self) == *old(self)
                    &&& is_entity_not_found(e, "order"@, id)
                },
            },
    {
        match self.find_order(id) {
            None => Err(Error::SQLEntityNotFound { entity_type: "order", id }),
            Some(i) => {
                if let Some(r) = payload.receiver {
                    self.orders[i].receiver = r;
                }
                if let Some(a) = payload.additional_info {
                    self.orders[i].additional_info = Some(a);
                }
                proof {
                    assert(self.orders@ =~= old(self).orders@.update(
                        i as int,
                        merge_order(old(self).order_with(id), payload),
                    ));
                }
                Ok(())
            },
        }
    }

    /// Applies a coalescing partial update to the item keyed `id`.
    /// Fails exactly when no row carries the key.
    pub fn update_item(&mut self, id: i32, payload: ItemForUpdate) -> (r: Result<(), Error>)
        requires
            old(self).wf(),
        ensures
            final(self).wf(),
            match r {
                Ok(_) => {
                    &&& old(self).has_item(id)
                    &&& final(self).items@ == old(self).items@.update(
                        old(self).item_index(id),
                        merge_item(old(self).item_with(id), payload),
                    )
                    &&& final(self).orders@ == old(self).orders@
                    &&& final(self).next_order_id == old(self).next_order_id
                    &&& final(self).next_item_id == old(self).next_item_id
                },
                Err(e) => {
                    &&& !old(self).has_item(id)
                    &&& *final(self) == *old(self)
                    &&& is_entity_not_found(e, "item"@, id)
                },
            },
    {
        match self.find_item(id) {
            None => Err(Error::SQLEntityNotFound { entity_type: "item", id }),
            Some(i) => {
                if let Some(q) = payload.quantity {
                    self.items[i].quantity = q;
                }
                if let Some(n) = payload.name {
                    self.items[i].name = n;
                }
                if let Some(v) = payload.value {
                    self.items[i].value = v;
                }
                if let Some(a) = payload.additional_info {
                    self.items[i].additional_info = Some(a);
                }
                if let Some(c) = payload.checked {
                    self.items[i].checked = c;
                }
                proof {
                    assert(self.items@ =~= old(self).items@.update(
                        i as int,
                        merge_item(old(self).item_with(id), payload),
                    ));
                }
                Ok(())
            },
        }
    }

    /// Flips the deletion flag of the order keyed `id` to true,
    /// whatever it was before. Fails exactly when no row carries the
    /// key, so deleting twice succeeds.
    pub fn soft_delete_order(&mut self, id: i32) -> (r: Result<(), Error>)
        requires
            old(self).wf(),
        ensures
            final(self).wf(),
            match r {
                Ok(_) => {
                    &&& old(self).has_order(id)
                    &&& final(self).orders@ == old(self).orders@.update(
                        old(self).order_index(id),
                        mark_deleted(old(self).order_with(id)),
                    )
                    &&& final(self).items@ == old(self).items@
                    &&& final(self).next_order_id == old(self).next_order_id
                    &&& final(self).next_item_id == old(self).next_item_id
                },
                Err(e) => {
                    &&& !old(self).has_order(id)
                    &&& *final(self) == *old(self)
                    &&& is_entity_not_found(e, "order"@, id)
                },
            },
    {
        match self.find_order(id) {
            None => Err(Error::SQLEntityNotFound { entity_type: "order", id }),
            Some(i) => {
                self.orders[i].deleted = true;
                proof {
                    assert(self.orders@ =~= old(self).orders@.update(
                        i as int,
                        mark_deleted(old(self).order_with(id)),
                    ));
                }
                Ok(())
            },
        }
    }

    /// Flips the deletion flag of the item keyed `id` to true. Fails
    /// exactly when no row carries the key.
    pub fn soft_delete_item(&mut self, id: i32) -> (r: Result<(), Error>)
        requires
            old(self).wf(),
        ensures
            final(self).wf(),
            match r {
                Ok(_) => {
                    &&& old(self).has_item(id)
                    &&& final(self).items@ == old(self).items@.update(
                        old(self).item_index(id),
                        mark_item_deleted(old(self).item_with(id)),
                    )
                    &&& final(self).orders@ == old(self).orders@
                    &&& final(self).next_order_id == old(self).next_order_id
                    &&& final(self).next_item_id == old(self).next_item_id
                },
                Err(e) => {
                    &&& !old(self).has_item(id)
                    &&& *final(self) == *old(self)
                    &&& is_entity_not_found(e, "item"@, id)
                },
            },
    {
        match self.find_item(id) {
            None => Err(Error::SQLEntityNotFound { entity_type: "item", id }),
            Some(i) => {
                self.items[i].deleted = true;
                proof {
                    assert(self.items@ =~= old(self).items@.update(
                        i as int,
                        mark_item_deleted(old(self).item_with(id)),
                    ));
                }
                Ok(())
            },
        }
    }

    /// Sets the payment flag of the order keyed `id` to `paid`. The
    /// row is matched whether or not it is soft-deleted. Fails exactly
    /// when no row carries the key.
    pub fn set_order_paid(&mut self, id: i32, paid: bool) -> (r: Result<(), Error>)
        requires
            old(self).wf(),
        ensures
            final(self).wf(),
            match r {
                Ok(_) => {
                    &&& old(self).has_order(id)
                    &&& final(self).orders@ == old(self).orders@.update(
                        old(self).order_index(id),
                        with_paid(old(self).order_with(id), paid),
                    )
                    &&& final(self).items@ == old(self).items@
                    &&& final(self).next_order_id == old(self).next_order_id
                    &&& final(self).next_item_id == old(self).next_item_id
                },
                Err(e) => {
                    &&& !old(self).has_order(id)
                    &&& *final(self) == *old(self)
                    &&& is_entity_not_found(e, "order"@, id)
                },
            },
    {
        match self.find_order(id) {
            None => Err(Error::SQLEntityNotFound { entity_type: "order", id }),
            Some(i) => {
                self.orders[i].paid = paid;
                proof {
                    assert(self.orders@ =~= old(self).orders@.update(
                        i as int,
                        with_paid(old(self).order_with(id), paid),
                    ));
                }
                Ok(())
            },
        }
    }

    /// Physically removes the order row keyed `id`; its items are left
    /// in place (orphaned). Fails exactly when no row carries the key.
    pub fn hard_delete_order(&mut self, id: i32) -> (r: Result<(), Error>)
        requires
            old(self).wf(),
        ensures
            final(self).wf(),
            match r {
                Ok(_) => {
                    &&& old(self).has_order(id)
                    &&& final(self).orders@ == old(self).orders@.remove(
                        old(self).order_index(id),
                    )
                    &&& final(self).items@ == old(self).items@
                    &&& final(self).next_order_id == old(self).next_order_id
                    &&& final(self).next_item_id == old(self).next_item_id
                },
                Err(e) => {
                    &&& !old(self).has_order(id)
                    &&& *final(self) == *old(self)
                    &&& is_entity_not_found(e, "order"@, id)
                },
            },
    {
        match self.find_order(id) {
            None => Err(Error::SQLEntityNotFound { entity_type: "order", id }),
            Some(i) => {
                self.orders.remove(i);
                proof {
                    let pre = old(self).orders@;
                    let post = self.orders@;
                    assert(forall|k: int| #![trigger post[k]] 0 <= k < post.len() ==>
                        post[k] == (if k < i as int { pre[k] } else { pre[k + 1] }));
                }
                Ok(())
            },
        }
    }
}

} // verus!
