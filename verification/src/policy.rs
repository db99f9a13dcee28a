//! The authorization policy: which operations each privilege tier may
//! perform, decided as a pure function and checked before any store
//! access.
use vstd::prelude::*;
use crate::errors::Error;
use crate::models::Privileges;

verus! {

/// Every operation the service exposes over the store.
#[derive(Clone, Copy, Debug, PartialEq, Eq, Structural)]
pub enum Operation {
    CreateOrder,
    ReadOrder,
    ListOrders,
    UpdateOrder,
    SoftDeleteOrder,
    CreateItem,
    ListItems,
    UpdateItem,
    SoftDeleteItem,
    AdminListOrders,
    AdminReadOrder,
    MarkOrderPaid,
    HardDeleteOrder,
}

/// The operations reserved for the `Full` tier: the admin views over
/// soft-deleted rows, marking an order paid, and hard deletion.
pub open spec fn requires_full(op: Operation) -> bool {
    match op {
        Operation::AdminListOrders => true,
        Operation::AdminReadOrder => true,
        Operation::MarkOrderPaid => true,
        Operation::HardDeleteOrder => true,
        _ => false,
    }
}

/// Whether privilege tier `p` may perform `op`.
pub open spec fn allows(p: Privileges, op: Operation) -> bool {
    p == Privileges::Full || !requires_full(op)
}

/// Decides the policy: `Ok` exactly when `allows` holds, and the denial
/// is always the same error, leaking nothing about the store.
pub fn authorize(p: Privileges, op: Operation) -> (r: Result<(), Error>)
    ensures
        r is Ok <==> allows(p, op),
        r is Err ==> r == Err::<(), Error>(Error::AuthNoAccess),
{
    let full = match p {
        Privileges::Full => true,
        Privileges::Basic => false,
    };
    let needs_full = match op {
        Operation::AdminListOrders => true,
        Operation::AdminReadOrder => true,
        Operation::MarkOrderPaid => true,
        Operation::HardDeleteOrder => true,
        _ => false,
    };
    if full || !needs_full {
        Ok(())
    } else {
        Err(Error::AuthNoAccess)
    }
}

/// The tiers form a hierarchy: everything `Basic` may do, `Full` may do
/// as well.
pub proof fn lemma_full_is_superset(op: Operation)
    ensures
        allows(Privileges::Basic, op) ==> allows(Privileges::Full, op),
{
}

} // verus!
