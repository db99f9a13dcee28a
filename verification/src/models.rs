//! Data model: privilege tiers, users, calendar timestamps held as plain
//! values, and the order / item records with their request and response
//! shapes.
use vstd::prelude::*;

verus! {

/// The two privilege tiers. `Full` may do everything `Basic` may.
#[derive(Clone, Copy, Debug, PartialEq, Eq, Structural)]
pub enum Privileges {
    /// Add new orders, see orders.
    Basic,
    /// See all data.
    Full,
}

/// A stored staff account, as the login flow reads it.
#[derive(Debug)]
pub struct User {
    pub id: i32,
    pub name: String,
    pub password: String,
    pub privileges: Privileges,
}

/// A calendar date, held as plain year / month / day values.
#[derive(Clone, Copy, Debug, PartialEq, Eq, Structural)]
pub struct Date {
    pub year: i32,
    pub month: u32,
    pub day: u32,
}

impl Date {
    /// A meaningful calendar date: month and day in range.
    pub open spec fn wf(self) -> bool {
        1 <= self.month <= 12 && 1 <= self.day <= 31
    }

    /// Calendar order: year first, then month, then day.
    pub open spec fn le_spec(self, other: Date) -> bool {
        if self.year != other.year {
            self.year < other.year
        } else if self.month != other.month {
            self.month < other.month
        } else {
            self.day <= other.day
        }
    }

    /// Decides `le_spec`, the calendar order on dates.
    pub fn le(&self, other: &Date) -> (r: bool)
        ensures
            r == self.le_spec(*other),
    {
        if self.year != other.year {
            self.year < other.year
        } else if self.month != other.month {
            self.month < other.month
        } else {
            self.day <= other.day
        }
    }
}

/// A point in time: a date and the second of that day.
#[derive(Clone, Copy, Debug, PartialEq, Eq, Structural)]
pub struct Timestamp {
    pub date: Date,
    pub secs: u32,
}

impl Timestamp {
    /// A meaningful timestamp: valid date, second within the day.
    pub open spec fn wf(self) -> bool {
        self.date.wf() && self.secs < 86400
    }
}

/// A stored order row.
#[derive(Debug)]
pub struct Order {
    pub id: i32,
    pub creator_id: i32,
    pub time_created: Timestamp,
    pub receiver: String,
    pub additional_info: Option<String>,
    pub deleted: bool,
    pub paid: bool,
}

/// The fields a caller supplies when creating an order.
#[derive(Clone, Debug)]
pub struct OrderForCreate {
    pub receiver: String,
    pub additional_info: Option<String>,
}

/// A partial update of an order: an absent field keeps its stored value.
#[derive(Clone, Debug)]
pub struct OrderForUpdate {
    pub receiver: Option<String>,
    pub additional_info: Option<String>,
}

/// Optional inclusive date bounds for listing orders.
#[derive(Clone, Copy, Debug, PartialEq, Eq, Structural)]
pub struct OrderListParams {
    pub date_start: Option<Date>,
    pub date_end: Option<Date>,
}

/// A stored item row, belonging to one order.
#[derive(Debug)]
pub struct Item {
    pub id: i32,
    pub order_id: i32,
    pub creator_id: i32,
    pub time_created: Timestamp,
    /// A free-form magnitude with unit, such as a weight.
    pub quantity: String,
    pub name: String,
    /// Price in currency minor units (cents).
    pub value: i32,
    pub additional_info: Option<String>,
    pub deleted: bool,
    pub checked: bool,
}

/// The fields a caller supplies when creating an item.
#[derive(Clone, Debug)]
pub struct ItemForCreate {
    pub quantity: String,
    pub name: String,
    pub value: i32,
    pub additional_info: Option<String>,
}

/// A partial update of an item: an absent field keeps its stored value.
#[derive(Clone, Debug)]
pub struct ItemForUpdate {
    pub quantity: Option<String>,
    pub name: Option<String>,
    pub value: Option<i32>,
    pub additional_info: Option<String>,
    pub checked: Option<bool>,
}

/// The item fields exposed to ordinary callers: everything but the
/// creator and the deletion flag.
#[derive(Debug)]
pub struct ItemResponseBasic {
    pub id: i32,
    pub order_id: i32,
    pub time_created: Timestamp,
    pub quantity: String,
    pub name: String,
    pub value: i32,
    pub additional_info: Option<String>,
    pub checked: bool,
}

/// The order shape exposed to ordinary callers: no creator, deletion or
/// payment fields, items without their deletion flags.
#[derive(Debug)]
pub struct OrderResponseBasic {
    pub id: i32,
    pub time_created: Timestamp,
    pub receiver: String,
    pub additional_info: Option<String>,
    pub items: Vec<ItemResponseBasic>,
}

/// The order shape exposed to privileged callers: every stored field,
/// items as complete rows.
#[derive(Debug)]
pub struct OrderResponseFull {
    pub id: i32,
    pub creator_id: i32,
    pub time_created: Timestamp,
    pub receiver: String,
    pub additional_info: Option<String>,
    pub deleted: bool,
    pub paid: bool,
    pub items: Vec<Item>,
}

/// Clones an optional string, preserving its value.
pub fn clone_opt_string(s: &Option<String>) -> (r: Option<String>)
    ensures
        r == *s,
{
    match s {
        Some(v) => Some(v.clone()),
        None => None,
    }
}

impl Order {
    /// Copies the row, preserving every field.
    pub fn duplicate(&self) -> (r: Order)
        ensures
            r == *self,
    {
        Order {
            id: self.id,
            creator_id: self.creator_id,
            time_created: self.time_created,
            receiver: self.receiver.clone(),
            additional_info: clone_opt_string(&self.additional_info),
            deleted: self.deleted,
            paid: self.paid,
        }
    }
}

impl Item {
    /// Copies the row, preserving every field.
    pub fn duplicate(&self) -> (r: Item)
        ensures
            r == *self,
    {
        Item {
            id: self.id,
            order_id: self.order_id,
            creator_id: self.creator_id,
            time_created: self.time_created,
            quantity: self.quantity.clone(),
            name: self.name.clone(),
            value: self.value,
            additional_info: clone_opt_string(&self.additional_info),
            deleted: self.deleted,
            checked: self.checked,
        }
    }
}

} // verus!
