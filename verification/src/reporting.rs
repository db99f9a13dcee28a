//! Derived figures over listings: aggregate income, whether an order
//! is fully checked off, and quantity-times-price sums parsed out of
//! the free-form quantity strings.
use vstd::prelude::*;
use crate::clock::now_local;
use crate::models::{ItemResponseBasic, OrderResponseBasic};

verus! {

use vstd::string::StrSliceExecFns;

/// Sum of the prices of a sequence of response items.
pub open spec fn items_value_sum(items: Seq<ItemResponseBasic>) -> int
    decreases items.len(),
{
    if items.len() == 0 {
        0
    } else {
        items_value_sum(items.drop_last()) + items.last().value
    }
}

/// The income over a listing: every item price of every order summed.
pub open spec fn income_sum(orders: Seq<OrderResponseBasic>) -> int
    decreases orders.len(),
{
    if orders.len() == 0 {
        0
    } else {
        income_sum(orders.drop_last()) + items_value_sum(orders.last().items@)
    }
}

/// Unfolds `items_value_sum` over a push at the end.
pub proof fn lemma_items_value_sum_push(items: Seq<ItemResponseBasic>, x: ItemResponseBasic)
    ensures
        items_value_sum(items.push(x)) == items_value_sum(items) + x.value,
{
    assert(items.push(x).drop_last() =~= items);
    assert(items.push(x).last() == x);
}

/// Unfolds `income_sum` over a push at the end.
pub proof fn lemma_income_sum_push(orders: Seq<OrderResponseBasic>, x: OrderResponseBasic)
    ensures
        income_sum(orders.push(x)) == income_sum(orders) + items_value_sum(x.items@),
{
    assert(orders.push(x).drop_last() =~= orders);
    assert(orders.push(x).last() == x);
}

/// Every intermediate total met while summing a listing front to back
/// fits the result type; the summation panics outside this.
pub open spec fn income_prefixes_fit(orders: Seq<OrderResponseBasic>) -> bool {
    forall|k: int, j: int|
        #![trigger income_sum(orders.take(k)), items_value_sum(orders[k].items@.take(j))]
        0 <= k < orders.len() && 0 <= j <= orders[k].items@.len() ==> i32::MIN <= income_sum(
            orders.take(k),
        ) + items_value_sum(orders[k].items@.take(j)) <= i32::MAX
}

/// Sums every item price over the listing, order by order.
pub fn count_income(vec: Vec<OrderResponseBasic>) -> (r: i32)
    requires
        income_prefixes_fit(vec@),
    ensures
        r == income_sum(vec@),
{
    let mut income: i32 = 0;
    let n = vec.len();
    let mut k: usize = 0;
    while k < n
        invariant
            income_prefixes_fit(vec@),
            n == vec@.len(),
            k <= n,
            income == income_sum(vec@.take(k as int)),
        decreases n - k,
    {
        let order = &vec[k];
        let m = order.items.len();
        let mut j: usize = 0;
        proof {
            assert(vec@[k as int].items@.take(0) =~= Seq::<ItemResponseBasic>::empty());
        }
        while j < m
            invariant
                income_prefixes_fit(vec@),
                n == vec@.len(),
                k < n,
                *order == vec@[k as int],
                m == vec@[k as int].items@.len(),
                j <= m,
                income == income_sum(vec@.take(k as int)) + items_value_sum(
                    vec@[k as int].items@.take(j as int),
                ),
            decreases m - j,
        {
            proof {
                assert(vec@[k as int].items@.take(j as int + 1) =~= vec@[k as int].items@.take(
                    j as int,
                ).push(vec@[k as int].items@[j as int]));
                lemma_items_value_sum_push(
                    vec@[k as int].items@.take(j as int),
                    vec@[k as int].items@[j as int],
                );
                assert(i32::MIN <= income_sum(vec@.take(k as int)) + items_value_sum(
                    vec@[k as int].items@.take(j as int + 1),
                ) <= i32::MAX);
            }
            income = income + order.items[j].value;
            j += 1;
        }
        proof {
            assert(vec@[k as int].items@.take(m as int) =~= vec@[k as int].items@);
            assert(vec@.take(k as int + 1) =~= vec@.take(k as int).push(vec@[k as int]));
            lemma_income_sum_push(vec@.take(k as int), vec@[k as int]);
        }
        k += 1;
    }
    proof {
        assert(vec@.take(n as int) =~= vec@);
    }
    income
}

/// Whether a listing row shows as fully done: it has items and every
/// one of them is checked.
pub open spec fn order_checked_spec(o: OrderResponseBasic) -> bool {
    o.items@.len() > 0 && forall|i: int| 0 <= i < o.items@.len() ==> (#[trigger] o.items@[i]).checked
}

/// Decides `order_checked_spec`.
pub fn is_order_checked(order: &OrderResponseBasic) -> (r: bool)
    ensures
        r == order_checked_spec(*order),
{
    let n = order.items.len();
    if n == 0 {
        return false;
    }
    let mut i: usize = 0;
    while i < n
        invariant
            n == order.items@.len(),
            i <= n,
            forall|m: int| 0 <= m < i ==> (#[trigger] order.items@[m]).checked,
        decreases n - i,
    {
        if !order.items[i].checked {
            return false;
        }
        i += 1;
    }
    true
}

/// Whether `c` is a decimal digit.
pub open spec fn is_digit_char(c: char) -> bool {
    48 <= (c as int) && (c as int) <= 57
}

/// The decimal digits of `s`, in order, everything else dropped.
pub open spec fn digits_of(s: Seq<char>) -> Seq<char>
    decreases s.len(),
{
    if s.len() == 0 {
        Seq::empty()
    } else {
        let rest = digits_of(s.drop_last());
        if is_digit_char(s.last()) {
            rest.push(s.last())
        } else {
            rest
        }
    }
}

/// The number a digit sequence writes in decimal; the empty sequence
/// writes 0.
pub open spec fn digits_value(ds: Seq<char>) -> int
    decreases ds.len(),
{
    if ds.len() == 0 {
        0
    } else {
        digits_value(ds.drop_last()) * 10 + ((ds.last() as int) - 48)
    }
}

/// The number read out of a free-form string: its digits in order,
/// with 0 where they are absent or overflow the result type.
pub open spec fn number_from_string(s: Seq<char>) -> int {
    if digits_value(digits_of(s)) <= i32::MAX {
        digits_value(digits_of(s))
    } else {
        0
    }
}

/// Unfolds `digits_of` over a push at the end.
pub proof fn lemma_digits_of_push(s: Seq<char>, c: char)
    ensures
        digits_of(s.push(c)) == if is_digit_char(c) {
            digits_of(s).push(c)
        } else {
            digits_of(s)
        },
{
    assert(s.push(c).drop_last() =~= s);
    assert(s.push(c).last() == c);
}

/// Unfolds `digits_value` over a push at the end.
pub proof fn lemma_digits_value_push(ds: Seq<char>, c: char)
    ensures
        digits_value(ds.push(c)) == digits_value(ds) * 10 + ((c as int) - 48),
{
    assert(ds.push(c).drop_last() =~= ds);
    assert(ds.push(c).last() == c);
}

/// Every character `digits_of` keeps is a digit.
pub proof fn lemma_digits_of_all_digits(s: Seq<char>)
    ensures
        forall|i: int| 0 <= i < digits_of(s).len() ==> is_digit_char(#[trigger] digits_of(s)[i]),
    decreases s.len(),
{
    if s.len() > 0 {
        lemma_digits_of_all_digits(s.drop_last());
        let rest = digits_of(s.drop_last());
        if is_digit_char(s.last()) {
            assert(digits_of(s) == rest.push(s.last()));
            assert forall|i: int| 0 <= i < digits_of(s).len() implies is_digit_char(
                digits_of(s)[i],
            ) by {
                if i < rest.len() {
                    assert(digits_of(s)[i] == rest[i]);
                } else {
                    assert(digits_of(s)[i] == s.last());
                }
            }
        } else {
            assert(digits_of(s) == rest);
        }
    }
}

/// A digit sequence never writes a negative number.
pub proof fn lemma_digits_value_nonneg(ds: Seq<char>)
    requires
        forall|i: int| 0 <= i < ds.len() ==> is_digit_char(#[trigger] ds[i]),
    ensures
        digits_value(ds) >= 0,
    decreases ds.len(),
{
    if ds.len() > 0 {
        assert(forall|i: int|
            0 <= i < ds.drop_last().len() ==> is_digit_char(#[trigger] ds.drop_last()[i]));
        lemma_digits_value_nonneg(ds.drop_last());
    }
}

/// Reading on from a prefix only grows the number: later digits
/// multiply what stands and add something nonnegative.
pub proof fn lemma_digits_value_prefix_le(s: Seq<char>, i: int)
    requires
        0 <= i <= s.len(),
    ensures
        digits_value(digits_of(s.take(i))) <= digits_value(digits_of(s)),
    decreases s.len() - i,
{
    if i == s.len() {
        assert(s.take(i) =~= s);
    } else {
        assert(s.take(i + 1) =~= s.take(i).push(s[i]));
        lemma_digits_of_push(s.take(i), s[i]);
        lemma_digits_of_all_digits(s.take(i));
        lemma_digits_value_nonneg(digits_of(s.take(i)));
        if is_digit_char(s[i]) {
            lemma_digits_value_push(digits_of(s.take(i)), s[i]);
        }
        lemma_digits_value_prefix_le(s, i + 1);
    }
}

/// Reads the number a free-form string carries: its decimal digits in
/// order, with 0 when there are none or the value overflows the
/// result type.
pub fn get_number_from_string(s: String) -> (r: i32)
    ensures
        r == number_from_string(s@),
{
    let text = s.as_str();
    let n = text.unicode_len();
    let mut acc: i64 = 0;
    let mut i: usize = 0;
    proof {
        assert(s@.take(0) =~= Seq::<char>::empty());
    }
    while i < n
        invariant
            text@ == s@,
            n == s@.len(),
            i <= n,
            acc == digits_value(digits_of(s@.take(i as int))),
            0 <= acc <= i32::MAX as i64,
        decreases n - i,
    {
        proof {
            assert(s@.take(i as int + 1) =~= s@.take(i as int).push(s@[i as int]));
            lemma_digits_of_push(s@.take(i as int), s@[i as int]);
            lemma_digits_of_all_digits(s@.take(i as int + 1));
            if is_digit_char(s@[i as int]) {
                lemma_digits_value_push(digits_of(s@.take(i as int)), s@[i as int]);
            }
        }
        let c = text.get_char(i);
        let d = c as u32;
        if 48 <= d && d <= 57 {
            acc = acc * 10 + ((d - 48) as i64);
            if acc > i32::MAX as i64 {
                proof {
                    lemma_digits_value_prefix_le(s@, i as int + 1);
                }
                return 0;
            }
        }
        i += 1;
    }
    proof {
        assert(s@.take(n as int) =~= s@);
    }
    acc as i32
}

/// The quantity-weighted value of a sequence of items: each price
/// times the number its quantity string carries, summed.
pub open spec fn order_sum_value_spec(items: Seq<ItemResponseBasic>) -> int
    decreases items.len(),
{
    if items.len() == 0 {
        0
    } else {
        order_sum_value_spec(items.drop_last()) + number_from_string(items.last().quantity@)
            * items.last().value
    }
}

/// Unfolds `order_sum_value_spec` over a push at the end.
pub proof fn lemma_order_sum_value_push(items: Seq<ItemResponseBasic>, x: ItemResponseBasic)
    ensures
        order_sum_value_spec(items.push(x)) == order_sum_value_spec(items) + number_from_string(
            x.quantity@,
        ) * x.value,
{
    assert(items.push(x).drop_last() =~= items);
    assert(items.push(x).last() == x);
}

/// Every per-item product and every intermediate total met while
/// summing the items front to back fits the result type; the
/// arithmetic panics outside this.
pub open spec fn order_sum_prefixes_fit(items: Seq<ItemResponseBasic>) -> bool {
    &&& forall|k: int|
        0 <= k <= items.len() ==> i32::MIN <= #[trigger] order_sum_value_spec(items.take(k))
            <= i32::MAX
    &&& forall|k: int|
        0 <= k < items.len() ==> i32::MIN <= number_from_string(
            (#[trigger] items[k]).quantity@,
        ) * items[k].value <= i32::MAX
}

/// Sums each item's price times the number its quantity string
/// carries.
pub fn get_order_sum_value(items: Vec<ItemResponseBasic>) -> (r: i32)
    requires
        order_sum_prefixes_fit(items@),
    ensures
        r == order_sum_value_spec(items@),
{
    let n = items.len();
    let mut total: i32 = 0;
    let mut k: usize = 0;
    proof {
        assert(items@.take(0) =~= Seq::<ItemResponseBasic>::empty());
    }
    while k < n
        invariant
            order_sum_prefixes_fit(items@),
            n == items@.len(),
            k <= n,
            total == order_sum_value_spec(items@.take(k as int)),
        decreases n - k,
    {
        proof {
            assert(items@.take(k as int + 1) =~= items@.take(k as int).push(items@[k as int]));
            lemma_order_sum_value_push(items@.take(k as int), items@[k as int]);
        }
        let q = get_number_from_string(items[k].quantity.clone());
        let product_wide = (q as i64) * (items[k].value as i64);
        let product = product_wide as i32;
        total = total + product;
        k += 1;
    }
    proof {
        assert(items@.take(n as int) =~= items@);
    }
    total
}

/// The Polish name of a calendar month, with a generic fallback for a
/// number outside 1 to 12.
pub open spec fn month_name_spec(month: u32) -> Seq<char> {
    if month == 1 {
        "Styczeń"@
    } else if month == 2 {
        "Luty"@
    } else if month == 3 {
        "Marzec"@
    } else if month == 4 {
        "Kwiecień"@
    } else if month == 5 {
        "Maj"@
    } else if month == 6 {
        "Czerwiec"@
    } else if month == 7 {
        "Lipiec"@
    } else if month == 8 {
        "Sierpień"@
    } else if month == 9 {
        "Wrzesień"@
    } else if month == 10 {
        "Październik"@
    } else if month == 11 {
        "Listopad"@
    } else if month == 12 {
        "Grudzień"@
    } else {
        "Miesiąc"@
    }
}

/// Produces the name of `month_name_spec`.
pub fn month_name_polish(month: u32) -> (r: &'static str)
    ensures
        r@ == month_name_spec(month),
{
    match month {
        1 => "Styczeń",
        2 => "Luty",
        3 => "Marzec",
        4 => "Kwiecień",
        5 => "Maj",
        6 => "Czerwiec",
        7 => "Lipiec",
        8 => "Sierpień",
        9 => "Wrzesień",
        10 => "Październik",
        11 => "Listopad",
        12 => "Grudzień",
        _ => "Miesiąc",
    }
}

/// The name of the month the wall clock stands in.
pub fn this_month_in_polish() -> (r: &'static str)
    ensures
        exists|m: u32| 1 <= m <= 12 && r@ == month_name_spec(m),
{
    let now = now_local();
    let r = month_name_polish(now.date.month);
    proof {
        assert(1 <= now.date.month <= 12 && r@ == month_name_spec(now.date.month));
    }
    r
}

} // verus!
