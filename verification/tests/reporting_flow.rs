use order_core::models::{Date, ItemResponseBasic, OrderResponseBasic, Timestamp};
use order_core::reporting::{
    count_income, get_number_from_string, get_order_sum_value, is_order_checked,
    month_name_polish,
};

fn ts() -> Timestamp {
    Timestamp { date: Date { year: 1970, month: 1, day: 1 }, secs: 0 }
}

fn item(value: i32, quantity: &str, checked: bool) -> ItemResponseBasic {
    ItemResponseBasic {
        id: 1,
        order_id: 1,
        time_created: ts(),
        quantity: quantity.to_owned(),
        name: "farba".to_owned(),
        value,
        additional_info: None,
        checked,
    }
}

fn order(items: Vec<ItemResponseBasic>) -> OrderResponseBasic {
    OrderResponseBasic {
        id: 1,
        time_created: ts(),
        receiver: "tomek".to_owned(),
        additional_info: None,
        items,
    }
}

#[test]
fn count_income_sums_every_item() {
    let listing = vec![
        order(vec![item(2000, "1", false), item(2000, "1", false)]),
        order(vec![]),
        order(vec![item(1500, "1", false)]),
    ];
    assert_eq!(count_income(listing), 5500);
}

#[test]
fn count_income_empty_listing() {
    assert_eq!(count_income(vec![]), 0);
}

#[test]
fn order_checked_needs_items_and_all_checked() {
    assert!(!is_order_checked(&order(vec![])));
    assert!(is_order_checked(&order(vec![item(1, "1", true), item(2, "1", true)])));
    assert!(!is_order_checked(&order(vec![item(1, "1", true), item(2, "1", false)])));
}

#[test]
fn number_from_string_reads_digits() {
    assert_eq!(get_number_from_string("15kg".to_owned()), 15);
    assert_eq!(get_number_from_string("1l".to_owned()), 1);
    assert_eq!(get_number_from_string("12a34".to_owned()), 1234);
    assert_eq!(get_number_from_string("".to_owned()), 0);
    assert_eq!(get_number_from_string("kg".to_owned()), 0);
    // a value that overflows the result type reads as 0
    assert_eq!(get_number_from_string("99999999999".to_owned()), 0);
}

#[test]
fn order_sum_value_weighs_by_quantity() {
    let items = vec![item(100, "5kg", false), item(50, "2", false)];
    assert_eq!(get_order_sum_value(items), 600);
}

#[test]
fn month_names() {
    assert_eq!(month_name_polish(1), "Styczeń");
    assert_eq!(month_name_polish(5), "Maj");
    assert_eq!(month_name_polish(12), "Grudzień");
    assert_eq!(month_name_polish(13), "Miesiąc");
}
