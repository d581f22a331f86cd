use coffee_shop::codec::extract_node_definition_from_relay_node_id;
use coffee_shop::coffee_type::CoffeeType;
use coffee_shop::database::{
    clamp_epoch_millis, get_customer_name_from_pk, interpret_query_items, make_coffee_order,
    number_attribute_value, point_query_parameters, prepare_coffee_order, project_scanned_items,
    scan_parameters, string_attribute_value, AttrValue, CoffeeOrderRecord, SaveCoffeeOrderInput,
    ScannedItem, find_order_target,
};
use coffee_shop::decimal::{parse_u64_dec, u64_to_dec_string};
use coffee_shop::errors::DomainError;

fn item_of_record(record: &CoffeeOrderRecord) -> ScannedItem {
    ScannedItem {
        pk: Some(AttrValue { s: record.pk.s.clone(), n: record.pk.n.clone() }),
        sk: Some(AttrValue { s: record.sk.s.clone(), n: record.sk.n.clone() }),
        coffee_type: Some(AttrValue {
            s: record.coffee_type.s.clone(),
            n: record.coffee_type.n.clone(),
        }),
    }
}

fn string_item(pk: &str, coffee: &str, sk: &str) -> ScannedItem {
    ScannedItem {
        pk: Some(string_attribute_value(String::from(pk))),
        sk: Some(number_attribute_value(String::from(sk))),
        coffee_type: Some(string_attribute_value(String::from(coffee))),
    }
}

#[test]
fn created_record_fields() {
    let (record, order) = make_coffee_order("Alice", CoffeeType::Latte, "u1", 12345);
    assert_eq!(record.pk.s.as_deref(), Some("Alice#u1"));
    assert_eq!(record.pk.n, None);
    assert_eq!(record.sk.n.as_deref(), Some("12345"));
    assert_eq!(record.sk.s, None);
    assert_eq!(record.coffee_type.s.as_deref(), Some("Latte"));
    assert_eq!(order.customer_name, "Alice");
    assert_eq!(order.coffee_type, CoffeeType::Latte);
    assert_eq!(order.timestamp, 12345);
    let def = extract_node_definition_from_relay_node_id(order.id.as_str()).unwrap();
    assert_eq!(def.node_type, "CoffeeOrder");
    assert_eq!(def.node_id, "Alice#u1");
}

#[test]
fn created_id_natural_key_starts_with_customer() {
    let input =
        SaveCoffeeOrderInput { coffee_type: CoffeeType::Latte, customer_name: String::from("Alice") };
    let (_record, order) = prepare_coffee_order(&input);
    let def = extract_node_definition_from_relay_node_id(order.id.as_str()).unwrap();
    assert_eq!(def.node_type, "CoffeeOrder");
    assert!(def.node_id.starts_with("Alice#"));
    // the order-id component is a hyphenated UUID: 36 characters
    assert_eq!(def.node_id.len(), "Alice#".len() + 36);
}

#[test]
fn find_returns_created_order() {
    let (record, order) = make_coffee_order("Alice", CoffeeType::Latte, "u1", 777);
    let items = vec![item_of_record(&record)];
    let found = interpret_query_items(&items).unwrap().unwrap();
    assert_eq!(found.customer_name, order.customer_name);
    assert_eq!(found.coffee_type, order.coffee_type);
    assert_eq!(found.timestamp, order.timestamp);
    assert_eq!(found.id, order.id);
}

#[test]
fn find_on_absent_id_is_empty() {
    // A syntactically valid id whose partition key exists nowhere: the
    // query returns no item, and the lookup reports empty, not an error.
    let id = coffee_shop::codec::as_relay_id("CoffeeOrder", String::from("Nobody#u9"));
    let target = find_order_target(id.as_str());
    assert_eq!(target.as_deref(), Some("Nobody#u9"));
    let r = interpret_query_items(&Vec::new());
    assert!(r.unwrap().is_none());
}

#[test]
fn find_target_of_malformed_id_is_none() {
    assert_eq!(find_order_target("%%%"), None);
}

#[test]
fn find_target_without_delimiter_is_none() {
    // base64 of "nodelimiter": the decoder accepts it, but the payload has
    // no `:`, so the id names no partition key.
    assert_eq!(find_order_target("bm9kZWxpbWl0ZXI="), None);
}

#[test]
fn interpret_item_without_pk_is_empty() {
    let item = ScannedItem {
        pk: None,
        sk: None,
        coffee_type: Some(string_attribute_value(String::from("Latte"))),
    };
    let r = interpret_query_items(&vec![item]).unwrap();
    assert!(r.is_none());
}

#[test]
fn interpret_unparseable_type_is_corruption() {
    let item = string_item("Alice#u1", "Tea", "1");
    let r = interpret_query_items(&vec![item]);
    assert_eq!(r.unwrap_err(), DomainError::DataCorruption { value: String::from("Tea") });
}

#[test]
fn interpret_missing_type_is_corruption() {
    let item = ScannedItem {
        pk: Some(string_attribute_value(String::from("Alice#u1"))),
        sk: None,
        coffee_type: None,
    };
    let r = interpret_query_items(&vec![item]);
    assert_eq!(r.unwrap_err(), DomainError::DataCorruption { value: String::new() });
}

#[test]
fn listing_three_orders_keeps_all_customers() {
    let (r1, _) = make_coffee_order("Alice", CoffeeType::Latte, "u1", 1);
    let (r2, _) = make_coffee_order("Bob", CoffeeType::Mocha, "u2", 2);
    let (r3, _) = make_coffee_order("Carol", CoffeeType::Espresso, "u3", 3);
    let items = vec![item_of_record(&r1), item_of_record(&r2), item_of_record(&r3)];
    let orders = project_scanned_items(&items).unwrap();
    assert_eq!(orders.len(), 3);
    let mut names: Vec<String> = orders.iter().map(|o| o.customer_name.clone()).collect();
    names.sort();
    assert_eq!(names, vec!["Alice", "Bob", "Carol"]);
}

#[test]
fn listing_skips_incomplete_items() {
    let (r1, _) = make_coffee_order("Alice", CoffeeType::Latte, "u1", 1);
    let missing_pk = ScannedItem {
        pk: None,
        sk: None,
        coffee_type: Some(string_attribute_value(String::from("Latte"))),
    };
    let missing_type = ScannedItem {
        pk: Some(string_attribute_value(String::from("Bob#u2"))),
        sk: None,
        coffee_type: None,
    };
    let items = vec![missing_pk, item_of_record(&r1), missing_type];
    let orders = project_scanned_items(&items).unwrap();
    assert_eq!(orders.len(), 1);
    assert_eq!(orders[0].customer_name, "Alice");
}

#[test]
fn listing_with_corrupt_item_fails() {
    let (r1, _) = make_coffee_order("Alice", CoffeeType::Latte, "u1", 1);
    let corrupt = string_item("Bob#u2", "Tea", "2");
    let items = vec![item_of_record(&r1), corrupt];
    let r = project_scanned_items(&items);
    assert_eq!(r.unwrap_err(), DomainError::DataCorruption { value: String::from("Tea") });
}

#[test]
fn customer_name_is_prefix_before_first_hash() {
    assert_eq!(get_customer_name_from_pk(String::from("Alice#u1")), "Alice");
    assert_eq!(get_customer_name_from_pk(String::from("NoHash")), "NoHash");
    assert_eq!(get_customer_name_from_pk(String::from("A#B#C")), "A");
    assert_eq!(get_customer_name_from_pk(String::from("#x")), "");
    assert_eq!(get_customer_name_from_pk(String::new()), "");
}

#[test]
fn decimal_rendering() {
    assert_eq!(u64_to_dec_string(0), "0");
    assert_eq!(u64_to_dec_string(7), "7");
    assert_eq!(u64_to_dec_string(1234567890), "1234567890");
    assert_eq!(u64_to_dec_string(u64::MAX), "18446744073709551615");
}

#[test]
fn decimal_parsing() {
    assert_eq!(parse_u64_dec("0"), Some(0));
    assert_eq!(parse_u64_dec("123"), Some(123));
    assert_eq!(parse_u64_dec("18446744073709551615"), Some(u64::MAX));
    assert_eq!(parse_u64_dec("18446744073709551616"), None);
    assert_eq!(parse_u64_dec(""), None);
    assert_eq!(parse_u64_dec("12a"), None);
    assert_eq!(parse_u64_dec("-1"), None);
}

#[test]
fn decimal_round_trip() {
    for n in [0u64, 1, 9, 10, 99, 100, 12345, u64::MAX] {
        assert_eq!(parse_u64_dec(u64_to_dec_string(n).as_str()), Some(n));
    }
}

#[test]
fn sort_key_clamps_below_zero() {
    assert_eq!(clamp_epoch_millis(-5), 0);
    assert_eq!(clamp_epoch_millis(0), 0);
    assert_eq!(clamp_epoch_millis(7), 7);
}

#[test]
fn timestamp_read_back_from_sort_key() {
    let item = string_item("Alice#u1", "Latte", "424242");
    let found = interpret_query_items(&vec![item]).unwrap().unwrap();
    assert_eq!(found.timestamp, 424242);
}

#[test]
fn non_numeric_sort_key_reads_as_zero() {
    let item = string_item("Alice#u1", "Latte", "not-a-number");
    let found = interpret_query_items(&vec![item]).unwrap().unwrap();
    assert_eq!(found.timestamp, 0);
}

#[test]
fn store_call_parameters() {
    let scan = scan_parameters();
    assert_eq!(scan.table_name, "CoffeeShop");
    assert_eq!(scan.limit, 50);
    let query = point_query_parameters(String::from("Alice#u1"));
    assert_eq!(query.table_name, "CoffeeShop");
    assert_eq!(query.partition_key, "Alice#u1");
    assert!(query.consistent_read);
    assert_eq!(query.limit, 1);
}

#[test]
fn attribute_value_builders() {
    let s = string_attribute_value(String::from("abc"));
    assert_eq!(s.s.as_deref(), Some("abc"));
    assert_eq!(s.n, None);
    let n = number_attribute_value(String::from("42"));
    assert_eq!(n.n.as_deref(), Some("42"));
    assert_eq!(n.s, None);
}
