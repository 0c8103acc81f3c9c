use cdk_ldk_node::text::{decimal_string, push_bool, push_decimal, push_joined, text_or};

#[test]
fn decimal_of_zero_is_one_digit() {
    assert_eq!(decimal_string(0), "0");
}

#[test]
fn decimal_has_no_leading_zeros() {
    assert_eq!(decimal_string(7), "7");
    assert_eq!(decimal_string(10), "10");
    assert_eq!(decimal_string(8089), "8089");
    assert_eq!(decimal_string(1_000_000), "1000000");
}

#[test]
fn decimal_of_the_largest_number() {
    assert_eq!(decimal_string(u64::MAX), "18446744073709551615");
}

#[test]
fn decimal_agrees_with_the_standard_rendering() {
    for n in [0u64, 1, 9, 10, 11, 99, 100, 101, 12345, 4294967296, u64::MAX - 1] {
        assert_eq!(decimal_string(n), format!("{}", n));
    }
}

#[test]
fn push_decimal_keeps_what_was_there() {
    let mut out = String::from("port ");
    push_decimal(&mut out, 50051);
    assert_eq!(out, "port 50051");
}

#[test]
fn push_bool_writes_the_word() {
    let mut out = String::new();
    push_bool(&mut out, true);
    out.push(' ');
    push_bool(&mut out, false);
    assert_eq!(out, "true false");
}

#[test]
fn joined_list_has_separators_between_items_only() {
    let mut out = String::from("[");
    push_joined(
        &mut out,
        &vec!["a".to_string(), "b".to_string(), "c".to_string()],
        ", ",
    );
    assert_eq!(out, "[a, b, c");
}

#[test]
fn joined_list_of_one_and_of_none() {
    let mut one = String::new();
    push_joined(&mut one, &vec!["only".to_string()], ", ");
    assert_eq!(one, "only");
    let mut none = String::from("x");
    push_joined(&mut none, &Vec::new(), ", ");
    assert_eq!(none, "x");
}

#[test]
fn text_or_prefers_the_value() {
    assert_eq!(text_or(&Some("given".to_string()), "default"), "given");
    assert_eq!(text_or(&None, "default"), "default");
    assert_eq!(text_or(&Some(String::new()), "default"), "");
}
