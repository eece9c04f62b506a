use libcnab::text::{find_whitespace, order_of_bytes, order_of_keys, same_text, Order};

#[test]
fn order_of_two_keys() {
    assert_eq!(order_of_keys("a", "b"), Order::Before);
    assert_eq!(order_of_keys("b", "a"), Order::After);
    assert_eq!(order_of_keys("ab", "ab"), Order::Same);
    assert_eq!(order_of_keys("ab", "abc"), Order::Before);
    assert_eq!(order_of_keys("abc", "ab"), Order::After);
    assert_eq!(order_of_keys("", ""), Order::Same);
    assert_eq!(order_of_keys("", "a"), Order::Before);
    assert_eq!(order_of_keys("image", "imageType"), Order::Before);
    assert_eq!(order_of_bytes(&[1, 2, 3], &[1, 3]), Order::Before);
    assert_eq!(order_of_bytes(&[255], &[1, 3]), Order::After);
    assert_eq!(order_of_bytes(&[], &[]), Order::Same);
}

#[test]
fn same_text_compares_whole_texts() {
    assert!(same_text("name", "name"));
    assert!(!same_text("name", "names"));
    assert!(!same_text("name", "nbme"));
    assert!(same_text("", ""));
}

#[test]
fn whitespace_between_tokens_is_found_at_its_first_place() {
    assert_eq!(find_whitespace(b"{\"a\":1}"), None);
    assert_eq!(find_whitespace(b""), None);
    assert_eq!(find_whitespace(b" {}"), Some(0));
    assert_eq!(find_whitespace(b"{}\n"), Some(2));
    assert_eq!(find_whitespace(b"{\"a\":\t1}"), Some(5));
    assert_eq!(find_whitespace(b"{\"a\":1,\r\"b\":2}"), Some(7));
    assert_eq!(find_whitespace(b"[1,  2]"), Some(3));
}

#[test]
fn whitespace_inside_a_string_is_not_found() {
    assert_eq!(find_whitespace(b"\"a b\""), None);
    assert_eq!(find_whitespace(b"{\"a b\":\"c\\\" d\"}"), None);
    assert_eq!(find_whitespace(b"\"a\\\\\" \"b\""), Some(5));
    assert_eq!(find_whitespace(b"\"a\\\" b\" "), Some(7));
    assert_eq!(find_whitespace(b"\"\\\\\\\" \""), None);
}

#[test]
fn other_blank_bytes_are_no_json_whitespace() {
    assert_eq!(find_whitespace(&[0x0b]), None);
    assert_eq!(find_whitespace(&[0x0c]), None);
    assert_eq!(find_whitespace(&[0xc2, 0xa0]), None);
    assert_eq!(find_whitespace(&[0x20]), Some(0));
    assert_eq!(find_whitespace(&[0x09]), Some(0));
    assert_eq!(find_whitespace(&[0x0a]), Some(0));
    assert_eq!(find_whitespace(&[0x0d]), Some(0));
}
