use redmine_api::text::{concat_str, decimal_string, join_ids, make_item_path, str_eq};

#[test]
fn decimal_of_small_and_large_numbers() {
    assert_eq!(decimal_string(0), "0");
    assert_eq!(decimal_string(7), "7");
    assert_eq!(decimal_string(10), "10");
    assert_eq!(decimal_string(1203), "1203");
    assert_eq!(decimal_string(4294967295), "4294967295");
    assert_eq!(decimal_string(u64::MAX), "18446744073709551615");
}

#[test]
fn decimal_agrees_with_the_standard_rendering() {
    for n in [0u64, 1, 9, 10, 11, 99, 100, 101, 65535, 65536, 999999999, 1000000000] {
        assert_eq!(decimal_string(n), n.to_string());
    }
}

#[test]
fn join_of_no_one_and_several_ids() {
    assert_eq!(join_ids(&Vec::new()), "");
    assert_eq!(join_ids(&vec![5]), "5");
    assert_eq!(join_ids(&vec![1, 2, 3]), "1,2,3");
    assert_eq!(join_ids(&vec![3, 3, 0, 4294967295]), "3,3,0,4294967295");
}

#[test]
fn join_of_two_lists_is_the_lists_with_a_comma_between() {
    let first = vec![1u32];
    let second = vec![2u32, 3];
    let mut both = first.clone();
    both.extend(second.iter());
    assert_eq!(join_ids(&both), format!("{},{}", join_ids(&first), join_ids(&second)));
}

#[test]
fn item_path_has_the_numeral_in_the_middle() {
    assert_eq!(make_item_path("/issues/", 42, ".json"), "/issues/42.json");
    assert_eq!(make_item_path("", 0, ""), "0");
}

#[test]
fn str_eq_compares_characters() {
    assert!(str_eq("", ""));
    assert!(str_eq("id", "id"));
    assert!(!str_eq("id", "ie"));
    assert!(!str_eq("id", "ids"));
    assert!(str_eq("na\u{ef}ve", "na\u{ef}ve"));
    assert!(!str_eq("na\u{ef}ve", "naive"));
}

#[test]
fn concat_str_appends() {
    assert_eq!(concat_str("http://host", "/path"), "http://host/path");
    assert_eq!(concat_str("", ""), "");
}
