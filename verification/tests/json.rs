use redmine_api::json::{push_bool, push_ids, push_numeral, push_text, push_u32, Json, Numeral, RENDER_DEPTH};

#[test]
fn parse_tells_the_kinds_of_value_apart() {
    assert!(matches!(Json::parse("null"), Some(Json::Null)));
    assert!(matches!(Json::parse("true"), Some(Json::Bool(true))));
    assert!(matches!(Json::parse("\"a\\nb\""), Some(Json::Text(ref t)) if t == "a\nb"));
    assert!(matches!(Json::parse("[]"), Some(Json::Array(ref a)) if a.is_empty()));
    assert!(matches!(Json::parse("{}"), Some(Json::Object(ref o)) if o.is_empty()));
}

#[test]
fn parse_tells_the_kinds_of_number_apart() {
    assert!(matches!(Json::parse("0"), Some(Json::Number(Numeral::Unsigned(0)))));
    assert!(matches!(
        Json::parse("18446744073709551615"),
        Some(Json::Number(Numeral::Unsigned(u64::MAX)))
    ));
    assert!(matches!(Json::parse("-5"), Some(Json::Number(Numeral::Signed(-5)))));
    assert!(matches!(Json::parse("3.4"), Some(Json::Number(Numeral::Decimal(ref t))) if t == "3.4"));
    assert!(matches!(Json::parse("1e3"), Some(Json::Number(Numeral::Decimal(ref t))) if t == "1000.0"));
}

#[test]
fn parse_refuses_what_is_not_json() {
    assert!(Json::parse("").is_none());
    assert!(Json::parse("{").is_none());
    assert!(Json::parse("{\"a\":1,}").is_none());
    assert!(Json::parse("nul").is_none());
    assert!(Json::parse("1 2").is_none());
}

#[test]
fn parse_keeps_the_order_of_the_members() {
    let parsed = Json::parse("{\"b\":1,\"a\":[true,null]}").unwrap();
    match parsed {
        Json::Object(members) => {
            assert_eq!(members.len(), 2);
            assert_eq!(members[0].0, "b");
            assert_eq!(members[1].0, "a");
            assert!(matches!(members[1].1, Json::Array(ref items) if items.len() == 2));
        }
        other => panic!("unexpected value: {:?}", other),
    }
}

#[test]
fn render_writes_the_compact_form() {
    let value = Json::object(vec![
        ("n".to_string(), Json::Null),
        ("b".to_string(), Json::Bool(false)),
        ("u".to_string(), Json::Number(Numeral::Unsigned(7))),
        ("s".to_string(), Json::Number(Numeral::Signed(-7))),
        ("d".to_string(), Json::Number(Numeral::Decimal("2.50".to_string()))),
        ("t".to_string(), Json::Text("a\"b".to_string())),
        ("a".to_string(), Json::ids(&vec![1, 2])),
    ]);
    assert_eq!(
        value.render(),
        "{\"n\":null,\"b\":false,\"u\":7,\"s\":-7,\"d\":2.5,\"t\":\"a\\\"b\",\"a\":[1,2]}"
    );
}

#[test]
fn render_writes_null_for_a_decimal_that_is_no_number() {
    assert_eq!(Json::Number(Numeral::Decimal("NaN".to_string())).render(), "null");
    assert_eq!(Json::Number(Numeral::Decimal("".to_string())).render(), "null");
    assert_eq!(Json::Number(Numeral::Decimal("12".to_string())).render(), "12");
}

#[test]
fn render_then_parse_gives_the_value_back() {
    let text = "{\"issue\":{\"id\":1,\"tags\":[\"a\",\"b\"],\"ratio\":0.5,\"open\":true}}";
    assert_eq!(Json::parse(text).unwrap().render(), text);
}

#[test]
fn get_finds_the_first_member_of_a_key() {
    let value = Json::object(vec![
        ("a".to_string(), Json::Bool(true)),
        ("b".to_string(), Json::Null),
        ("a".to_string(), Json::Bool(false)),
    ]);
    assert!(matches!(value.get("a"), Some(Json::Bool(true))));
    assert!(matches!(value.get("b"), Some(Json::Null)));
    assert!(value.get("c").is_none());
    assert!(value.get_present("b").is_none());
    assert!(matches!(value.get_present("a"), Some(Json::Bool(true))));
    assert!(Json::Null.get("a").is_none());
    assert!(Json::ids(&vec![1]).get("a").is_none());
}

#[test]
fn scalars_are_read_as_their_kind_only() {
    assert_eq!(Json::Number(Numeral::Unsigned(5)).as_u32(), Some(5));
    assert_eq!(Json::Number(Numeral::Unsigned(4294967295)).as_u32(), Some(4294967295));
    assert_eq!(Json::Number(Numeral::Unsigned(4294967296)).as_u32(), None);
    assert_eq!(Json::Number(Numeral::Signed(5)).as_u32(), Some(5));
    assert_eq!(Json::Number(Numeral::Signed(-1)).as_u32(), None);
    assert_eq!(Json::Number(Numeral::Decimal("5".to_string())).as_u32(), None);
    assert_eq!(Json::Text("5".to_string()).as_u32(), None);
    assert_eq!(Json::Text("5".to_string()).as_text().as_deref(), Some("5"));
    assert_eq!(Json::Null.as_text(), None);
    assert_eq!(Json::Bool(true).as_bool(), Some(true));
    assert_eq!(Json::Null.as_bool(), None);
    assert!(matches!(Json::Number(Numeral::Signed(-3)).as_numeral(), Some(Numeral::Signed(-3))));
    assert!(Json::Bool(true).as_numeral().is_none());
    assert_eq!(Json::ids(&vec![1, 2]).elements().map(|e| e.len()), Some(2));
    assert!(Json::Null.elements().is_none());
    assert!(matches!(Numeral::Decimal("1.5".to_string()).copy(), Numeral::Decimal(ref t) if t == "1.5"));
}

#[test]
fn members_are_appended_where_they_are_set() {
    let mut members: Vec<(String, Json)> = Vec::new();
    push_u32(&mut members, "a", None);
    push_u32(&mut members, "b", Some(0));
    push_text(&mut members, "c", "");
    push_text(&mut members, "d", "x");
    push_ids(&mut members, "e", &Vec::new());
    push_ids(&mut members, "f", &vec![3]);
    push_numeral(&mut members, "g", &None);
    push_numeral(&mut members, "h", &Some(Numeral::Signed(-1)));
    push_bool(&mut members, "i", false);
    assert_eq!(
        Json::object(members).render(),
        "{\"b\":0,\"d\":\"x\",\"f\":[3],\"h\":-1,\"i\":false}"
    );
}

#[test]
fn nesting_is_measured() {
    assert!(Json::Null.nests_within(0));
    assert!(!Json::ids(&Vec::new()).nests_within(0));
    assert!(Json::ids(&vec![1]).nests_within(1));
    let envelope = Json::envelope("issue", vec![("w".to_string(), Json::ids(&vec![1]))]);
    assert!(!envelope.nests_within(2));
    assert!(envelope.nests_within(3));
    assert!(envelope.nests_within(RENDER_DEPTH));
    let mut deep = Json::Null;
    for _ in 0..=RENDER_DEPTH {
        deep = Json::Array(vec![deep]);
    }
    assert!(!deep.nests_within(RENDER_DEPTH));
    assert!(deep.nests_within(RENDER_DEPTH + 1));
}
