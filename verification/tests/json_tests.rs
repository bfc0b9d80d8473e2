use dynmcp::json::{find_member, into_map, parse_json, render_json, Json};

#[test]
fn parse_reads_an_object() {
    let doc = parse_json("{\"a\": 1, \"b\": \"x\"}").unwrap();
    assert_eq!(doc.get("a").and_then(|v| v.as_u64()), Some(1));
    assert_eq!(doc.get("b").and_then(|v| v.as_str()), Some("x"));
    assert!(doc.get("c").is_none());
}

#[test]
fn parse_rejects_broken_text() {
    assert!(parse_json("{\"a\": ").is_none());
    assert!(parse_json("").is_none());
}

#[test]
fn parse_tells_the_kinds_of_numbers_apart() {
    let doc = parse_json("[0, 18446744073709551615, -1, 1.5]").unwrap();
    let items = doc.as_array().unwrap();
    assert_eq!(items[0], Json::Unsigned(0));
    assert_eq!(items[1], Json::Unsigned(u64::MAX));
    assert!(matches!(items[2], Json::Number(_)));
    assert!(matches!(items[3], Json::Number(_)));
    assert_eq!(items[2].as_u64(), None);
    assert_eq!(items[3].as_u64(), None);
}

#[test]
fn parse_reads_every_variant() {
    let doc = parse_json("{\"n\": null, \"t\": true, \"s\": \"x\", \"a\": [], \"o\": {}}").unwrap();
    assert_eq!(doc.get("n"), Some(&Json::Null));
    assert_eq!(doc.get("t"), Some(&Json::Bool(true)));
    assert_eq!(doc.get("s"), Some(&Json::Str("x".to_string())));
    assert_eq!(doc.get("a"), Some(&Json::Array(vec![])));
    assert_eq!(doc.get("o"), Some(&Json::Object(vec![])));
}

#[test]
fn render_writes_compact_text() {
    let doc = Json::Object(vec![
        ("id".to_string(), Json::Unsigned(7)),
        ("ok".to_string(), Json::Bool(true)),
        ("tags".to_string(), Json::Array(vec![Json::Str("a".to_string()), Json::Null])),
    ]);
    assert_eq!(render_json(&doc), "{\"id\":7,\"ok\":true,\"tags\":[\"a\",null]}");
}

#[test]
fn render_writes_the_numbers_it_carries() {
    let doc = parse_json("[-12, 2.5, 1e3]").unwrap();
    assert_eq!(render_json(&doc), "[-12,2.5,1000.0]");
    assert_eq!(render_json(&doc.clone()), "[-12,2.5,1000.0]");
}

#[test]
fn render_then_parse_gives_the_document_back() {
    let doc = Json::Object(vec![
        ("a".to_string(), Json::Unsigned(1)),
        ("b".to_string(), Json::Array(vec![Json::Bool(false), Json::Str("x y".to_string())])),
    ]);
    assert_eq!(parse_json(&render_json(&doc)), Some(doc));
}

#[test]
fn get_finds_the_first_member_of_a_name() {
    let doc = Json::Object(vec![
        ("k".to_string(), Json::Unsigned(1)),
        ("k".to_string(), Json::Unsigned(2)),
    ]);
    assert_eq!(doc.get("k"), Some(&Json::Unsigned(1)));
}

#[test]
fn get_on_a_document_that_is_no_object_finds_nothing() {
    assert_eq!(Json::Str("k".to_string()).get("k"), None);
    assert_eq!(Json::Array(vec![Json::Null]).get("0"), None);
}

#[test]
fn typed_accessors_refuse_other_kinds() {
    assert_eq!(Json::Unsigned(3).as_str(), None);
    assert_eq!(Json::Str("3".to_string()).as_u64(), None);
    assert_eq!(parse_json("3.0").unwrap().as_u64(), None);
    assert!(Json::Null.as_object().is_none());
    assert!(Json::Null.as_array().is_none());
}

#[test]
fn member_accessors_read_through_the_object() {
    let doc = parse_json("{\"s\": \"x\", \"n\": 5, \"o\": {\"i\": 1}}").unwrap();
    assert_eq!(doc.str_member("s"), Some("x".to_string()));
    assert_eq!(doc.str_member("n"), None);
    assert_eq!(doc.u64_member("n"), Some(5));
    assert_eq!(doc.u64_member("s"), None);
    assert_eq!(doc.object_member("o"), Some(vec![("i".to_string(), Json::Unsigned(1))]));
    assert_eq!(doc.object_member("s"), None);
    assert_eq!(doc.str_member("missing"), None);
}

#[test]
fn find_member_looks_in_a_list_of_members() {
    let members = vec![("a".to_string(), Json::Null), ("b".to_string(), Json::Bool(true))];
    assert_eq!(find_member(&members, "b"), Some(&Json::Bool(true)));
    assert_eq!(find_member(&members, "c"), None);
}

#[test]
fn clone_copies_the_whole_tree() {
    let doc = parse_json("{\"a\": [1, {\"b\": \"c\"}], \"d\": null}").unwrap();
    assert_eq!(doc.clone(), doc);
}

#[test]
fn into_map_keeps_the_last_member_of_every_name() {
    let members = vec![
        ("a".to_string(), Json::Unsigned(1)),
        ("b".to_string(), Json::Unsigned(2)),
        ("a".to_string(), Json::Unsigned(3)),
        ("c".to_string(), Json::Null),
        ("b".to_string(), Json::Unsigned(4)),
    ];
    assert_eq!(
        into_map(&members),
        vec![
            ("a".to_string(), Json::Unsigned(3)),
            ("c".to_string(), Json::Null),
            ("b".to_string(), Json::Unsigned(4)),
        ]
    );
    assert_eq!(into_map(&vec![]), vec![]);
}

#[test]
fn into_map_leaves_members_without_a_name_twice_as_they_are() {
    let members = vec![("x".to_string(), Json::Bool(true)), ("y".to_string(), Json::Null)];
    assert_eq!(into_map(&members), members);
}

#[test]
fn map_member_reads_an_object_as_a_map() {
    let doc = Json::Object(vec![(
        "o".to_string(),
        Json::Object(vec![
            ("k".to_string(), Json::Unsigned(1)),
            ("k".to_string(), Json::Unsigned(2)),
        ]),
    )]);
    assert_eq!(doc.map_member("o"), Some(vec![("k".to_string(), Json::Unsigned(2))]));
    assert_eq!(doc.map_member("p"), None);
    assert_eq!(Json::Null.map_member("o"), None);
}
