use ai_model_catalog::json::{find_member, Json, JsonNumber, Member};

fn member(name: &str, value: Json) -> Member {
    Member { name: name.to_string(), value }
}

#[test]
fn parse_reads_every_kind_of_value() {
    let json = Json::parse("{\"a\": 1, \"b\": [true, null, -2, 1.5, \"x\"]}")
        .ok()
        .expect("valid JSON");
    match json {
        Json::Object(members) => {
            assert_eq!(members.len(), 2);
            assert_eq!(members[0].name, "a");
            assert!(matches!(members[0].value, Json::Number(JsonNumber::Unsigned(1))));
            assert_eq!(members[1].name, "b");
            match &members[1].value {
                Json::Array(items) => {
                    assert_eq!(items.len(), 5);
                    assert!(matches!(items[0], Json::Bool(true)));
                    assert!(matches!(items[1], Json::Null));
                    assert!(
                        matches!(&items[2], Json::Number(JsonNumber::Other(n)) if n.as_i64() == Some(-2))
                    );
                    assert!(
                        matches!(&items[3], Json::Number(JsonNumber::Other(n)) if n.as_f64() == Some(1.5))
                    );
                    assert!(matches!(&items[4], Json::Text(t) if t == "x"));
                }
                _ => panic!("expected an array"),
            }
        }
        _ => panic!("expected an object"),
    }
}

#[test]
fn parse_keeps_the_order_of_members() {
    let json = Json::parse("{\"zeta\": 1, \"alpha\": 2, \"mid\": 3}").expect("valid JSON");
    let members = json.as_members().expect("an object");
    let names: Vec<&str> = members.iter().map(|m| m.name.as_str()).collect();
    assert_eq!(names, vec!["zeta", "alpha", "mid"]);
}

#[test]
fn parse_takes_the_largest_unsigned_and_not_one_more() {
    let json = Json::parse("[18446744073709551615, 18446744073709551616]").expect("valid JSON");
    let items = json.as_items().expect("an array");
    assert!(matches!(items[0], Json::Number(JsonNumber::Unsigned(u64::MAX))));
    assert!(matches!(items[1], Json::Number(JsonNumber::Other(_))));
}

#[test]
fn parse_rejects_what_is_no_json() {
    let error = Json::parse("{\"a\": ").expect_err("not JSON");
    assert!(!error.detail.is_empty());
    assert!(Json::parse("").is_err());
    assert!(Json::parse("{} trailing").is_err());
    assert!(Json::parse("{'a': 1}").is_err());
}

#[test]
fn pretty_text_is_indented_by_two() {
    let json = Json::Object(vec![
        member("id", Json::Text("acme/foo".to_string())),
        member("n", Json::Number(JsonNumber::Unsigned(7))),
        member("none", Json::Null),
        member("flag", Json::Bool(false)),
        member("list", Json::Array(vec![Json::Text("a".to_string()), Json::Null])),
        member("empty_list", Json::Array(vec![])),
        member("empty_object", Json::Object(vec![])),
    ]);
    let text = json.to_pretty_text().expect("can be written");
    let expected = "{\n  \"id\": \"acme/foo\",\n  \"n\": 7,\n  \"none\": null,\n  \"flag\": false,\n  \"list\": [\n    \"a\",\n    null\n  ],\n  \"empty_list\": [],\n  \"empty_object\": {}\n}";
    assert_eq!(text, expected);
}

#[test]
fn pretty_text_writes_other_numbers_as_they_were_read() {
    let json = Json::parse("[-3, 0.25, 1e300, 18446744073709551616]").expect("valid JSON");
    let text = json.to_pretty_text().expect("can be written");
    let again = Json::parse(&text).expect("valid JSON");
    let items = again.as_items().expect("an array");
    assert!(matches!(&items[0], Json::Number(JsonNumber::Other(n)) if n.as_i64() == Some(-3)));
    assert!(matches!(&items[1], Json::Number(JsonNumber::Other(n)) if n.as_f64() == Some(0.25)));
    assert!(matches!(&items[2], Json::Number(JsonNumber::Other(n)) if n.as_f64() == Some(1e300)));
    assert!(
        matches!(&items[3], Json::Number(JsonNumber::Other(n)) if n.as_f64() == Some(18446744073709551616.0))
    );
}

#[test]
fn pretty_text_agrees_with_serde_json() {
    let source = "{\"b\": {\"y\": [1, 2, {\"z\": null}], \"x\": \"t\\n\\\"q\\\"\"}, \"a\": -1.5}";
    let ours = Json::parse(source).expect("valid JSON").to_pretty_text().expect("written");
    let tree: serde_json::Value = serde_json::from_str(source).expect("valid JSON");
    let theirs = serde_json::to_string_pretty(&tree).expect("written");
    assert_eq!(ours, theirs);
}

#[test]
fn later_member_of_a_name_is_the_one_found() {
    let members = vec![
        member("a", Json::Bool(true)),
        member("b", Json::Null),
        member("a", Json::Bool(false)),
    ];
    assert!(matches!(find_member(&members, "a"), Some(Json::Bool(false))));
    assert!(matches!(find_member(&members, "b"), Some(Json::Null)));
    assert!(find_member(&members, "c").is_none());
    assert!(find_member(&members, "A").is_none());
    assert!(find_member(&Vec::new(), "a").is_none());
}

#[test]
fn duplicate_names_in_a_text_collapse_to_the_later_value() {
    let json = Json::parse("{\"a\": 1, \"b\": 2, \"a\": 3}").expect("valid JSON");
    let members = json.as_members().expect("an object");
    assert_eq!(members.len(), 2);
    assert!(matches!(find_member(members, "a"), Some(Json::Number(JsonNumber::Unsigned(3)))));
}

#[test]
fn clone_copies_the_whole_tree() {
    let json = Json::parse("{\"a\": [1, -2.5, {\"b\": \"c\"}], \"d\": null}").expect("valid JSON");
    let copy = json.clone();
    assert_eq!(copy.to_pretty_text().expect("written"), json.to_pretty_text().expect("written"));
}

#[test]
fn accessors_tell_objects_and_arrays_apart() {
    assert!(Json::Null.as_members().is_none());
    assert!(Json::Null.as_items().is_none());
    assert!(Json::Array(vec![]).as_members().is_none());
    assert!(Json::Object(vec![]).as_items().is_none());
    assert_eq!(Json::array(vec![Json::Null]).as_items().map(|v| v.len()), Some(1));
    assert_eq!(Json::object(vec![Member::new("k", Json::Null)]).as_members().map(|v| v.len()), Some(1));
    let m = Member::new("k", Json::Bool(true));
    assert_eq!(m.name, "k");
    assert!(matches!(m.value, Json::Bool(true)));
}
