use iamlint::json::{read_json, Json, Member};

#[test]
fn every_kind_of_value_is_read() {
    let json = read_json(r#"{"n": null, "b": true, "i": -12, "f": 1.50, "s": "x", "a": [1, "y"]}"#)
        .unwrap();
    assert!(matches!(json.get("n"), Some(Json::Null)));
    assert!(matches!(json.get("b"), Some(Json::Bool(true))));
    assert!(matches!(json.get("i"), Some(Json::Number(t)) if t == "-12"));
    assert!(matches!(json.get("f"), Some(Json::Number(t)) if t == "1.5"));
    assert_eq!(json.get("s").unwrap().as_str().unwrap(), "x");
    match json.get("a") {
        Some(Json::Array(items)) => {
            assert_eq!(items.len(), 2);
            assert!(items[0].as_str().is_none());
            assert_eq!(items[1].as_str().unwrap(), "y");
        }
        other => panic!("not an array: {other:?}"),
    }
    assert!(json.get("absent").is_none());
    assert!(json.get("a").unwrap().get("0").is_none());
}

#[test]
fn the_last_of_two_members_with_one_name_is_kept() {
    match read_json(r#"{"b": 1, "a": "first", "a": "last"}"#).unwrap() {
        Json::Object(members) => {
            assert_eq!(members.len(), 2);
            assert_eq!(members[0].name, "a");
            assert_eq!(members[0].value.as_str().unwrap(), "last");
            assert_eq!(members[1].name, "b");
        }
        other => panic!("not an object: {other:?}"),
    }
}

#[test]
fn escapes_are_resolved() {
    let json = read_json("\"a\\u00e9\\n\\\"\"").unwrap();
    assert_eq!(json.as_str().unwrap(), "a\u{e9}\n\"");
}

#[test]
fn a_rejected_text_gives_the_message_of_the_parser() {
    assert_eq!(
        read_json("").unwrap_err(),
        "EOF while parsing a value at line 1 column 0"
    );
    assert_eq!(
        read_json("[1,]").unwrap_err(),
        "trailing comma at line 1 column 4"
    );
}

#[test]
fn a_clone_holds_the_same_value() {
    let json = Json::Object(vec![Member {
        name: "AWS".to_string(),
        value: Json::Array(vec![
            Json::Text("*".to_string()),
            Json::Number("7".to_string()),
            Json::Bool(false),
            Json::Null,
        ]),
    }]);
    assert_eq!(format!("{:?}", json.clone()), format!("{:?}", json));
}
