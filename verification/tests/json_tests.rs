use bedrock_ws::json::{same_text, Json, JsonField, JsonNumber, JsonObject, SyntaxError};

fn object(fields: Vec<(&str, Json)>) -> JsonObject {
    let mut object = JsonObject::new();
    for (name, value) in fields {
        object.push(name, value);
    }
    object
}

#[test]
fn parse_reads_every_kind_of_value() {
    let document = Json::parse(r#"{"b":[true,null,"x",-2,1.5],"a":1}"#).expect("valid JSON");
    let expected = Json::Object(JsonObject {
        fields: vec![
            JsonField { name: "a".to_string(), value: Json::Number(JsonNumber::Unsigned(1)) },
            JsonField {
                name: "b".to_string(),
                value: Json::Array(vec![
                    Json::Bool(true),
                    Json::Null,
                    Json::Text("x".to_string()),
                    Json::Number(JsonNumber::Signed(-2)),
                    Json::Number(JsonNumber::Decimal("1.5".to_string())),
                ]),
            },
        ],
    });
    assert_eq!(document, expected);
}

#[test]
fn parse_keeps_the_last_of_members_with_one_name() {
    let document = Json::parse(r#"{"a":1,"a":2}"#).expect("valid JSON");
    match document {
        Json::Object(object) => {
            assert_eq!(object.get("a"), Some(&Json::Number(JsonNumber::Unsigned(2))));
            assert_eq!(object.fields.len(), 1);
        }
        other => panic!("not an object: {:?}", other),
    }
}

#[test]
fn parse_rejects_what_is_no_json() {
    assert_eq!(Json::parse("{\"a\":"), Err(SyntaxError::Malformed));
    assert_eq!(Json::parse(""), Err(SyntaxError::Malformed));
    assert_eq!(Json::parse("{} {}"), Err(SyntaxError::Malformed));
}

#[test]
fn render_writes_compact_text_with_sorted_names() {
    let document = Json::Object(object(vec![
        ("b", Json::Array(vec![Json::Bool(false), Json::Null])),
        ("a", Json::Number(JsonNumber::Signed(-7))),
        ("c", Json::Number(JsonNumber::Decimal("2.5".to_string()))),
        ("d", Json::Text("q\"t".to_string())),
    ]));
    assert_eq!(
        document.render(),
        Ok(r#"{"a":-7,"b":[false,null],"c":2.5,"d":"q\"t"}"#.to_string())
    );
}

#[test]
fn render_differs_from_its_argument() {
    let document = Json::Text("plain".to_string());
    assert_eq!(document.render(), Ok("\"plain\"".to_string()));
}

#[test]
fn render_writes_the_last_of_members_with_one_name() {
    let document = Json::Object(object(vec![
        ("a", Json::Number(JsonNumber::Unsigned(1))),
        ("a", Json::Number(JsonNumber::Unsigned(2))),
    ]));
    assert_eq!(document.render(), Ok(r#"{"a":2}"#.to_string()));
}

#[test]
fn parse_of_render_gives_the_document_back() {
    let document = Json::Object(object(vec![
        ("list", Json::Array(vec![Json::Number(JsonNumber::Unsigned(3))])),
        ("name", Json::Text("steve".to_string())),
    ]));
    let text = document.render().expect("writable");
    assert_eq!(Json::parse(&text), Ok(document));
}

#[test]
fn get_finds_the_last_member_of_a_name() {
    let data = object(vec![
        ("x", Json::Bool(true)),
        ("y", Json::Null),
        ("x", Json::Bool(false)),
    ]);
    assert_eq!(data.get("x"), Some(&Json::Bool(false)));
    assert_eq!(data.get("y"), Some(&Json::Null));
    assert_eq!(data.get("z"), None);
}

#[test]
fn insert_replaces_what_was_held_under_the_name() {
    let mut data = object(vec![("x", Json::Bool(true)), ("y", Json::Null), ("x", Json::Null)]);
    data.insert("x".to_string(), Json::Text("new".to_string()));
    assert_eq!(data, object(vec![("y", Json::Null), ("x", Json::Text("new".to_string()))]));
}

#[test]
fn take_hands_out_the_value_and_removes_the_name() {
    let mut data = object(vec![
        ("x", Json::Bool(true)),
        ("y", Json::Null),
        ("x", Json::Bool(false)),
        ("z", Json::Null),
    ]);
    assert_eq!(data.take("x"), Some(Json::Bool(false)));
    assert_eq!(data, object(vec![("y", Json::Null), ("z", Json::Null)]));
    assert_eq!(data.take("x"), None);
    assert_eq!(data, object(vec![("y", Json::Null), ("z", Json::Null)]));
}

#[test]
fn remove_all_takes_out_every_member_of_the_name() {
    let mut data = object(vec![
        ("x", Json::Bool(true)),
        ("x", Json::Null),
        ("y", Json::Null),
        ("x", Json::Bool(false)),
    ]);
    data.remove_all("x");
    assert_eq!(data, object(vec![("y", Json::Null)]));
    data.remove_all("nothing");
    assert_eq!(data, object(vec![("y", Json::Null)]));
}

#[test]
fn same_text_compares_characters() {
    assert!(same_text("abc", "abc"));
    assert!(!same_text("abc", "abd"));
    assert!(!same_text("abc", "ab"));
    assert!(same_text("", ""));
}

#[test]
fn a_copy_holds_what_the_document_holds() {
    let document = Json::parse(r#"{"a":[1,{"b":null,"c":"t"},-3,2.5],"d":true}"#).unwrap();
    assert_eq!(document.copy(), document);
    assert_eq!(document.clone(), document);
    match &document {
        Json::Object(object) => assert_eq!(&object.copy(), object),
        other => panic!("not an object: {:?}", other),
    }
}

#[test]
fn a_number_held_as_text_that_is_no_number_cannot_be_written() {
    let bad = Json::Number(JsonNumber::Decimal("abc".to_string()));
    assert!(!bad.is_writable());
    assert_eq!(bad.render(), Err(SyntaxError::Unwritable));
    let nested = Json::Object(object(vec![
        ("good", Json::Number(JsonNumber::Decimal("2.5".to_string()))),
        ("list", Json::Array(vec![Json::Null, Json::Number(JsonNumber::Decimal(String::new()))])),
    ]));
    assert!(!nested.is_writable());
    assert_eq!(nested.render(), Err(SyntaxError::Unwritable));
}

#[test]
fn every_other_document_can_be_written() {
    let good = Json::Object(object(vec![
        ("a", Json::Number(JsonNumber::Decimal("-1.25e2".to_string()))),
        ("b", Json::Array(vec![Json::Number(JsonNumber::Signed(i64::MIN)), Json::Bool(true)])),
        ("c", Json::Object(JsonObject::new())),
    ]));
    assert!(good.is_writable());
    assert_eq!(good.render(), Ok(r#"{"a":-125.0,"b":[-9223372036854775808,true],"c":{}}"#.to_string()));
    assert!(JsonNumber::Unsigned(1).is_writable());
    assert!(JsonNumber::Decimal("7".to_string()).is_writable());
    assert!(!JsonNumber::Decimal("7 ".to_string()).is_writable());
    assert!(JsonObject::new().is_writable());
}
