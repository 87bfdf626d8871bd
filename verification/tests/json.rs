use voteinfo::json::{Json, SyntaxError};

#[test]
fn json_text_is_read_into_a_tree() {
    let json = Json::parse(r#"{"b": [1, -2, 2.5, "x", null, true], "a": {"c": 18446744073709551615}}"#)
        .unwrap();
    assert_eq!(
        json,
        Json::Object(vec![
            (
                "a".to_string(),
                Json::Object(vec![("c".to_string(), Json::Number(Some(u64::MAX)))]),
            ),
            (
                "b".to_string(),
                Json::Array(vec![
                    Json::Number(Some(1)),
                    Json::Number(None),
                    Json::Number(None),
                    Json::Text("x".to_string()),
                    Json::Null,
                    Json::Bool(true),
                ]),
            ),
        ])
    );
}

#[test]
fn scalars_are_documents() {
    assert_eq!(Json::parse("null"), Ok(Json::Null));
    assert_eq!(Json::parse(" false "), Ok(Json::Bool(false)));
    assert_eq!(Json::parse("0"), Ok(Json::Number(Some(0))));
    assert_eq!(Json::parse("\"\\u00e4\\n\""), Ok(Json::Text("ä\n".to_string())));
    assert_eq!(Json::parse("[]"), Ok(Json::Array(Vec::new())));
    assert_eq!(Json::parse("{}"), Ok(Json::Object(Vec::new())));
}

#[test]
fn of_members_with_one_name_the_last_is_read() {
    assert_eq!(
        Json::parse(r#"{"a": 1, "a": 2}"#),
        Ok(Json::Object(vec![("a".to_string(), Json::Number(Some(2)))]))
    );
}

#[test]
fn faults_in_the_text_are_located() {
    assert_eq!(Json::parse(""), Err(SyntaxError { line: 1, column: 0 }));
    assert_eq!(Json::parse("[1,"), Err(SyntaxError { line: 1, column: 3 }));
    assert_eq!(Json::parse("[1,\n 2,\n x]"), Err(SyntaxError { line: 3, column: 2 }));
    assert_eq!(Json::parse("{'a': 1}"), Err(SyntaxError { line: 1, column: 2 }));
}

#[test]
fn trees_are_written_as_compact_text() {
    let json = Json::Object(vec![
        ("name".to_string(), Json::Text("Zürich \"ZH\"".to_string())),
        ("count".to_string(), Json::Number(Some(42))),
        ("done".to_string(), Json::Bool(true)),
        ("none".to_string(), Json::Null),
        ("list".to_string(), Json::Array(vec![Json::Number(Some(1)), Json::Array(Vec::new())])),
    ]);
    let text = json.render();
    assert_eq!(
        text,
        r#"{"count":42,"done":true,"list":[1,[]],"name":"Zürich \"ZH\"","none":null}"#
    );
    let again = Json::parse(&text).unwrap();
    assert_eq!(
        again,
        Json::Object(vec![
            ("count".to_string(), Json::Number(Some(42))),
            ("done".to_string(), Json::Bool(true)),
            ("list".to_string(), Json::Array(vec![Json::Number(Some(1)), Json::Array(Vec::new())])),
            ("name".to_string(), Json::Text("Zürich \"ZH\"".to_string())),
            ("none".to_string(), Json::Null),
        ])
    );
}

#[test]
fn number_without_value_is_written_as_null() {
    assert_eq!(Json::Number(None).render(), "null");
    assert_eq!(Json::Array(vec![Json::Number(None), Json::Number(Some(7))]).render(), "[null,7]");
}

#[test]
fn scalars_are_written() {
    assert_eq!(Json::Null.render(), "null");
    assert_eq!(Json::Bool(false).render(), "false");
    assert_eq!(Json::Number(Some(u64::MAX)).render(), "18446744073709551615");
    assert_eq!(Json::Text("a\tb".to_string()).render(), "\"a\\tb\"");
}
