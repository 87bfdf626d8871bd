use voteinfo::catalog::{
    latest_resource, latest_url, latest_url_from, latest_url_in_text, Catalog, CatalogError,
    Package, Resource,
};
use voteinfo::json::{Json, SyntaxError};
use voteinfo::wire::{parse, Fault, FieldError, ParseError, Step};

fn resource(coverage: &str, url: &str) -> Resource {
    Resource { coverage: coverage.to_string(), url: url.to_string() }
}

#[test]
fn latest_of_two() {
    let resources = vec![resource("2023-09-24", "url-old"), resource("2024-09-22", "url-new")];
    assert_eq!(latest_url(&resources), Ok("url-new".to_string()));
    assert_eq!(latest_resource(&resources), Some(1));
}

#[test]
fn latest_of_none() {
    assert_eq!(latest_url(&Vec::new()), Err(CatalogError::NoResourceFound));
    assert_eq!(latest_resource(&Vec::new()), None);
}

#[test]
fn latest_need_not_be_last() {
    let resources = vec![
        resource("2022-05-15", "a"),
        resource("2024-09-22", "b"),
        resource("2023-06-18", "c"),
    ];
    assert_eq!(latest_url(&resources), Ok("b".to_string()));
    assert_eq!(latest_resource(&resources), Some(1));
}

#[test]
fn latest_of_one() {
    assert_eq!(latest_url(&vec![resource("", "only")]), Ok("only".to_string()));
}

#[test]
fn of_equal_labels_the_last_is_taken() {
    let resources = vec![
        resource("2024-09-22", "first"),
        resource("2020-01-01", "older"),
        resource("2024-09-22", "second"),
    ];
    assert_eq!(latest_resource(&resources), Some(2));
    assert_eq!(latest_url(&resources), Ok("second".to_string()));
}

#[test]
fn labels_are_compared_as_strings() {
    let resources = vec![resource("2024-10-01", "october"), resource("2024-9-30", "september")];
    assert_eq!(latest_url(&resources), Ok("september".to_string()));
}

#[test]
fn latest_agrees_with_max_by() {
    let labels = ["b", "a", "c", "c", "ab", "", "bb", "c", "a"];
    for n in 1..=labels.len() {
        let resources: Vec<Resource> =
            labels[..n].iter().enumerate().map(|(i, l)| resource(l, &i.to_string())).collect();
        let expected = resources.iter().max_by(|a, b| a.coverage.cmp(&b.coverage)).unwrap();
        assert_eq!(latest_url(&resources), Ok(expected.url.clone()));
    }
}

const CATALOG: &str = r#"{
    "help": "https://ckan.opendata.swiss/api/3/action/help_show?name=package_show",
    "success": true,
    "result": {
        "name": "echtzeitdaten",
        "resources": [
            {"coverage": "2023-09-24", "url": "url-old", "format": "JSON"},
            {"coverage": "2024-09-22", "url": "url-new", "format": "JSON"}
        ]
    }
}"#;

#[test]
fn catalog_text_is_read() {
    let catalog: Catalog = parse(CATALOG).unwrap();
    assert_eq!(
        catalog,
        Catalog {
            result: Package {
                resources: vec![
                    resource("2023-09-24", "url-old"),
                    resource("2024-09-22", "url-new"),
                ],
            },
        }
    );
}

#[test]
fn latest_url_in_catalog_text() {
    assert_eq!(latest_url_in_text(CATALOG), Ok("url-new".to_string()));
}

#[test]
fn empty_catalog_has_no_resource() {
    assert_eq!(
        latest_url_in_text(r#"{"result": {"resources": []}}"#),
        Err(CatalogError::NoResourceFound)
    );
}

#[test]
fn catalog_that_is_not_json() {
    assert_eq!(
        latest_url_in_text("{\"result\": "),
        Err(CatalogError::Parse(ParseError::Syntax(SyntaxError { line: 1, column: 11 })))
    );
}

#[test]
fn catalog_without_resources() {
    assert_eq!(
        latest_url_in_text(r#"{"result": {}}"#),
        Err(CatalogError::Parse(ParseError::Field(FieldError {
            fault: Fault::Missing,
            path: vec![Step::Key("result"), Step::Key("resources")],
        })))
    );
}

#[test]
fn catalog_with_a_resource_without_url() {
    assert_eq!(
        latest_url_in_text(r#"{"result": {"resources": [{"coverage": "a", "url": "u"}, {"coverage": "b"}]}}"#),
        Err(CatalogError::Parse(ParseError::Field(FieldError {
            fault: Fault::Missing,
            path: vec![
                Step::Key("result"),
                Step::Key("resources"),
                Step::Index(1),
                Step::Key("url"),
            ],
        })))
    );
}

#[test]
fn latest_url_from_a_read_document() {
    let document = Json::Object(vec![(
        "result".to_string(),
        Json::Object(vec![(
            "resources".to_string(),
            Json::Array(vec![
                Json::Object(vec![
                    ("coverage".to_string(), Json::Text("2024-03-03".to_string())),
                    ("url".to_string(), Json::Text("march".to_string())),
                ]),
                Json::Object(vec![
                    ("url".to_string(), Json::Text("june".to_string())),
                    ("coverage".to_string(), Json::Text("2024-06-09".to_string())),
                ]),
            ]),
        )]),
    )]);
    assert_eq!(latest_url_from(Ok(document)), Ok("june".to_string()));
    assert_eq!(
        latest_url_from(Err(SyntaxError { line: 3, column: 7 })),
        Err(CatalogError::Parse(ParseError::Syntax(SyntaxError { line: 3, column: 7 })))
    );
}
