use bob::catalog::{parse_presets, preset_from_json, presets_from_json};
use bob::json::{FormatError, Json};
use bob::preset::{eligible, Preset, Presets};

fn text(s: &str) -> Json {
    Json::Text(s.to_string())
}

fn object(members: Vec<(&str, Json)>) -> Json {
    Json::Object(members.into_iter().map(|(k, v)| (k.to_string(), v)).collect())
}

fn preset(name: &str, display_name: Option<&str>, binary_dir: Option<&str>, hidden: bool) -> Preset {
    Preset {
        name: name.to_string(),
        display_name: display_name.map(|s| s.to_string()),
        binary_dir: binary_dir.map(|s| s.to_string()),
        hidden,
    }
}

#[test]
fn parses_a_full_catalog_in_file_order() {
    let source = r#"{
        "version": 3,
        "configurePresets": [
            {"name": "base", "hidden": true, "generator": "Ninja"},
            {"name": "debug", "displayName": "Debug build", "binaryDir": "build/debug",
             "inherits": "base", "cacheVariables": {"CMAKE_BUILD_TYPE": "Debug", "N": [1, 2.5, -3]}},
            {"name": "release", "binaryDir": "build/release", "hidden": false}
        ],
        "buildPresets": []
    }"#;
    let presets = parse_presets(source).unwrap();
    assert_eq!(
        presets,
        Presets {
            configure_presets: vec![
                preset("base", None, None, true),
                preset("debug", Some("Debug build"), Some("build/debug"), false),
                preset("release", None, Some("build/release"), false),
            ],
        }
    );
}

#[test]
fn an_empty_list_is_an_empty_catalog() {
    let presets = parse_presets(r#"{"configurePresets": []}"#).unwrap();
    assert_eq!(presets.configure_presets, Vec::<Preset>::new());
}

#[test]
fn null_display_name_and_build_directory_read_as_absent() {
    let source = r#"{"configurePresets": [{"name": "n", "displayName": null, "binaryDir": null}]}"#;
    let presets = parse_presets(source).unwrap();
    assert_eq!(presets.configure_presets, vec![preset("n", None, None, false)]);
}

#[test]
fn text_that_is_not_json_is_a_syntax_error() {
    for source in ["", "{", "{\"configurePresets\": [}", "configurePresets", "{} trailing"] {
        assert!(
            matches!(parse_presets(source), Err(FormatError::Syntax { .. })),
            "{source:?}"
        );
    }
}

#[test]
fn a_syntax_error_carries_the_parser_message() {
    match parse_presets("{") {
        Err(FormatError::Syntax { detail }) => {
            assert_eq!(detail, "EOF while parsing an object at line 1 column 1");
        }
        other => panic!("unexpected: {other:?}"),
    }
}

fn shape(member: &str, item: Option<usize>) -> FormatError {
    FormatError::Shape { member: member.to_string(), item }
}

#[test]
fn a_document_without_a_list_of_presets_is_a_shape_error() {
    let sources = [
        "null",
        "[]",
        "7",
        "{}",
        r#"{"presets": []}"#,
        r#"{"configurePresets": null}"#,
        r#"{"configurePresets": {}}"#,
        r#"{"configurePresets": "debug"}"#,
    ];
    for source in sources {
        assert_eq!(parse_presets(source), Err(shape("configurePresets", None)), "{source}");
    }
}

#[test]
fn an_item_that_is_no_preset_is_a_shape_error_that_names_the_member() {
    let cases = [
        (r#"{"configurePresets": ["debug"]}"#, "name", 0),
        (r#"{"configurePresets": [["debug", null, null, false]]}"#, "name", 0),
        (r#"{"configurePresets": [{}]}"#, "name", 0),
        (r#"{"configurePresets": [{"displayName": "no name"}]}"#, "name", 0),
        (r#"{"configurePresets": [{"name": null}]}"#, "name", 0),
        (r#"{"configurePresets": [{"name": 7}]}"#, "name", 0),
        (r#"{"configurePresets": [{"name": "n", "displayName": 7}]}"#, "displayName", 0),
        (r#"{"configurePresets": [{"name": "n", "binaryDir": ["b"]}]}"#, "binaryDir", 0),
        (r#"{"configurePresets": [{"name": "n", "hidden": null}]}"#, "hidden", 0),
        (r#"{"configurePresets": [{"name": "n", "hidden": "true"}]}"#, "hidden", 0),
        (r#"{"configurePresets": [{"name": "n", "hidden": 1}]}"#, "hidden", 0),
        (r#"{"configurePresets": [{"name": "ok"}, {"name": false}]}"#, "name", 1),
        (r#"{"configurePresets": [{"name": "a"}, {"name": "b"}, {"name": "c", "hidden": 0}]}"#, "hidden", 2),
    ];
    for (source, member, item) in cases {
        assert_eq!(parse_presets(source), Err(shape(member, Some(item))), "{source}");
    }
}

#[test]
fn the_first_fault_is_the_one_reported() {
    let source = r#"{"configurePresets": [
        {"name": "fine"},
        {"name": "n", "hidden": 1, "binaryDir": 2, "displayName": 3},
        {"hidden": "no name either"}
    ]}"#;
    assert_eq!(parse_presets(source), Err(shape("displayName", Some(1))));
    let source = r#"{"configurePresets": [{"hidden": 1, "binaryDir": 2}]}"#;
    assert_eq!(parse_presets(source), Err(shape("name", Some(0))));
    let source = r#"{"configurePresets": [{"name": "n", "hidden": 1, "binaryDir": 2}]}"#;
    assert_eq!(parse_presets(source), Err(shape("binaryDir", Some(0))));
}

#[test]
fn escapes_in_strings_are_decoded() {
    let source = r#"{"configurePresets": [{"name": "a\"b\\c\u00e9\n", "binaryDir": "C:\\build"}]}"#;
    let presets = parse_presets(source).unwrap();
    assert_eq!(presets.configure_presets, vec![preset("a\"b\\cé\n", None, Some("C:\\build"), false)]);
}

#[test]
fn from_text_builds_the_document_member_by_member() {
    let document = Json::from_text(r#"{"b": [true, null, "x", {"k": -1.5}], "a": 10}"#).unwrap();
    assert_eq!(
        document,
        object(vec![
            ("a", Json::Number("10".to_string())),
            (
                "b",
                Json::Array(vec![
                    Json::Bool(true),
                    Json::Null,
                    text("x"),
                    object(vec![("k", Json::Number("-1.5".to_string()))]),
                ])
            ),
        ])
    );
    assert!(matches!(Json::from_text("[1,"), Err(FormatError::Syntax { .. })));
}

#[test]
fn member_finds_the_last_member_with_the_key() {
    let document = object(vec![("k", text("first")), ("other", Json::Null), ("k", text("last"))]);
    assert_eq!(document.member("k"), Some(&text("last")));
    assert_eq!(document.member("other"), Some(&Json::Null));
    assert_eq!(document.member("missing"), None);
    assert_eq!(document.member(""), None);
    assert_eq!(Json::Array(vec![text("k")]).member("k"), None);
    assert_eq!(text("k").member("k"), None);
    assert_eq!(object(vec![]).member("k"), None);
}

#[test]
fn preset_from_json_reads_each_member() {
    let document = object(vec![
        ("hidden", Json::Bool(true)),
        ("binaryDir", text("out")),
        ("displayName", text("Shown")),
        ("name", text("id")),
        ("vendor", object(vec![("x", Json::Array(vec![]))])),
    ]);
    assert_eq!(preset_from_json(&document), Ok(preset("id", Some("Shown"), Some("out"), true)));
    assert_eq!(preset_from_json(&object(vec![("name", text("id"))])), Ok(preset("id", None, None, false)));
    assert_eq!(preset_from_json(&text("id")), Err(shape("name", None)));
    assert_eq!(
        preset_from_json(&object(vec![("name", Json::Number("1".to_string()))])),
        Err(shape("name", None))
    );
    assert_eq!(
        preset_from_json(&object(vec![("name", text("id")), ("hidden", Json::Null)])),
        Err(shape("hidden", None))
    );
}

#[test]
fn presets_from_json_wants_a_list_of_presets() {
    let good = object(vec![("configurePresets", Json::Array(vec![object(vec![("name", text("a"))])]))]);
    assert_eq!(
        presets_from_json(&good),
        Ok(Presets { configure_presets: vec![preset("a", None, None, false)] })
    );
    let bad_item = object(vec![("configurePresets", Json::Array(vec![Json::Null]))]);
    assert_eq!(presets_from_json(&bad_item), Err(shape("name", Some(0))));
    assert_eq!(presets_from_json(&Json::Array(vec![])), Err(shape("configurePresets", None)));
}

#[test]
fn eligible_drops_hidden_presets_and_templates() {
    let catalog = Presets {
        configure_presets: vec![
            preset("A", None, None, true),
            preset("B", None, Some("build/b"), false),
            preset("C", None, None, false),
        ],
    };
    assert_eq!(eligible(catalog), vec![preset("B", None, Some("build/b"), false)]);
}

#[test]
fn eligible_scenario_from_catalog_text() {
    let source = r#"{"configurePresets": [
        {"name": "A", "hidden": true},
        {"name": "B", "binaryDir": "build/b"},
        {"name": "C"}
    ]}"#;
    let names: Vec<String> = eligible(parse_presets(source).unwrap()).into_iter().map(|p| p.name).collect();
    assert_eq!(names, vec!["B".to_string()]);
}

#[test]
fn eligible_keeps_the_order_of_the_catalog() {
    let catalog = Presets {
        configure_presets: vec![
            preset("z", None, Some("1"), false),
            preset("hidden-with-dir", None, Some("2"), true),
            preset("a", Some("A"), Some("3"), false),
            preset("template", None, None, false),
            preset("m", None, Some(""), false),
            preset("a", None, Some("4"), false),
        ],
    };
    let names: Vec<String> = eligible(catalog).into_iter().map(|p| p.name).collect();
    assert_eq!(names, vec!["z", "a", "m", "a"]);
}

#[test]
fn eligible_of_nothing_is_nothing() {
    assert_eq!(eligible(Presets { configure_presets: vec![] }), Vec::<Preset>::new());
    let all_hidden = Presets { configure_presets: vec![preset("h", None, Some("d"), true)] };
    assert_eq!(eligible(all_hidden), Vec::<Preset>::new());
}

#[test]
fn label_is_the_display_name_or_else_the_name() {
    assert_eq!(preset("id", Some("Shown"), None, false).label(), "Shown");
    assert_eq!(preset("id", None, None, false).label(), "id");
    assert_eq!(preset("id", Some(""), None, false).label(), "");
}

#[test]
fn is_eligible_needs_a_build_directory_and_no_hidden_mark() {
    assert!(preset("p", None, Some("d"), false).is_eligible());
    assert!(!preset("p", None, Some("d"), true).is_eligible());
    assert!(!preset("p", None, None, false).is_eligible());
    assert!(!preset("p", None, None, true).is_eligible());
}
