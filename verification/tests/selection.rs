use bob::json::{FormatError, Json};
use bob::preset::Preset;
use bob::selector::checklist;
use bob::selection::{
    chosen_names, prior_selection, read_preselected, same_names, selection_file_name,
    selection_from_json, write_preselected, PreSelected,
};

fn names(list: &[&str]) -> Vec<String> {
    list.iter().map(|s| s.to_string()).collect()
}

fn shape(item: Option<usize>) -> FormatError {
    FormatError::Shape { member: "preselected".to_string(), item }
}

#[test]
fn writes_the_names_as_one_json_object() {
    assert_eq!(
        write_preselected(&names(&["debug", "release"])),
        Ok(r#"{"preselected":["debug","release"]}"#.to_string())
    );
    assert_eq!(write_preselected(&vec![]), Ok(r#"{"preselected":[]}"#.to_string()));
}

#[test]
fn writes_names_with_escapes() {
    assert_eq!(
        write_preselected(&names(&["a\"b", "back\\slash", "tab\t", "é"])),
        Ok(r#"{"preselected":["a\"b","back\\slash","tab\t","é"]}"#.to_string())
    );
}

#[test]
fn reads_what_was_written() {
    for list in [
        names(&[]),
        names(&["debug"]),
        names(&["z", "a", "m"]),
        names(&["a", "a"]),
        names(&["", " ", "with \"quotes\"", "new\nline", "\u{0}", "日本語", "\\u0041"]),
    ] {
        let text = write_preselected(&list).unwrap();
        assert_eq!(read_preselected(&text), Ok(PreSelected { preselected: list.clone() }));
        assert_eq!(prior_selection(Some(&text)), PreSelected { preselected: list });
    }
}

#[test]
fn reads_a_selection_file_and_ignores_other_members() {
    let text = r#" { "written_by": 1, "preselected" : [ "x", "z" ] } "#;
    assert_eq!(read_preselected(text), Ok(PreSelected { preselected: names(&["x", "z"]) }));
}

#[test]
fn read_preselected_tells_syntax_from_shape() {
    assert!(matches!(read_preselected(""), Err(FormatError::Syntax { .. })));
    assert!(matches!(read_preselected("{\"preselected\":[\"a\""), Err(FormatError::Syntax { .. })));
    for text in [
        "{}",
        "[]",
        "[\"a\"]",
        r#"{"preselected": null}"#,
        r#"{"preselected": "a"}"#,
        r#"{"Preselected": ["a"]}"#,
    ] {
        assert_eq!(read_preselected(text), Err(shape(None)), "{text}");
    }
    assert_eq!(read_preselected(r#"{"preselected": [1]}"#), Err(shape(Some(0))));
    assert_eq!(read_preselected(r#"{"preselected": ["a", null]}"#), Err(shape(Some(1))));
    assert_eq!(read_preselected(r#"{"preselected": ["a", "b", [], 1]}"#), Err(shape(Some(2))));
}

#[test]
fn a_missing_selection_file_is_an_empty_selection() {
    assert_eq!(prior_selection(None), PreSelected { preselected: vec![] });
}

#[test]
fn a_corrupt_selection_file_is_an_empty_selection() {
    for text in ["", "not json", "{", "{}", "null", r#"{"preselected": 3}"#, r#"{"preselected": ["a", 1]}"#] {
        assert_eq!(prior_selection(Some(text)), PreSelected { preselected: vec![] }, "{text:?}");
    }
}

#[test]
fn empty_selection_remembers_nothing() {
    assert_eq!(PreSelected::empty(), PreSelected { preselected: vec![] });
}

#[test]
fn selection_from_json_wants_a_list_of_strings() {
    let good = Json::Object(vec![(
        "preselected".to_string(),
        Json::Array(vec![Json::Text("a".to_string()), Json::Text("b".to_string())]),
    )]);
    assert_eq!(selection_from_json(&good), Ok(PreSelected { preselected: names(&["a", "b"]) }));
    let mixed = Json::Object(vec![(
        "preselected".to_string(),
        Json::Array(vec![Json::Text("a".to_string()), Json::Bool(true)]),
    )]);
    assert_eq!(selection_from_json(&mixed), Err(shape(Some(1))));
    assert_eq!(selection_from_json(&Json::Null), Err(shape(None)));
}

#[test]
fn chosen_names_are_the_names_in_order() {
    let a = Preset { name: "a".to_string(), display_name: Some("A".to_string()), binary_dir: Some("x".to_string()), hidden: false };
    let b = Preset { name: "b".to_string(), display_name: None, binary_dir: Some("y".to_string()), hidden: false };
    assert_eq!(chosen_names(&vec![&b, &a, &b]), names(&["b", "a", "b"]));
    assert_eq!(chosen_names(&vec![]), Vec::<String>::new());
}

#[test]
fn the_new_selection_replaces_the_old_one() {
    let first = write_preselected(&names(&["a", "b"])).unwrap();
    assert_eq!(prior_selection(Some(&first)).preselected, names(&["a", "b"]));
    let second = write_preselected(&names(&["c"])).unwrap();
    assert_eq!(prior_selection(Some(&second)).preselected, names(&["c"]));
}

#[test]
fn the_selection_file_has_a_fixed_hidden_name() {
    assert_eq!(selection_file_name(), ".bob");
}

#[test]
fn same_names_compares_names_and_order() {
    assert!(same_names(&names(&[]), &names(&[])));
    assert!(same_names(&names(&["a", "b"]), &names(&["a", "b"])));
    assert!(!same_names(&names(&["a", "b"]), &names(&["b", "a"])));
    assert!(!same_names(&names(&["a"]), &names(&["a", "a"])));
    assert!(!same_names(&names(&["a", "b"]), &names(&["a", "c"])));
    assert!(!same_names(&names(&["a"]), &names(&[])));
}

#[test]
fn nothing_is_ticked_without_a_usable_selection_file() {
    let x = Preset { name: "X".to_string(), display_name: None, binary_dir: Some("x".to_string()), hidden: false };
    let y = Preset { name: "Y".to_string(), display_name: None, binary_dir: Some("y".to_string()), hidden: false };
    let visible = vec![x, y];
    for contents in [None, Some("garbage"), Some("{}")] {
        let prior = prior_selection(contents);
        assert_eq!(checklist(&visible, &prior.preselected), vec![("X", false), ("Y", false)]);
    }
}
