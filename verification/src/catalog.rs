//! Reading the preset catalog out of a JSON document: an object whose member
//! `configurePresets` is a list of preset objects. Members that are not read
//! are ignored, so the document may hold more than this library knows.

use vstd::prelude::*;
use vstd::string::StringExecFns;
use crate::json::{FormatError, FormatErrorView, Json, JsonView, parsed_json};
use crate::preset::{Preset, PresetView, Presets, preset_views};
use crate::text::opt_chars;

verus! {

/// The model of a member that may be absent.
pub open spec fn field_view(field: Option<&Json>) -> Option<JsonView> {
    match field {
        Some(value) => Some(value@),
        None => None,
    }
}

/// A required string member: present, and a string.
pub open spec fn text_field(field: Option<JsonView>) -> Option<Seq<char>> {
    match field {
        Some(JsonView::Text(text)) => Some(text),
        _ => None,
    }
}

/// An optional string member: absent or `null` reads as no string; anything
/// but a string or `null` is malformed, which the outer `None` says.
pub open spec fn optional_text_field(field: Option<JsonView>) -> Option<Option<Seq<char>>> {
    match field {
        None => Some(None),
        Some(JsonView::Null) => Some(None),
        Some(JsonView::Text(text)) => Some(Some(text)),
        _ => None,
    }
}

/// A boolean member that defaults to `false` where it is absent; anything
/// but a boolean is malformed.
pub open spec fn flag_field(field: Option<JsonView>) -> Option<bool> {
    match field {
        None => Some(false),
        Some(JsonView::Bool(flag)) => Some(flag),
        _ => None,
    }
}

/// The preset that a document describes, if it describes one.
pub open spec fn decoded_preset(document: JsonView) -> Option<PresetView> {
    match (
        text_field(document.member("name"@)),
        optional_text_field(document.member("displayName"@)),
        optional_text_field(document.member("binaryDir"@)),
        flag_field(document.member("hidden"@)),
    ) {
        (Some(name), Some(display_name), Some(binary_dir), Some(hidden)) => Some(
            PresetView { name, display_name, binary_dir, hidden },
        ),
        _ => None,
    }
}

/// The first member of a preset document that is missing or of the wrong
/// kind, going through `name`, `displayName`, `binaryDir` and `hidden` in
/// this order; nothing where the document describes a preset.
pub open spec fn preset_fault(document: JsonView) -> Option<Seq<char>> {
    if text_field(document.member("name"@)) is None {
        Some("name"@)
    } else if optional_text_field(document.member("displayName"@)) is None {
        Some("displayName"@)
    } else if optional_text_field(document.member("binaryDir"@)) is None {
        Some("binaryDir"@)
    } else if flag_field(document.member("hidden"@)) is None {
        Some("hidden"@)
    } else {
        None
    }
}

/// The presets that the documents of a list describe, in order, if each
/// describes one.
pub open spec fn decoded_list(items: Seq<JsonView>) -> Option<Seq<PresetView>> {
    if forall|i: int| 0 <= i < items.len() ==> decoded_preset(#[trigger] items[i]) is Some {
        Some(items.map_values(|item: JsonView| decoded_preset(item)->0))
    } else {
        None
    }
}

/// The catalog that a document describes, if it describes one.
pub open spec fn decoded_presets(document: JsonView) -> Option<Seq<PresetView>> {
    match document.member("configurePresets"@) {
        Some(JsonView::Array(items)) => decoded_list(items),
        _ => None,
    }
}

/// Whether the item at `item` is the first of the list that describes no
/// preset.
pub open spec fn is_first_fault(items: Seq<JsonView>, item: int) -> bool {
    &&& 0 <= item < items.len()
    &&& decoded_preset(items[item]) is None
    &&& forall|j: int| 0 <= j < item ==> decoded_preset(#[trigger] items[j]) is Some
}

/// Whether `error` is what is reported of a document that describes no
/// catalog: the member `configurePresets` where it is absent or no list,
/// else the first item of the list that describes no preset, with the first
/// member of that item that is at fault.
pub open spec fn is_catalog_fault(document: JsonView, error: FormatErrorView) -> bool {
    match (document.member("configurePresets"@), error) {
        (
            Some(JsonView::Array(items)),
            FormatErrorView::Shape { member, item: Some(item) },
        ) => is_first_fault(items, item) && preset_fault(items[item]) == Some(member),
        (Some(JsonView::Array(_)), _) => false,
        (_, FormatErrorView::Shape { member, item: None }) => member == "configurePresets"@,
        _ => false,
    }
}

/// The outcome of loading a catalog from a text, given what the text parses to.
pub open spec fn loaded(parsed: Option<JsonView>) -> Option<Seq<PresetView>> {
    match parsed {
        Some(document) => decoded_presets(document),
        None => None,
    }
}

fn read_text(field: Option<&Json>) -> (r: Option<String>)
    ensures
        opt_chars(r) == text_field(field_view(field)),
{
    match field {
        Some(Json::Text(text)) => Some(text.clone()),
        _ => None,
    }
}

fn read_optional_text(field: Option<&Json>) -> (r: Option<Option<String>>)
    ensures
        match r {
            Some(text) => optional_text_field(field_view(field)) == Some(opt_chars(text)),
            None => optional_text_field(field_view(field)) is None,
        },
{
    match field {
        None => Some(None),
        Some(Json::Null) => Some(None),
        Some(Json::Text(text)) => Some(Some(text.clone())),
        _ => None,
    }
}

fn read_flag(field: Option<&Json>) -> (r: Option<bool>)
    ensures
        r == flag_field(field_view(field)),
{
    match field {
        None => Some(false),
        Some(Json::Bool(flag)) => Some(*flag),
        _ => None,
    }
}

/// Reads one preset, or names the first member that is missing or of the
/// wrong kind.
fn read_preset(document: &Json) -> (r: Result<Preset, String>)
    ensures
        match r {
            Ok(preset) => decoded_preset(document@) == Some(preset@) && preset_fault(document@)
                is None,
            Err(member) => decoded_preset(document@) is None && preset_fault(document@) == Some(
                member@,
            ),
        },
{
    let name = match read_text(document.member("name")) {
        Some(name) => name,
        None => { return Err(String::from_str("name")); },
    };
    let display_name = match read_optional_text(document.member("displayName")) {
        Some(display_name) => display_name,
        None => { return Err(String::from_str("displayName")); },
    };
    let binary_dir = match read_optional_text(document.member("binaryDir")) {
        Some(binary_dir) => binary_dir,
        None => { return Err(String::from_str("binaryDir")); },
    };
    let hidden = match read_flag(document.member("hidden")) {
        Some(hidden) => hidden,
        None => { return Err(String::from_str("hidden")); },
    };
    Ok(Preset { name, display_name, binary_dir, hidden })
}

/// Reads one preset: `name` is required and a string; `displayName` and
/// `binaryDir` are strings where present and not `null`; `hidden` is a
/// boolean and `false` where absent. Other members are ignored. The error
/// names the first of these members that is missing or of the wrong kind.
pub fn preset_from_json(document: &Json) -> (r: Result<Preset, FormatError>)
    ensures
        match r {
            Ok(preset) => decoded_preset(document@) == Some(preset@),
            Err(error) => {
                &&& decoded_preset(document@) is None
                &&& preset_fault(document@) is Some
                &&& error@ == (FormatErrorView::Shape {
                    member: preset_fault(document@)->0,
                    item: None,
                })
            },
        },
{
    match read_preset(document) {
        Ok(preset) => Ok(preset),
        Err(member) => Err(FormatError::Shape { member, item: None }),
    }
}

/// Reads the catalog: the presets of the list `configurePresets`, in the
/// order of the list. Fails where that member is absent or no list, or where
/// one of its items is no preset; the error names the member, and for an
/// item the first one at fault.
pub fn presets_from_json(document: &Json) -> (r: Result<Presets, FormatError>)
    ensures
        match r {
            Ok(presets) => decoded_presets(document@) == Some(presets@),
            Err(error) => decoded_presets(document@) is None && is_catalog_fault(
                document@,
                error@,
            ),
        },
{
    let items = match document.member("configurePresets") {
        Some(Json::Array(items)) => items,
        _ => {
            return Err(
                FormatError::Shape { member: String::from_str("configurePresets"), item: None },
            );
        },
    };
    let ghost shown = document@.member("configurePresets"@)->0->Array_0;
    let mut presets: Vec<Preset> = Vec::new();
    let mut i: usize = 0;
    while i < items.len()
        invariant
            i <= items.len(),
            document@.member("configurePresets"@) == Some(JsonView::Array(shown)),
            shown.len() == items.len(),
            forall|j: int| 0 <= j < items.len() ==> #[trigger] shown[j] == items@[j]@,
            presets.len() == i,
            forall|j: int|
                0 <= j < i ==> decoded_preset(#[trigger] shown[j]) == Some(presets@[j]@),
        decreases items.len() - i,
    {
        match read_preset(&items[i]) {
            Ok(preset) => {
                presets.push(preset);
            },
            Err(member) => {
                assert(is_first_fault(shown, i as int));
                return Err(FormatError::Shape { member, item: Some(i) });
            },
        }
        i += 1;
    }
    proof {
        assert(preset_views(presets@) =~= shown.map_values(
            |item: JsonView| decoded_preset(item)->0,
        ));
    }
    Ok(Presets { configure_presets: presets })
}

/// Loads the catalog from the text of a catalog file.
///
/// Succeeds exactly where the text is JSON that describes a catalog; the
/// error says which of the two failed, and for the shape, which member is
/// at fault and in which item of the list.
///
/// The whole text is parsed, the members that are not read included: a
/// number out of range, or nesting deeper than the parser allows, makes the
/// text no JSON wherever it stands. Where an object names a member twice,
/// the later one counts.
pub fn parse_presets(text: &str) -> (r: Result<Presets, FormatError>)
    ensures
        match r {
            Ok(presets) => loaded(parsed_json(text@)) == Some(presets@),
            Err(FormatError::Syntax { .. }) => parsed_json(text@) is None,
            Err(error) => {
                &&& parsed_json(text@) is Some
                &&& loaded(parsed_json(text@)) is None
                &&& is_catalog_fault(parsed_json(text@)->0, error@)
            },
        },
{
    match Json::from_text(text) {
        Ok(document) => presets_from_json(&document),
        Err(error) => Err(error),
    }
}

} // verus!
