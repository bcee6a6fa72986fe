//! The remembered selection: which presets were chosen last time. It is kept
//! as a JSON object whose member `preselected` lists their names.

use vstd::prelude::*;
use vstd::string::StringExecFns;
use crate::json::{
    FormatError, FormatErrorView, Json, JsonView, error_text, json_text, parsed_json,
    render_string_list, string_list_document,
};
use crate::preset::Preset;
use crate::selector::referents;
use crate::text::{opt_str_chars, strings};

verus! {

/// The names chosen on the previous run.
#[derive(Debug, PartialEq, Eq)]
pub struct PreSelected {
    pub preselected: Vec<String>,
}

impl View for PreSelected {
    type V = Seq<Seq<char>>;

    open spec fn view(&self) -> Seq<Seq<char>> {
        strings(self.preselected@)
    }
}

/// Why no text was written for a selection.
#[derive(Debug, PartialEq, Eq)]
pub enum EncodeError {
    /// The serializer gave an error. `detail` is its message.
    Rejected { detail: String },
    /// The text that the serializer gave does not read back as the names
    /// that went in.
    Unfaithful,
}

/// Every item is a string.
pub open spec fn all_text(items: Seq<JsonView>) -> bool {
    forall|i: int| 0 <= i < items.len() ==> #[trigger] items[i] is Text
}

/// The names that a document remembers, if it is of the expected shape:
/// an object whose member `preselected` is a list of strings.
pub open spec fn decoded_selection(document: JsonView) -> Option<Seq<Seq<char>>> {
    match document.member("preselected"@) {
        Some(JsonView::Array(items)) => if all_text(items) {
            Some(items.map_values(|item: JsonView| item->Text_0))
        } else {
            None
        },
        _ => None,
    }
}

/// Whether `error` is what is reported of a document that remembers no
/// selection: the member `preselected`, and where it is a list, the
/// position of its first item that is no string.
pub open spec fn is_selection_fault(document: JsonView, error: FormatErrorView) -> bool {
    match (document.member("preselected"@), error) {
        (Some(JsonView::Array(items)), FormatErrorView::Shape { member, item: Some(item) }) => {
            &&& member == "preselected"@
            &&& 0 <= item < items.len()
            &&& !(items[item] is Text)
            &&& forall|j: int| 0 <= j < item ==> #[trigger] items[j] is Text
        },
        (Some(JsonView::Array(_)), _) => false,
        (_, FormatErrorView::Shape { member, item: None }) => member == "preselected"@,
        _ => false,
    }
}

/// The document that remembers `names`.
pub open spec fn selection_document(names: Seq<Seq<char>>) -> JsonView {
    string_list_document("preselected"@, names)
}

/// The selection that the text of a selection file stands for, given what
/// the text parses to.
pub open spec fn remembered(parsed: Option<JsonView>) -> Option<Seq<Seq<char>>> {
    match parsed {
        Some(document) => decoded_selection(document),
        None => None,
    }
}

/// The selection to start from, given the contents of the selection file
/// where it could be read: what the file remembers, and nothing where the
/// file is missing, is no JSON, or is of another shape.
pub open spec fn prior(contents: Option<Seq<char>>) -> Seq<Seq<char>> {
    match contents {
        Some(text) => match remembered(parsed_json(text)) {
            Some(names) => names,
            None => Seq::empty(),
        },
        None => Seq::empty(),
    }
}

/// The names of a sequence of presets, in order.
pub open spec fn preset_names(presets: Seq<Preset>) -> Seq<Seq<char>> {
    presets.map_values(|preset: Preset| preset.name@)
}

impl PreSelected {
    /// The selection that remembers nothing.
    pub fn empty() -> (r: PreSelected)
        ensures
            r@ == Seq::<Seq<char>>::empty(),
    {
        let r = PreSelected { preselected: Vec::new() };
        proof {
            assert(r@ =~= Seq::<Seq<char>>::empty());
        }
        r
    }
}

/// Reads the remembered names out of a document. The error names the member
/// `preselected`, and where it is a list, its first item that is no string.
pub fn selection_from_json(document: &Json) -> (r: Result<PreSelected, FormatError>)
    ensures
        match r {
            Ok(selection) => decoded_selection(document@) == Some(selection@),
            Err(error) => decoded_selection(document@) is None && is_selection_fault(
                document@,
                error@,
            ),
        },
{
    let items = match document.member("preselected") {
        Some(Json::Array(items)) => items,
        _ => {
            return Err(FormatError::Shape { member: String::from_str("preselected"), item: None });
        },
    };
    let ghost shown = document@.member("preselected"@)->0->Array_0;
    let mut names: Vec<String> = Vec::new();
    let mut i: usize = 0;
    while i < items.len()
        invariant
            i <= items.len(),
            document@.member("preselected"@) == Some(JsonView::Array(shown)),
            shown.len() == items.len(),
            forall|j: int| 0 <= j < items.len() ==> #[trigger] shown[j] == items@[j]@,
            names.len() == i,
            forall|j: int|
                0 <= j < i ==> (#[trigger] shown[j]) == JsonView::Text(names@[j]@),
        decreases items.len() - i,
    {
        match &items[i] {
            Json::Text(name) => {
                names.push(name.clone());
            },
            _ => {
                assert(!(shown[i as int] is Text));
                return Err(
                    FormatError::Shape { member: String::from_str("preselected"), item: Some(i) },
                );
            },
        }
        i += 1;
    }
    proof {
        assert(strings(names@) =~= shown.map_values(|item: JsonView| item->Text_0));
    }
    Ok(PreSelected { preselected: names })
}

/// Reads the remembered selection from the text of a selection file.
///
/// Succeeds exactly where the text is JSON of the expected shape; the error
/// says which of the two failed, and for the shape, which item of the list
/// is at fault.
///
/// The whole text is parsed, the members that are not read included: a
/// number out of range, or nesting deeper than the parser allows, makes the
/// text no JSON wherever it stands. Where an object names a member twice,
/// the later one counts.
pub fn read_preselected(text: &str) -> (r: Result<PreSelected, FormatError>)
    ensures
        match r {
            Ok(selection) => remembered(parsed_json(text@)) == Some(selection@),
            Err(FormatError::Syntax { .. }) => parsed_json(text@) is None,
            Err(error) => {
                &&& parsed_json(text@) is Some
                &&& remembered(parsed_json(text@)) is None
                &&& is_selection_fault(parsed_json(text@)->0, error@)
            },
        },
{
    match Json::from_text(text) {
        Ok(document) => selection_from_json(&document),
        Err(error) => Err(error),
    }
}

/// The selection to seed the checklist with. `contents` is the text of the
/// selection file, or nothing where the file could not be read. Whatever is
/// wrong with the file, the answer is the empty selection, never an error.
pub fn prior_selection(contents: Option<&str>) -> (r: PreSelected)
    ensures
        r@ == prior(opt_str_chars(contents)),
        contents is None ==> r@.len() == 0,
        contents matches Some(text) && remembered(parsed_json(text@)) is None ==> r@.len() == 0,
{
    match contents {
        Some(text) => match read_preselected(text) {
            Ok(selection) => selection,
            Err(_) => PreSelected::empty(),
        },
        None => PreSelected::empty(),
    }
}

/// The names of the chosen presets, in the order they were chosen in.
pub fn chosen_names(chosen: &Vec<&Preset>) -> (r: Vec<String>)
    ensures
        strings(r@) == preset_names(referents(chosen@)),
{
    let mut names: Vec<String> = Vec::new();
    let mut i: usize = 0;
    while i < chosen.len()
        invariant
            i <= chosen.len(),
            names.len() == i,
            forall|j: int| 0 <= j < i ==> (#[trigger] names@[j])@ == chosen@[j].name@,
        decreases chosen.len() - i,
    {
        names.push(chosen[i].name.clone());
        i += 1;
    }
    proof {
        assert(strings(names@) =~= preset_names(referents(chosen@)));
    }
    names
}

/// Whether two lists hold the same names in the same order.
pub fn same_names(left: &Vec<String>, right: &Vec<String>) -> (r: bool)
    ensures
        r == (strings(left@) == strings(right@)),
{
    if left.len() != right.len() {
        return false;
    }
    let mut i: usize = 0;
    while i < left.len()
        invariant
            i <= left.len(),
            left.len() == right.len(),
            forall|j: int| 0 <= j < i ==> (#[trigger] left@[j])@ == right@[j]@,
        decreases left.len() - i,
    {
        if left[i] != right[i] {
            assert(strings(left@)[i as int] != strings(right@)[i as int]);
            return false;
        }
        i += 1;
    }
    proof {
        assert(strings(left@) =~= strings(right@));
    }
    true
}

/// The name of the selection file, which lies beside the catalog file.
pub fn selection_file_name() -> (r: &'static str)
    ensures
        r@ == ".bob"@,
{
    ".bob"
}

/// Writes the text of the selection file that remembers `names`, in the
/// order given. The new text replaces what was remembered; nothing of an
/// earlier selection goes into it.
///
/// The text is handed out only after it has been read back. So it comes out
/// exactly where the serializer writes one that reads back as `names`, and
/// whoever reads it, with nothing done to it in between, gets exactly
/// `names`, in the same order. `Rejected` comes exactly where the serializer
/// writes no text, `Unfaithful` exactly where it writes one that reads back
/// as something else.
pub fn write_preselected(names: &Vec<String>) -> (r: Result<String, EncodeError>)
    ensures
        match r {
            Ok(text) => {
                &&& json_text(selection_document(strings(names@))) == Some(text@)
                &&& remembered(parsed_json(text@)) == Some(strings(names@))
                &&& prior(Some(text@)) == strings(names@)
            },
            Err(EncodeError::Rejected { .. }) => json_text(selection_document(strings(names@)))
                is None,
            Err(EncodeError::Unfaithful) => {
                &&& json_text(selection_document(strings(names@))) is Some
                &&& remembered(parsed_json(json_text(selection_document(strings(names@)))->0))
                    != Some(strings(names@))
            },
        },
{
    let text = match render_string_list("preselected", names) {
        Ok(text) => text,
        Err(error) => { return Err(EncodeError::Rejected { detail: error_text(&error) }); },
    };
    match read_preselected(text.as_str()) {
        Ok(read_back) => if same_names(&read_back.preselected, names) {
            Ok(text)
        } else {
            Err(EncodeError::Unfaithful)
        },
        Err(_) => Err(EncodeError::Unfaithful),
    }
}

/// A selection file that is missing, that is no JSON, or that is JSON of
/// another shape gives the empty selection: nothing is ticked beforehand.
pub proof fn unusable_selection_file_is_empty(contents: Option<Seq<char>>)
    requires
        contents is None || remembered(parsed_json(contents->0)) is None,
    ensures
        prior(contents) == Seq::<Seq<char>>::empty(),
        forall|name: Seq<char>| !prior(contents).contains(name),
{
}

/// A document that remembers names gives back just those names, in the same
/// order, when it is read.
pub proof fn selection_document_round_trip(names: Seq<Seq<char>>)
    ensures
        decoded_selection(selection_document(names)) == Some(names),
{
    let document = selection_document(names);
    let members = document->Object_0;
    let items = names.map_values(|item: Seq<char>| JsonView::Text(item));
    assert(members.len() == 1);
    assert(members.last() == ("preselected"@, JsonView::Array(items)));
    assert(document.member("preselected"@) == Some(JsonView::Array(items)));
    assert(all_text(items));
    assert(items.map_values(|item: JsonView| item->Text_0) =~= names);
}

} // verus!
