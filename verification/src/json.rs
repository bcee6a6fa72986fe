//! JSON documents as plain values, and the calls into `serde_json` that
//! read and write their text. Nothing in here is proved of `serde_json`:
//! what a text parses to, and what a document is written as, are given names,
//! and the rest of the library is verified against those names.

use vstd::prelude::*;
use crate::text::strings;

verus! {

/// A JSON document.
#[derive(Debug, PartialEq, Eq)]
pub enum Json {
    Null,
    Bool(bool),
    /// A number, as its decimal text.
    Number(String),
    Text(String),
    Array(Vec<Json>),
    /// The members of an object, key and value. Where a key occurs twice,
    /// the later member counts.
    Object(Vec<(String, Json)>),
}

/// Why a text is not a document of the expected kind.
#[derive(Debug, PartialEq, Eq)]
pub enum FormatError {
    /// The text is not JSON. `detail` is the parser's message.
    Syntax { detail: String },
    /// The text is JSON, but not of the expected shape. `member` names the
    /// member that is missing or of the wrong kind. Where the fault lies in
    /// an item of the list that the document holds, `item` is the position
    /// of that item.
    Shape { member: String, item: Option<usize> },
}

/// Mathematical model of a [`FormatError`].
pub enum FormatErrorView {
    Syntax { detail: Seq<char> },
    Shape { member: Seq<char>, item: Option<int> },
}

/// The model of a position that may be absent.
pub open spec fn opt_position(item: Option<usize>) -> Option<int> {
    match item {
        Some(position) => Some(position as int),
        None => None,
    }
}

impl View for FormatError {
    type V = FormatErrorView;

    open spec fn view(&self) -> FormatErrorView {
        match *self {
            FormatError::Syntax { detail } => FormatErrorView::Syntax { detail: detail@ },
            FormatError::Shape { member, item } => FormatErrorView::Shape {
                member: member@,
                item: opt_position(item),
            },
        }
    }
}

/// Mathematical model of a [`Json`] document.
pub enum JsonView {
    Null,
    Bool(bool),
    Number(Seq<char>),
    Text(Seq<char>),
    Array(Seq<JsonView>),
    Object(Seq<(Seq<char>, JsonView)>),
}

/// The model of a document, member by member.
pub open spec fn json_view(document: Json) -> JsonView
    decreases document,
{
    match document {
        Json::Null => JsonView::Null,
        Json::Bool(flag) => JsonView::Bool(flag),
        Json::Number(digits) => JsonView::Number(digits@),
        Json::Text(text) => JsonView::Text(text@),
        Json::Array(items) => JsonView::Array(
            Seq::new(
                items@.len(),
                |i: int|
                    if 0 <= i < items@.len() {
                        json_view(items@[i])
                    } else {
                        JsonView::Null
                    },
            ),
        ),
        Json::Object(members) => JsonView::Object(
            Seq::new(
                members@.len(),
                |i: int|
                    if 0 <= i < members@.len() {
                        (members@[i].0@, json_view(members@[i].1))
                    } else {
                        (Seq::empty(), JsonView::Null)
                    },
            ),
        ),
    }
}

impl View for Json {
    type V = JsonView;

    open spec fn view(&self) -> JsonView {
        json_view(*self)
    }
}

/// The value of the last member of `members` whose key is `key`.
pub open spec fn find_member(members: Seq<(Seq<char>, JsonView)>, key: Seq<char>) -> Option<
    JsonView,
>
    decreases members.len(),
{
    if members.len() == 0 {
        None
    } else if members.last().0 == key {
        Some(members.last().1)
    } else {
        find_member(members.drop_last(), key)
    }
}

impl JsonView {
    /// The member `key` of an object; nothing for any other document.
    pub open spec fn member(self, key: Seq<char>) -> Option<JsonView> {
        match self {
            JsonView::Object(members) => find_member(members, key),
            _ => None,
        }
    }
}

/// `serde_json::Value`, carried through as it is: the verifier sees nothing
/// inside it.
#[verifier::external_type_specification]
#[verifier::external_body]
pub struct ExValue(serde_json::Value);

/// `serde_json::Error`, carried through as it is.
#[verifier::external_type_specification]
#[verifier::external_body]
pub struct ExError(serde_json::Error);

/// The document that `serde_json::from_str` reads from `text` as a
/// `serde_json::Value`, or nothing where it reports an error.
pub uninterp spec fn parsed_json(text: Seq<char>) -> Option<JsonView>;

/// The text that `serde_json::to_string` writes for the `serde_json::Value`
/// that holds a document, or nothing where it reports an error.
pub uninterp spec fn json_text(document: JsonView) -> Option<Seq<char>>;

/// What a `serde_json::Value` holds, as a document: a number as its
/// `Display` text, an object as its entries in the order `serde_json::Map`
/// hands them out.
pub uninterp spec fn value_document(value: serde_json::Value) -> JsonView;

/// The outermost level of a `serde_json::Value`: which variant it is, with
/// the values below it left as they are.
enum Level {
    Null,
    Bool(bool),
    Number(String),
    Text(String),
    Array(Vec<serde_json::Value>),
    Object(Vec<(String, serde_json::Value)>),
}

/// The document that a level stands for.
spec fn level_document(level: Level) -> JsonView {
    match level {
        Level::Null => JsonView::Null,
        Level::Bool(flag) => JsonView::Bool(flag),
        Level::Number(digits) => JsonView::Number(digits@),
        Level::Text(text) => JsonView::Text(text@),
        Level::Array(items) => JsonView::Array(
            items@.map_values(|item: serde_json::Value| value_document(item)),
        ),
        Level::Object(entries) => JsonView::Object(
            entries@.map_values(
                |entry: (String, serde_json::Value)| (entry.0@, value_document(entry.1)),
            ),
        ),
    }
}

/// Calls `serde_json::from_str` for a `serde_json::Value`. The contract only
/// names the outcome: what the value holds is `parsed_json` of the text, and
/// an error comes exactly where `parsed_json` has nothing.
#[verifier::external_body]
fn parse_value(text: &str) -> (r: Result<serde_json::Value, serde_json::Error>)
    ensures
        parsed_json(text@) == match r {
            Ok(value) => Some(value_document(value)),
            Err(_) => None,
        },
{
    serde_json::from_str(text)
}

/// Takes a `serde_json::Value` apart by its variant, one level deep: the
/// fields move out as they are, a number as its `Display` text, the entries
/// of an object in the order `serde_json::Map::into_iter` hands them out.
#[verifier::external_body]
fn open_value(value: serde_json::Value) -> (r: Level)
    ensures
        level_document(r) == value_document(value),
{
    match value {
        serde_json::Value::Null => Level::Null,
        serde_json::Value::Bool(flag) => Level::Bool(flag),
        serde_json::Value::Number(number) => Level::Number(number.to_string()),
        serde_json::Value::String(text) => Level::Text(text),
        serde_json::Value::Array(items) => Level::Array(items),
        serde_json::Value::Object(map) => Level::Object(map.into_iter().collect()),
    }
}

/// The document that a `serde_json::Value` holds, level by level.
fn json_from_value(value: serde_json::Value) -> (r: Json)
    ensures
        r@ == value_document(value),
    decreases value_document(value),
{
    let ghost whole = value_document(value);
    match open_value(value) {
        Level::Null => Json::Null,
        Level::Bool(flag) => Json::Bool(flag),
        Level::Number(digits) => Json::Number(digits),
        Level::Text(text) => Json::Text(text),
        Level::Array(items) => {
            let ghost below = items@.map_values(|item: serde_json::Value| value_document(item));
            let mut documents: Vec<Json> = Vec::new();
            for item in it: items
                invariant
                    whole == value_document(value),
                    whole == JsonView::Array(below),
                    below == items@.map_values(|item: serde_json::Value| value_document(item)),
                    documents.len() == it.index(),
                    forall|j: int| 0 <= j < documents.len() ==> (#[trigger] documents@[j])@ == below[j],
            {
                proof {
                    assert(below[it.index() as int] == value_document(item));
                    assert(decreases_to!(whole => whole->Array_0));
                    assert(decreases_to!(below => below[it.index() as int]));
                }
                documents.push(json_from_value(item));
            }
            let r = Json::Array(documents);
            proof {
                assert(r@->Array_0 =~= below);
            }
            r
        },
        Level::Object(entries) => {
            let ghost below = entries@.map_values(
                |entry: (String, serde_json::Value)| (entry.0@, value_document(entry.1)),
            );
            let mut members: Vec<(String, Json)> = Vec::new();
            for entry in it: entries
                invariant
                    whole == value_document(value),
                    whole == JsonView::Object(below),
                    below == entries@.map_values(
                        |entry: (String, serde_json::Value)| (entry.0@, value_document(entry.1)),
                    ),
                    members.len() == it.index(),
                    forall|j: int|
                        0 <= j < members.len() ==> ((#[trigger] members@[j]).0@, members@[j].1@)
                            == below[j],
            {
                proof {
                    assert(below[it.index() as int] == (entry.0@, value_document(entry.1)));
                    assert(decreases_to!(whole => whole->Object_0));
                    assert(decreases_to!(below => below[it.index() as int]));
                    assert(decreases_to!(below[it.index() as int] => below[it.index() as int].1));
                }
                let (key, member) = entry;
                members.push((key, json_from_value(member)));
            }
            let r = Json::Object(members);
            proof {
                assert(r@->Object_0 =~= below);
            }
            r
        },
    }
}

/// Calls the `Display` of a `serde_json::Error`: its message with line and
/// column. Nothing is claimed of the text.
#[verifier::external_body]
pub(crate) fn error_text(error: &serde_json::Error) -> String {
    error.to_string()
}

/// Calls `serde_json::to_string` on the `serde_json::Value` that is an object
/// with the single member `key`, whose value is the array of the strings
/// `items`. The contract only names the outcome: the text written is
/// `json_text` of that document, and an error comes exactly where
/// `json_text` has nothing.
#[verifier::external_body]
pub(crate) fn render_string_list(key: &str, items: &Vec<String>) -> (r: Result<
    String,
    serde_json::Error,
>)
    ensures
        json_text(string_list_document(key@, strings(items@))) == match r {
            Ok(text) => Some(text@),
            Err(_) => None,
        },
{
    let mut object = serde_json::Map::new();
    object.insert(key.to_string(), serde_json::Value::from(items.clone()));
    serde_json::to_string(&serde_json::Value::Object(object))
}

/// The object `{ key: [items...] }`.
pub open spec fn string_list_document(key: Seq<char>, items: Seq<Seq<char>>) -> JsonView {
    JsonView::Object(
        seq![(key, JsonView::Array(items.map_values(|item: Seq<char>| JsonView::Text(item))))],
    )
}

impl Json {
    /// Reads a document from its text. Fails, with the `Syntax` error,
    /// exactly where the text is not JSON. A number out of range, or
    /// nesting deeper than the parser allows, makes a text no JSON; of two
    /// members of an object with one key only the later is kept.
    pub fn from_text(text: &str) -> (r: Result<Json, FormatError>)
        ensures
            match r {
                Ok(document) => parsed_json(text@) == Some(document@),
                Err(error) => error is Syntax && parsed_json(text@) is None,
            },
    {
        match parse_value(text) {
            Ok(value) => Ok(json_from_value(value)),
            Err(error) => Err(FormatError::Syntax { detail: error_text(&error) }),
        }
    }

    /// The member `key` of an object: the last one where the key occurs
    /// more than once, nothing where it does not occur or `self` is no object.
    pub fn member(&self, key: &str) -> (r: Option<&Json>)
        ensures
            match r {
                Some(found) => self@.member(key@) == Some(found@),
                None => self@.member(key@) is None,
            },
    {
        match self {
            Json::Object(members) => {
                let wanted = key.to_owned();
                let mut found: Option<&Json> = None;
                let mut i: usize = 0;
                while i < members.len()
                    invariant
                        i <= members.len(),
                        wanted@ == key@,
                        self@ is Object,
                        self@->Object_0.len() == members.len(),
                        forall|j: int|
                            0 <= j < members.len() ==> (#[trigger] self@->Object_0[j]) == (
                                members@[j].0@,
                                members@[j].1@,
                            ),
                        match found {
                            Some(value) => find_member(self@->Object_0.take(i as int), key@)
                                == Some(value@),
                            None => find_member(self@->Object_0.take(i as int), key@) is None,
                        },
                    decreases members.len() - i,
                {
                    proof {
                        let all = self@->Object_0;
                        assert(all.take(i + 1).drop_last() =~= all.take(i as int));
                        assert(all.take(i + 1).last() == all[i as int]);
                    }
                    if members[i].0 == wanted {
                        found = Some(&members[i].1);
                    }
                    i += 1;
                }
                proof {
                    assert(self@->Object_0.take(i as int) =~= self@->Object_0);
                }
                found
            },
            _ => None,
        }
    }
}

} // verus!
