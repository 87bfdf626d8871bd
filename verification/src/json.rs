//! JSON documents as trees of plain values.

use crate::text::same_text;
use vstd::prelude::*;

verus! {

/// A JSON document.
#[derive(Debug, PartialEq, Eq)]
pub enum Json {
    Null,
    Bool(bool),
    /// A number. It carries its value where that is a whole number from zero
    /// to `u64::MAX`, and nothing otherwise.
    Number(Option<u64>),
    Text(String),
    Array(Vec<Json>),
    /// An object, as its members. Of several members with one name the last
    /// one counts.
    Object(Vec<(String, Json)>),
}

/// What a [`Json`] tree stands for.
pub enum JsonView {
    Null,
    Bool(bool),
    Number(Option<u64>),
    Text(Seq<char>),
    Array(Seq<JsonView>),
    /// An object: the value under each name that it has.
    Object(Map<Seq<char>, JsonView>),
}

/// The place of the last member with the given name, or -1 where no member
/// has it.
pub open spec fn last_named(members: Seq<(String, Json)>, name: Seq<char>) -> int
    decreases members.len(),
{
    if members.len() == 0 {
        -1
    } else if members.last().0@ == name {
        members.len() - 1
    } else {
        last_named(members.drop_last(), name)
    }
}

/// The view of a tree, by recursion on it.
pub open spec fn tree_view(json: Json) -> JsonView
    decreases json,
{
    match json {
        Json::Null => JsonView::Null,
        Json::Bool(b) => JsonView::Bool(b),
        Json::Number(n) => JsonView::Number(n),
        Json::Text(s) => JsonView::Text(s@),
        Json::Array(items) => JsonView::Array(
            Seq::new(
                items@.len(),
                |i: int|
                    if 0 <= i < items@.len() {
                        tree_view(items@[i])
                    } else {
                        JsonView::Null
                    },
            ),
        ),
        Json::Object(members) => JsonView::Object(
            Map::new(
                |name: Seq<char>| last_named(members@, name) >= 0,
                |name: Seq<char>|
                    {
                        let i = last_named(members@, name);
                        if 0 <= i < members@.len() {
                            tree_view(members@[i].1)
                        } else {
                            JsonView::Null
                        }
                    },
            ),
        ),
    }
}

impl View for Json {
    type V = JsonView;

    open spec fn view(&self) -> JsonView {
        tree_view(*self)
    }
}

/// The members of an object as the value under each name. Of several
/// members with one name the last one counts.
pub open spec fn members_view(members: Seq<(String, Json)>) -> Map<Seq<char>, JsonView> {
    Map::new(
        |name: Seq<char>| last_named(members, name) >= 0,
        |name: Seq<char>| members[last_named(members, name)].1@,
    )
}

/// The items of an array, each by its view.
pub open spec fn items_view(items: Seq<Json>) -> Seq<JsonView> {
    Seq::new(items.len(), |i: int| items[i]@)
}

/// The last member with a name is a member with that name, and no later
/// member has the name.
pub proof fn lemma_last_named(members: Seq<(String, Json)>, name: Seq<char>)
    ensures
        -1 <= last_named(members, name) < members.len(),
        last_named(members, name) >= 0 ==> members[last_named(members, name)].0@ == name,
        forall|j: int|
            last_named(members, name) < j < members.len() ==> (#[trigger] members[j]).0@ != name,
    decreases members.len(),
{
    if members.len() > 0 && members.last().0@ != name {
        let front = members.drop_last();
        lemma_last_named(front, name);
        assert forall|j: int| last_named(members, name) < j < members.len() implies (
        #[trigger] members[j]).0@ != name by {
            if j < front.len() {
                assert(front[j] == members[j]);
            }
        }
    }
}

/// A member with a name that no later member has is the last one with that
/// name.
pub proof fn lemma_last_named_is(members: Seq<(String, Json)>, name: Seq<char>, i: int)
    requires
        0 <= i < members.len(),
        members[i].0@ == name,
        forall|j: int| i < j < members.len() ==> (#[trigger] members[j]).0@ != name,
    ensures
        last_named(members, name) == i,
    decreases members.len(),
{
    if i < members.len() - 1 {
        let front = members.drop_last();
        assert(front[i] == members[i]);
        assert forall|j: int| i < j < front.len() implies (#[trigger] front[j]).0@ != name by {
            assert(front[j] == members[j]);
        }
        lemma_last_named_is(front, name, i);
    }
}

/// A name that no member has is not found.
pub proof fn lemma_last_named_none(members: Seq<(String, Json)>, name: Seq<char>)
    requires
        forall|j: int| 0 <= j < members.len() ==> (#[trigger] members[j]).0@ != name,
    ensures
        last_named(members, name) == -1,
    decreases members.len(),
{
    if members.len() > 0 {
        let front = members.drop_last();
        assert forall|j: int| 0 <= j < front.len() implies (#[trigger] front[j]).0@ != name by {
            assert(front[j] == members[j]);
        }
        lemma_last_named_none(front, name);
    }
}

/// The view of an object is the view of its members.
pub proof fn lemma_object_view(members: Vec<(String, Json)>)
    ensures
        Json::Object(members)@ == JsonView::Object(members_view(members@)),
{
    assert forall|name: Seq<char>| -1 <= #[trigger] last_named(members@, name) < members@.len() by {
        lemma_last_named(members@, name);
    }
    assert(Json::Object(members)@->Object_0 =~= members_view(members@));
}

/// The view of an array is the view of its items.
pub proof fn lemma_array_view(items: Vec<Json>)
    ensures
        Json::Array(items)@ == JsonView::Array(items_view(items@)),
{
    assert(Json::Array(items)@->Array_0 =~= items_view(items@));
}

/// The value under a name, if the object has the name.
pub open spec fn member(members: Map<Seq<char>, JsonView>, name: Seq<char>) -> Option<JsonView> {
    if members.dom().contains(name) {
        Some(members[name])
    } else {
        None
    }
}

/// Finds the member with the given name: the last one, if several have it.
pub fn find_member<'a>(members: &'a Vec<(String, Json)>, name: &str) -> (found: Option<&'a Json>)
    ensures
        match found {
            Some(json) => member(members_view(members@), name@) == Some(json@),
            None => member(members_view(members@), name@) is None,
        },
{
    let mut i: usize = members.len();
    while i > 0
        invariant
            i <= members.len(),
            forall|j: int| i <= j < members.len() ==> (#[trigger] members@[j]).0@ != name@,
        decreases i,
    {
        i -= 1;
        if same_text(members[i].0.as_str(), name) {
            proof {
                lemma_last_named_is(members@, name@, i as int);
            }
            return Some(&members[i].1);
        }
    }
    proof {
        lemma_last_named_none(members@, name@);
    }
    None
}

/// Adds a member to the members of an object. It takes the place of any
/// member that has the name already.
pub fn put_member(members: &mut Vec<(String, Json)>, name: &'static str, value: Json)
    ensures
        members_view(final(members)@) == members_view(old(members)@).insert(name@, value@),
{
    let ghost before = members@;
    members.push((name.to_owned(), value));
    proof {
        let after = members@;
        assert(after.drop_last() =~= before);
        assert(last_named(after, name@) == after.len() - 1);
        assert forall|other: Seq<char>| other != name@ implies #[trigger] last_named(after, other)
            == last_named(before, other) && (last_named(before, other) >= 0 ==> after[last_named(
            after,
            other,
        )] == before[last_named(before, other)]) by {
            lemma_last_named(before, other);
        }
        assert(members_view(after) =~= members_view(before).insert(name@, value@));
    }
}

/// Where a text stops being JSON.
#[derive(Clone, Copy, Debug, PartialEq, Eq, Structural)]
pub struct SyntaxError {
    /// The line of the fault, counted from one.
    pub line: usize,
    /// The column of the fault within its line.
    pub column: usize,
}

/// `serde_json::Value`, which is handed from and to `serde_json` as it is.
#[verifier::external_type_specification]
#[verifier::external_body]
pub struct ExValue(serde_json::Value);

/// What a `serde_json::Value` holds: the document that [`json_of_value`]
/// copies out of it.
pub uninterp spec fn value_view(value: serde_json::Value) -> JsonView;

/// The compact JSON text that `serde_json` prints for a `serde_json::Value`.
pub uninterp spec fn value_text(value: serde_json::Value) -> Seq<char>;

/// The document that a text holds, or the place where the text stops being
/// JSON. It stands for what `serde_json::from_str` makes of the text when
/// asked for a `serde_json::Value`.
pub uninterp spec fn parsed_text(text: Seq<char>) -> Result<JsonView, SyntaxError>;

/// The compact JSON text of a document. It stands for what `serde_json`
/// prints for the `serde_json::Value` that is made of the document.
pub uninterp spec fn rendered_json(json: JsonView) -> Seq<char>;

/// What reading a text came to, with the document taken by its view.
pub open spec fn read_view(read: Result<Json, SyntaxError>) -> Result<JsonView, SyntaxError> {
    match read {
        Ok(json) => Ok(json@),
        Err(e) => Err(e),
    }
}

/// What reading a text came to, with the value taken by what it holds.
pub open spec fn value_read_view(read: Result<serde_json::Value, SyntaxError>) -> Result<
    JsonView,
    SyntaxError,
> {
    match read {
        Ok(value) => Ok(value_view(value)),
        Err(e) => Err(e),
    }
}

/// Reads a text with `serde_json::from_str`. What comes of it is a function
/// of the text alone, named [`parsed_text`]; a failure is reported by the
/// line and column that `serde_json::Error` gives.
#[verifier::external_body]
fn value_of_text(text: &str) -> (read: Result<serde_json::Value, SyntaxError>)
    ensures
        value_read_view(read) == parsed_text(text@),
{
    match serde_json::from_str::<serde_json::Value>(text) {
        Ok(value) => Ok(value),
        Err(e) => Err(SyntaxError { line: e.line(), column: e.column() }),
    }
}

/// Copies a `serde_json::Value` into a tree, variant by variant. A number is
/// kept as `serde_json::Number::as_u64` gives it; the members of an object are
/// those that `serde_json::Map::iter` yields. What the value holds is what the
/// tree stands for.
#[verifier::external_body]
fn json_of_value(value: &serde_json::Value) -> (json: Json)
    ensures
        json@ == value_view(*value),
{
    match value {
        serde_json::Value::Null => Json::Null,
        serde_json::Value::Bool(b) => Json::Bool(*b),
        serde_json::Value::Number(n) => Json::Number(n.as_u64()),
        serde_json::Value::String(s) => Json::Text(s.clone()),
        serde_json::Value::Array(items) => Json::Array(items.iter().map(json_of_value).collect()),
        serde_json::Value::Object(map) => Json::Object(
            map.iter().map(|(k, v)| (k.clone(), json_of_value(v))).collect(),
        ),
    }
}

/// Copies a tree into a `serde_json::Value`, variant by variant. A number
/// without a value becomes `null`; the members of an object are handed to
/// `serde_json::Map::insert` one after the other, which keeps the last of
/// several with one name. The text that `serde_json` prints for the value is
/// a function of what the tree stands for, named [`rendered_json`].
#[verifier::external_body]
fn value_of_json(json: &Json) -> (value: serde_json::Value)
    ensures
        value_text(value) == rendered_json(json@),
{
    match json {
        Json::Null => serde_json::Value::Null,
        Json::Bool(b) => serde_json::Value::Bool(*b),
        Json::Number(n) => n.map_or(serde_json::Value::Null, serde_json::Value::from),
        Json::Text(s) => serde_json::Value::String(s.clone()),
        Json::Array(items) => serde_json::Value::Array(items.iter().map(value_of_json).collect()),
        Json::Object(members) => {
            let mut map = serde_json::Map::new();
            for (name, member) in members {
                map.insert(name.clone(), value_of_json(member));
            }
            serde_json::Value::Object(map)
        },
    }
}

/// Prints a `serde_json::Value` as compact JSON through its `Display`.
#[verifier::external_body]
fn text_of_value(value: &serde_json::Value) -> (text: String)
    ensures
        text@ == value_text(*value),
{
    value.to_string()
}

impl Json {
    /// Reads a JSON text.
    pub fn parse(text: &str) -> (read: Result<Json, SyntaxError>)
        ensures
            read_view(read) == parsed_text(text@),
    {
        match value_of_text(text) {
            Ok(value) => Ok(json_of_value(&value)),
            Err(e) => Err(e),
        }
    }

    /// Prints the document as compact JSON text.
    pub fn render(&self) -> (text: String)
        ensures
            text@ == rendered_json(self@),
    {
        let value = value_of_json(self);
        text_of_value(&value)
    }
}

} // verus!
