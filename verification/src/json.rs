//! A JSON document as plain data, and the bridge to `serde_json`.

use vstd::prelude::*;
use vstd::string::*;

verus! {

/// A JSON number: its canonical decimal text and, when it is an integer
/// that fits, its value as a signed 64-bit integer.
#[derive(Debug, Clone)]
pub struct JsonNumber {
    pub text: String,
    pub integer: Option<i64>,
}

/// A JSON value.
#[derive(Debug)]
pub enum Json {
    Null,
    Bool(bool),
    Number(JsonNumber),
    Text(String),
    Array(Vec<Json>),
    Object(Vec<(String, Json)>),
}

/// A JSON number as values of the mathematical model.
pub struct JsonNumberView {
    pub text: Seq<char>,
    pub integer: Option<i64>,
}

/// A JSON value as values of the mathematical model: an object is the
/// sequence of its members, each a key and a value.
pub enum JsonView {
    Null,
    Bool(bool),
    Number(JsonNumberView),
    Text(Seq<char>),
    Array(Seq<JsonView>),
    Object(Seq<(Seq<char>, JsonView)>),
}

impl View for JsonNumber {
    type V = JsonNumberView;

    open spec fn view(&self) -> JsonNumberView {
        JsonNumberView { text: self.text@, integer: self.integer }
    }
}

/// The data of a JSON value.
pub open spec fn json_view(json: Json) -> JsonView
    decreases json,
{
    match json {
        Json::Null => JsonView::Null,
        Json::Bool(b) => JsonView::Bool(b),
        Json::Number(n) => JsonView::Number(n@),
        Json::Text(s) => JsonView::Text(s@),
        Json::Array(items) => JsonView::Array(
            Seq::new(
                items@.len(),
                |i: int|
                    if 0 <= i < items@.len() {
                        json_view(items@[i])
                    } else {
                        JsonView::Null
                    },
            ),
        ),
        Json::Object(members) => JsonView::Object(
            Seq::new(
                members@.len(),
                |i: int|
                    if 0 <= i < members@.len() {
                        (members@[i].0@, json_view(members@[i].1))
                    } else {
                        (Seq::empty(), JsonView::Null)
                    },
            ),
        ),
    }
}

impl View for Json {
    type V = JsonView;

    open spec fn view(&self) -> JsonView {
        json_view(*self)
    }
}

impl DeepView for JsonNumber {
    type V = JsonNumberView;

    open spec fn deep_view(&self) -> JsonNumberView {
        self@
    }
}

impl DeepView for Json {
    type V = JsonView;

    open spec fn deep_view(&self) -> JsonView {
        self@
    }
}

/// The value of the first member of an object that has the given key.
pub open spec fn member(members: Seq<(Seq<char>, JsonView)>, key: Seq<char>) -> Option<JsonView>
    decreases members.len(),
{
    if members.len() == 0 {
        None
    } else if members[0].0 == key {
        Some(members[0].1)
    } else {
        member(members.skip(1), key)
    }
}

impl JsonView {
    /// The member of an object under a key; nothing where the value is no
    /// object or has no such member.
    pub open spec fn get(self, key: Seq<char>) -> Option<JsonView> {
        match self {
            JsonView::Object(members) => member(members, key),
            _ => None,
        }
    }
}

/// The view of an object holds the views of its members, in their order.
pub proof fn lemma_object_view(members: Vec<(String, Json)>)
    ensures
        Json::Object(members)@ is Object,
        Json::Object(members)@->Object_0.len() == members@.len(),
        forall|i: int|
            0 <= i < members@.len() ==> #[trigger] Json::Object(members)@->Object_0[i] == (
                members@[i].0@,
                members@[i].1@,
            ),
{
}

/// The view of an array holds the views of its items, in their order.
pub proof fn lemma_array_view(items: Vec<Json>)
    ensures
        Json::Array(items)@ is Array,
        Json::Array(items)@->Array_0.len() == items@.len(),
        forall|i: int|
            0 <= i < items@.len() ==> #[trigger] Json::Array(items)@->Array_0[i] == items@[i]@,
{
}

impl Json {
    /// The member of an object under a key; nothing where the value is no
    /// object or has no such member.
    pub fn get(&self, key: &str) -> (r: Option<&Json>)
        ensures
            r matches Some(found) ==> self@.get(key@) == Some(found@),
            r is None ==> self@.get(key@) is None,
    {
        match self {
            Json::Object(members) => {
                let wanted = String::from_str(key);
                let ghost all = self@->Object_0;
                proof {
                    lemma_object_view(*members);
                    assert(all.skip(0) =~= all);
                }
                let mut i: usize = 0;
                while i < members.len()
                    invariant
                        i <= members.len(),
                        wanted@ == key@,
                        self@ == JsonView::Object(all),
                        all.len() == members.len(),
                        forall|k: int|
                            0 <= k < members@.len() ==> #[trigger] all[k] == (
                                members@[k].0@,
                                members@[k].1@,
                            ),
                        member(all.skip(i as int), key@) == member(all, key@),
                    decreases members.len() - i,
                {
                    proof {
                        assert(all.skip(i as int).skip(1) =~= all.skip(i as int + 1));
                    }
                    if members[i].0 == wanted {
                        return Some(&members[i].1);
                    }
                    i += 1;
                }
                None
            },
            _ => None,
        }
    }
}

#[verifier::external_type_specification]
#[verifier::external_body]
pub struct ExValue(serde_json::Value);

/// The JSON document that a text denotes, if it is one.
pub uninterp spec fn document_of_text(text: Seq<char>) -> Option<JsonView>;

/// The data held by a `serde_json::Value`.
pub uninterp spec fn value_data(value: serde_json::Value) -> JsonView;

/// `serde_json::from_str` at type `Value`: the parsed document, or nothing
/// where the parser reports an error.
#[verifier::external_body]
fn value_from_str(text: &str) -> (r: Option<serde_json::Value>)
    ensures
        r matches Some(v) ==> document_of_text(text@) == Some(value_data(v)),
        r is None ==> document_of_text(text@) is None,
{
    serde_json::from_str::<serde_json::Value>(text).ok()
}

/// Whether a value is neither an array nor an object.
pub open spec fn is_scalar(json: JsonView) -> bool {
    !(json is Array) && !(json is Object)
}

/// The scalar held by a `serde_json::Value`, told apart by its variant: null,
/// a boolean, a string, or a number, which is carried as its `Display` text
/// together with `Number::as_i64`. Nothing for an array or an object.
#[verifier::external_body]
fn value_scalar(value: &serde_json::Value) -> (r: Option<Json>)
    ensures
        r matches Some(j) ==> j@ == value_data(*value) && is_scalar(j@),
        r is None ==> !is_scalar(value_data(*value)),
{
    match value {
        serde_json::Value::Null => Some(Json::Null),
        serde_json::Value::Bool(b) => Some(Json::Bool(*b)),
        serde_json::Value::Number(n) => Some(
            Json::Number(JsonNumber { text: n.to_string(), integer: n.as_i64() }),
        ),
        serde_json::Value::String(s) => Some(Json::Text(s.clone())),
        _ => None,
    }
}

/// `Value::as_array`: the items of an array, in their order; nothing for
/// any other value.
#[verifier::external_body]
fn value_items(value: &serde_json::Value) -> (r: Option<&Vec<serde_json::Value>>)
    ensures
        r matches Some(items) ==> value_data(*value) is Array && value_data(
            *value,
        )->Array_0.len() == items@.len() && forall|i: int|
            0 <= i < items@.len() ==> value_data(*value)->Array_0[i] == value_data(
                #[trigger] items@[i],
            ),
        r is None ==> !(value_data(*value) is Array),
{
    value.as_array()
}

/// `Value::as_object` and `Map::iter`: the members of an object, each with
/// its key, in the order in which the map hands them out. For any other
/// value nothing is said.
#[verifier::external_body]
fn value_members(value: &serde_json::Value) -> (r: Vec<(&String, &serde_json::Value)>)
    ensures
        value_data(*value) is Object ==> value_data(*value)->Object_0.len() == r@.len()
            && forall|i: int|
            0 <= i < r@.len() ==> value_data(*value)->Object_0[i] == (
                (#[trigger] r@[i]).0@,
                value_data(*r@[i].1),
            ),
{
    match value.as_object() {
        Some(map) => map.iter().collect(),
        None => Vec::new(),
    }
}

/// Copies the contents of a `serde_json::Value` into a [`Json`].
fn json_from_value(value: &serde_json::Value) -> (j: Json)
    ensures
        j@ == value_data(*value),
    decreases value_data(*value),
{
    match value_scalar(value) {
        Some(scalar) => scalar,
        None => match value_items(value) {
            Some(items) => {
                let ghost source = value_data(*value)->Array_0;
                let mut copied: Vec<Json> = Vec::new();
                let mut i: usize = 0;
                while i < items.len()
                    invariant
                        i <= items.len(),
                        copied.len() == i,
                        value_data(*value) == JsonView::Array(source),
                        source.len() == items@.len(),
                        forall|k: int|
                            0 <= k < items@.len() ==> source[k] == value_data(
                                #[trigger] items@[k],
                            ),
                        forall|k: int| 0 <= k < i ==> (#[trigger] copied@[k])@ == source[k],
                    decreases items.len() - i,
                {
                    proof {
                        let data = value_data(*value);
                        assert(decreases_to!(data->Array_0 => data->Array_0[i as int]));
                    }
                    let item = json_from_value(&items[i]);
                    copied.push(item);
                    i += 1;
                }
                proof {
                    lemma_array_view(copied);
                    assert(Json::Array(copied)@->Array_0 =~= source);
                }
                Json::Array(copied)
            },
            None => {
                let members = value_members(value);
                let ghost source = value_data(*value)->Object_0;
                let mut copied: Vec<(String, Json)> = Vec::new();
                let mut i: usize = 0;
                while i < members.len()
                    invariant
                        i <= members.len(),
                        copied.len() == i,
                        value_data(*value) == JsonView::Object(source),
                        source.len() == members@.len(),
                        forall|k: int|
                            0 <= k < members@.len() ==> source[k] == (
                                (#[trigger] members@[k]).0@,
                                value_data(*members@[k].1),
                            ),
                        forall|k: int|
                            0 <= k < i ==> ((#[trigger] copied@[k]).0@, copied@[k].1@)
                                == source[k],
                    decreases members.len() - i,
                {
                    proof {
                        let data = value_data(*value);
                        assert(decreases_to!(data->Object_0[i as int] => data->Object_0[i as int].1));
                    }
                    let key = members[i].0.clone();
                    let item = json_from_value(members[i].1);
                    copied.push((key, item));
                    i += 1;
                }
                proof {
                    lemma_object_view(copied);
                    assert(Json::Object(copied)@->Object_0 =~= source);
                }
                Json::Object(copied)
            },
        },
    }
}

/// Parses a JSON text.
pub fn parse_json(text: &str) -> (r: Option<Json>)
    ensures
        r matches Some(j) ==> document_of_text(text@) == Some(j@),
        r is None ==> document_of_text(text@) is None,
{
    match value_from_str(text) {
        Some(v) => Some(json_from_value(&v)),
        None => None,
    }
}

} // verus!
