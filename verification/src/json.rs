//! JSON documents: the library's own tree of values, the parser that fills
//! it, and the lookups that the pinned-version reader makes in it.

use vstd::prelude::*;

verus! {

/// `serde_json::Number`, carried through as it is: nothing here reads a
/// number.
#[verifier::external_type_specification]
#[verifier::external_body]
pub struct ExNumber(serde_json::Number);

/// `serde_json::Value`, what the parser of `serde_json` returns. Its content
/// is known as [`value_content`].
#[verifier::external_type_specification]
#[verifier::external_body]
pub struct ExValue(serde_json::Value);

/// `serde_json::Error`, why a text was refused. Nothing here reads it.
#[verifier::external_type_specification]
#[verifier::external_body]
pub struct ExError(serde_json::Error);

/// A JSON value. An object holds its members in a fixed order; where a key
/// occurs more than once, the first occurrence is the member of that name.
#[derive(Debug, PartialEq, Eq)]
pub enum JsonValue {
    Null,
    Bool(bool),
    Number(serde_json::Number),
    String(String),
    Array(Vec<JsonValue>),
    Object(Vec<(String, JsonValue)>),
}

/// The mathematical content of a [`JsonValue`].
pub enum Json {
    Null,
    Bool(bool),
    Number(serde_json::Number),
    String(Seq<char>),
    Array(Seq<Json>),
    Object(Seq<(Seq<char>, Json)>),
}

/// The content of a value: the same tree, with every text and every list
/// replaced by its mathematical counterpart.
pub open spec fn json_of(value: JsonValue) -> Json
    decreases value,
{
    match value {
        JsonValue::Null => Json::Null,
        JsonValue::Bool(b) => Json::Bool(b),
        JsonValue::Number(n) => Json::Number(n),
        JsonValue::String(s) => Json::String(s@),
        JsonValue::Array(items) => Json::Array(
            Seq::new(
                items@.len(),
                |i: int|
                    if 0 <= i < items@.len() {
                        json_of(items@[i])
                    } else {
                        Json::Null
                    },
            ),
        ),
        JsonValue::Object(members) => Json::Object(
            Seq::new(
                members@.len(),
                |i: int|
                    if 0 <= i < members@.len() {
                        (members@[i].0@, json_of(members@[i].1))
                    } else {
                        (Seq::empty(), Json::Null)
                    },
            ),
        ),
    }
}

impl View for JsonValue {
    type V = Json;

    open spec fn view(&self) -> Json {
        json_of(*self)
    }
}

/// The value of the first member named `key`, if there is one.
pub open spec fn find_member(members: Seq<(Seq<char>, Json)>, key: Seq<char>) -> Option<Json>
    decreases members.len(),
{
    if members.len() == 0 {
        None
    } else if members.first().0 == key {
        Some(members.first().1)
    } else {
        find_member(members.drop_first(), key)
    }
}

impl Json {
    /// The member named `key` of an object; nothing for any other value.
    pub open spec fn member(self, key: Seq<char>) -> Option<Json> {
        match self {
            Json::Object(members) => find_member(members, key),
            _ => None,
        }
    }

    /// The text of a string; nothing for any other value.
    pub open spec fn text(self) -> Option<Seq<char>> {
        match self {
            Json::String(text) => Some(text),
            _ => None,
        }
    }
}

/// What `serde_json::from_str` makes of a text: the document that the text
/// spells, or nothing where the text is not one JSON document.
pub uninterp spec fn json_document(text: Seq<char>) -> Option<Json>;

/// The content of a `serde_json::Value`: the same tree, with the members of
/// each object in the order in which `serde_json::Map` iterates.
pub uninterp spec fn value_content(value: serde_json::Value) -> Json;

/// `serde_json::from_str` at type `serde_json::Value`: parses a text as one
/// JSON document. It succeeds exactly on the texts that [`json_document`]
/// knows, with a value of that content.
#[verifier::external_body]
fn parse_value(text: &str) -> (parsed: Result<serde_json::Value, serde_json::Error>)
    ensures
        match parsed {
            Ok(value) => json_document(text@) == Some(value_content(value)),
            Err(_) => json_document(text@) is None,
        },
{
    serde_json::from_str::<serde_json::Value>(text)
}

/// The outermost layer of a `serde_json::Value`: which kind of value it is,
/// with the values below it, if any, still as `serde_json` made them.
enum Layer {
    Null,
    Bool(bool),
    Number(serde_json::Number),
    String(String),
    Array(Vec<serde_json::Value>),
    Object(Vec<(String, serde_json::Value)>),
}

/// The content of a layer, given the content of the values below it.
spec fn layer_content(layer: Layer) -> Json {
    match layer {
        Layer::Null => Json::Null,
        Layer::Bool(b) => Json::Bool(b),
        Layer::Number(n) => Json::Number(n),
        Layer::String(s) => Json::String(s@),
        Layer::Array(items) => Json::Array(
            Seq::new(items@.len(), |i: int| value_content(items@[i])),
        ),
        Layer::Object(members) => Json::Object(
            Seq::new(members@.len(), |i: int| (members@[i].0@, value_content(members@[i].1))),
        ),
    }
}

/// Tells the variants of a `serde_json::Value` apart and hands out what the
/// variant holds, unchanged; `serde_json::Map::into_iter` hands out the
/// members of an object, in its order. The content of the value is the
/// content of this layer.
#[verifier::external_body]
fn peel(value: serde_json::Value) -> (layer: Layer)
    ensures
        layer_content(layer) == value_content(value),
{
    match value {
        serde_json::Value::Null => Layer::Null,
        serde_json::Value::Bool(b) => Layer::Bool(b),
        serde_json::Value::Number(n) => Layer::Number(n),
        serde_json::Value::String(s) => Layer::String(s),
        serde_json::Value::Array(items) => Layer::Array(items),
        serde_json::Value::Object(members) => Layer::Object(members.into_iter().collect()),
    }
}

/// Turns a value of `serde_json` into a [`JsonValue`] of the same content.
fn from_value(value: serde_json::Value) -> (json: JsonValue)
    ensures
        json@ == value_content(value),
    decreases value_content(value),
{
    let ghost content = value_content(value);
    match peel(value) {
        Layer::Null => JsonValue::Null,
        Layer::Bool(b) => JsonValue::Bool(b),
        Layer::Number(n) => JsonValue::Number(n),
        Layer::String(s) => JsonValue::String(s),
        Layer::Array(items) => {
            let ghost below = items@;
            let ghost model = content->Array_0;
            let mut converted: Vec<JsonValue> = Vec::new();
            for item in iter: items.into_iter()
                invariant
                    content == value_content(value),
                    content == Json::Array(model),
                    model.len() == below.len(),
                    forall|k: int|
                        0 <= k < below.len() ==> #[trigger] model[k] == value_content(below[k]),
                    iter.seq() == below,
                    converted@.len() == iter.index(),
                    forall|k: int|
                        0 <= k < converted@.len() ==> (#[trigger] converted@[k])@ == model[k],
            {
                proof {
                    let at = iter.index() as int;
                    assert(model[at] == value_content(item));
                    assert(decreases_to!(content => content->Array_0));
                    assert(decreases_to!(content->Array_0 => content->Array_0[at]));
                }
                let json = from_value(item);
                converted.push(json);
            }
            let json = JsonValue::Array(converted);
            proof {
                assert(json@->Array_0 =~= model);
            }
            json
        },
        Layer::Object(members) => {
            let ghost below = members@;
            let ghost model = content->Object_0;
            let mut converted: Vec<(String, JsonValue)> = Vec::new();
            for member in iter: members.into_iter()
                invariant
                    content == value_content(value),
                    content == Json::Object(model),
                    model.len() == below.len(),
                    forall|k: int|
                        0 <= k < below.len() ==> #[trigger] model[k] == (
                            below[k].0@,
                            value_content(below[k].1),
                        ),
                    iter.seq() == below,
                    converted@.len() == iter.index(),
                    forall|k: int|
                        0 <= k < converted@.len() ==> (
                            (#[trigger] converted@[k]).0@,
                            converted@[k].1@,
                        ) == model[k],
            {
                proof {
                    let at = iter.index() as int;
                    assert(model[at] == (member.0@, value_content(member.1)));
                    assert(decreases_to!(content => content->Object_0));
                    assert(decreases_to!(content->Object_0 => content->Object_0[at]));
                    assert(decreases_to!(content->Object_0[at] => content->Object_0[at].1));
                }
                let (key, value_below) = member;
                let json = from_value(value_below);
                converted.push((key, json));
            }
            let json = JsonValue::Object(converted);
            proof {
                assert(json@->Object_0 =~= model);
            }
            json
        },
    }
}

/// Parses a text as one JSON document.
pub fn parse_json(text: &str) -> (document: Option<JsonValue>)
    ensures
        match document {
            Some(json) => json_document(text@) == Some(json@),
            None => json_document(text@) is None,
        },
{
    match parse_value(text) {
        Ok(value) => Some(from_value(value)),
        Err(_) => None,
    }
}

impl JsonValue {
    /// Looks up the member named `key` of an object.
    pub fn get(&self, key: &str) -> (found: Option<&JsonValue>)
        ensures
            match found {
                Some(value) => self@.member(key@) == Some(value@),
                None => self@.member(key@) is None,
            },
    {
        match self {
            JsonValue::Object(members) => {
                let wanted = key.to_owned();
                let ghost model = self@->Object_0;
                let mut i: usize = 0;
                proof {
                    assert(model.skip(0) == model);
                }
                while i < members.len()
                    invariant
                        i <= members.len(),
                        wanted@ == key@,
                        self@ == Json::Object(model),
                        model.len() == members@.len(),
                        forall|k: int|
                            0 <= k < members@.len() ==> model[k] == (
                                members@[k].0@,
                                members@[k].1@,
                            ),
                        find_member(model, key@) == find_member(model.skip(i as int), key@),
                    decreases members.len() - i,
                {
                    proof {
                        assert(model.skip(i as int).drop_first() == model.skip(i + 1));
                        assert(model.skip(i as int).first() == model[i as int]);
                    }
                    if members[i].0 == wanted {
                        return Some(&members[i].1);
                    }
                    i += 1;
                }
                None
            },
            _ => None,
        }
    }

    /// The text of a string value.
    pub fn as_str(&self) -> (text: Option<&str>)
        ensures
            match text {
                Some(text) => self@.text() == Some(text@),
                None => self@.text() is None,
            },
    {
        match self {
            JsonValue::String(text) => Some(text.as_str()),
            _ => None,
        }
    }
}

} // verus!
