//! JSON documents as values of this library, and the reading of JSON text.
//!
//! The codecs of the data model work on [`Json`], a plain tree. Text is read by
//! `serde_json`; what it returns is carried over into a [`Json`] node by node.

use vstd::prelude::*;

verus! {

/// The mathematical value of a JSON document.
///
/// A number is kept with its value where it is an integer between 0 and
/// 2^64 - 1, and without a value otherwise: nothing in the registry's wire
/// format is negative or fractional. An object is the sequence of its members.
pub enum JsonModel {
    Null,
    Bool(bool),
    Number(Option<u64>),
    Str(Seq<char>),
    Array(Seq<JsonModel>),
    Object(Seq<(Seq<char>, JsonModel)>),
}

/// A JSON document.
#[derive(Debug, PartialEq, Eq)]
pub enum Json {
    Null,
    Bool(bool),
    Number(Option<u64>),
    Str(String),
    Array(Vec<Json>),
    Object(Vec<(String, Json)>),
}

/// The value of a document.
pub open spec fn json_model(j: Json) -> JsonModel
    decreases j,
{
    match j {
        Json::Null => JsonModel::Null,
        Json::Bool(b) => JsonModel::Bool(b),
        Json::Number(n) => JsonModel::Number(n),
        Json::Str(s) => JsonModel::Str(s@),
        Json::Array(items) => JsonModel::Array(items_model(items@)),
        Json::Object(members) => JsonModel::Object(members_model(members@)),
    }
}

/// The values of the items of an array, in their order.
pub open spec fn items_model(items: Seq<Json>) -> Seq<JsonModel>
    decreases items,
{
    if items.len() == 0 {
        Seq::empty()
    } else {
        items_model(items.drop_last()).push(json_model(items.last()))
    }
}

/// The members of an object in their order, each with its name and its value.
pub open spec fn members_model(members: Seq<(String, Json)>) -> Seq<(Seq<char>, JsonModel)>
    decreases members,
{
    if members.len() == 0 {
        Seq::empty()
    } else {
        members_model(members.drop_last()).push((members.last().0@, json_model(members.last().1)))
    }
}

impl View for Json {
    type V = JsonModel;

    open spec fn view(&self) -> JsonModel {
        json_model(*self)
    }
}

/// An array is viewed item by item.
pub proof fn lemma_items_model(items: Seq<Json>)
    ensures
        items_model(items).len() == items.len(),
        forall|i: int| 0 <= i < items.len() ==> (#[trigger] items_model(items)[i]) == items[i]@,
    decreases items.len(),
{
    if items.len() > 0 {
        lemma_items_model(items.drop_last());
    }
}

/// An object is viewed member by member.
pub proof fn lemma_members_model(members: Seq<(String, Json)>)
    ensures
        members_model(members).len() == members.len(),
        forall|i: int|
            0 <= i < members.len() ==> (#[trigger] members_model(members)[i]) == (
                members[i].0@,
                members[i].1@,
            ),
    decreases members.len(),
{
    if members.len() > 0 {
        lemma_members_model(members.drop_last());
    }
}

/// `serde_json::Value`, of which nothing is known here but what
/// [`value_model`] names.
#[verifier::external_type_specification]
#[verifier::external_body]
pub struct ExValue(serde_json::Value);

/// What a `serde_json::Value` holds: its variant, and under it the flag, the
/// number as far as it is an unsigned integer, the text, the items, or the
/// members in the order in which the value walks them.
pub uninterp spec fn value_model(v: serde_json::Value) -> JsonModel;

/// What `serde_json::from_str` makes of a text: the document it reads, or the
/// message of the error it reports.
pub uninterp spec fn parsed_text(text: Seq<char>) -> Result<JsonModel, Seq<char>>;

/// One node of a `serde_json::Value`, with its children still in their own type.
enum Node<'a> {
    Null,
    Bool(bool),
    Number(Option<u64>),
    Str(&'a String),
    Array(&'a Vec<serde_json::Value>),
    Object(Vec<(&'a String, &'a serde_json::Value)>),
}

impl<'a> Node<'a> {
    spec fn model(self) -> JsonModel {
        match self {
            Node::Null => JsonModel::Null,
            Node::Bool(b) => JsonModel::Bool(b),
            Node::Number(n) => JsonModel::Number(n),
            Node::Str(s) => JsonModel::Str(s@),
            Node::Array(items) => JsonModel::Array(
                Seq::new(items@.len(), |i: int| value_model(items@[i])),
            ),
            Node::Object(members) => JsonModel::Object(
                Seq::new(members@.len(), |i: int| (members@[i].0@, value_model(*members@[i].1))),
            ),
        }
    }
}

/// Calls `serde_json::from_str` for a `serde_json::Value`. The contract only
/// gives the outcome its name: the value's content on success, the error's
/// message on failure.
#[verifier::external_body]
fn read_value(text: &str) -> (r: Result<serde_json::Value, String>)
    ensures
        match r {
            Ok(v) => parsed_text(text@) == Ok::<JsonModel, Seq<char>>(value_model(v)),
            Err(m) => parsed_text(text@) == Err::<JsonModel, Seq<char>>(m@),
        },
{
    match serde_json::from_str::<serde_json::Value>(text) {
        Ok(v) => Ok(v),
        Err(e) => Err(e.to_string()),
    }
}

/// Tells the variants of a `serde_json::Value` apart. A number comes with
/// `Number::as_u64`, which is `None` for a negative or fractional one; the
/// members of an object come in the order in which `Map::iter` walks them.
#[verifier::external_body]
fn open_value<'a>(v: &'a serde_json::Value) -> (r: Node<'a>)
    ensures
        r.model() == value_model(*v),
{
    match v {
        serde_json::Value::Null => Node::Null,
        serde_json::Value::Bool(b) => Node::Bool(*b),
        serde_json::Value::Number(n) => Node::Number(n.as_u64()),
        serde_json::Value::String(s) => Node::Str(s),
        serde_json::Value::Array(items) => Node::Array(items),
        serde_json::Value::Object(members) => Node::Object(members.iter().collect()),
    }
}

/// Carries a `serde_json::Value` over into a [`Json`].
fn value_to_json(v: &serde_json::Value) -> (r: Json)
    ensures
        r@ == value_model(*v),
    decreases value_model(*v),
{
    match open_value(v) {
        Node::Null => Json::Null,
        Node::Bool(b) => Json::Bool(b),
        Node::Number(n) => Json::Number(n),
        Node::Str(s) => Json::Str(s.clone()),
        Node::Array(items) => {
            let ghost children = Seq::new(items@.len(), |i: int| value_model(items@[i]));
            let mut out: Vec<Json> = Vec::new();
            let mut i: usize = 0;
            while i < items.len()
                invariant
                    i <= items.len(),
                    out@.len() == i,
                    value_model(*v) == JsonModel::Array(children),
                    children == Seq::new(items@.len(), |k: int| value_model(items@[k])),
                    forall|k: int| 0 <= k < i ==> (#[trigger] out@[k])@ == children[k],
                decreases items.len() - i,
            {
                proof {
                    let child = children[i as int];
                    assert(child == value_model(items@[i as int]));
                    let whole = value_model(*v);
                    assert(decreases_to!(whole => whole->Array_0));
                    vstd::seq::axiom_seq_index_decreases(children, i as int);
                }
                out.push(value_to_json(&items[i]));
                i += 1;
            }
            proof {
                lemma_items_model(out@);
                assert(items_model(out@) =~= children);
            }
            Json::Array(out)
        },
        Node::Object(members) => {
            let ghost children = Seq::new(
                members@.len(),
                |i: int| (members@[i].0@, value_model(*members@[i].1)),
            );
            let mut out: Vec<(String, Json)> = Vec::new();
            let mut i: usize = 0;
            while i < members.len()
                invariant
                    i <= members.len(),
                    out@.len() == i,
                    value_model(*v) == JsonModel::Object(children),
                    children == Seq::new(
                        members@.len(),
                        |k: int| (members@[k].0@, value_model(*members@[k].1)),
                    ),
                    forall|k: int|
                        0 <= k < i ==> ((#[trigger] out@[k]).0@, out@[k].1@) == children[k],
                decreases members.len() - i,
            {
                proof {
                    let child = children[i as int];
                    assert(child.1 == value_model(*members@[i as int].1));
                    let whole = value_model(*v);
                    assert(decreases_to!(whole => whole->Object_0));
                    vstd::seq::axiom_seq_index_decreases(children, i as int);
                    assert(decreases_to!(child => child.1));
                }
                let name = members[i].0.clone();
                let value = value_to_json(members[i].1);
                out.push((name, value));
                i += 1;
            }
            proof {
                lemma_members_model(out@);
                assert(members_model(out@) =~= children);
            }
            Json::Object(out)
        },
    }
}

impl Json {
    /// Reads a JSON text. The result is what `serde_json` reads from it; a text
    /// that it rejects gives its message.
    pub fn parse(text: &str) -> (r: Result<Json, String>)
        ensures
            match r {
                Ok(j) => parsed_text(text@) == Ok::<JsonModel, Seq<char>>(j@),
                Err(m) => parsed_text(text@) == Err::<JsonModel, Seq<char>>(m@),
            },
    {
        match read_value(text) {
            Ok(v) => Ok(value_to_json(&v)),
            Err(m) => Err(m),
        }
    }
}

} // verus!
