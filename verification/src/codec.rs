//! What the wire codecs share: the decode error, the lookup of a member in a
//! JSON object, and the decoding of single members.

use crate::json::{lemma_members_model, members_model, Json, JsonModel};
use vstd::prelude::*;
use vstd::string::*;

verus! {

/// The view of a [`DecodeError`].
pub enum DecodeErrorModel {
    Syntax(Seq<char>),
    MissingField(Seq<char>),
    InvalidType { field: Seq<char>, expected: Seq<char> },
    InvalidValue { field: Seq<char>, value: Seq<char>, expected: Seq<char> },
}

/// Why a document is not what the wire format asks for. A document with
/// several faults is reported by the first one met, members being read in the
/// order in which the wire format lists them.
#[derive(Debug, Clone, PartialEq, Eq)]
pub enum DecodeError {
    /// The text is no JSON document; holds the parser's message.
    Syntax(String),
    /// An object lacks a member that must be there.
    MissingField(String),
    /// A value has another JSON type, or a number another range, than `field`
    /// takes.
    InvalidType { field: String, expected: String },
    /// A text is none of the tokens that `field` takes.
    InvalidValue { field: String, value: String, expected: String },
}

impl View for DecodeError {
    type V = DecodeErrorModel;

    open spec fn view(&self) -> DecodeErrorModel {
        match self {
            DecodeError::Syntax(m) => DecodeErrorModel::Syntax(m@),
            DecodeError::MissingField(f) => DecodeErrorModel::MissingField(f@),
            DecodeError::InvalidType { field, expected } => DecodeErrorModel::InvalidType {
                field: field@,
                expected: expected@,
            },
            DecodeError::InvalidValue { field, value, expected } => DecodeErrorModel::InvalidValue {
                field: field@,
                value: value@,
                expected: expected@,
            },
        }
    }
}

impl DecodeErrorModel {
    /// The error as one line of text.
    pub open spec fn message(self) -> Seq<char> {
        match self {
            DecodeErrorModel::Syntax(m) => "malformed JSON: "@ + m,
            DecodeErrorModel::MissingField(f) => "missing field "@ + f,
            DecodeErrorModel::InvalidType { field, expected } => "invalid type for "@ + field
                + ": expected "@ + expected,
            DecodeErrorModel::InvalidValue { field, value, expected } => "invalid value "@ + value
                + " for "@ + field + ": expected "@ + expected,
        }
    }
}

impl DecodeError {
    /// The error as one line of text, which names the field at fault, the
    /// value found where a token was wrong, and what was expected.
    pub fn message(&self) -> (r: String)
        ensures
            r@ == self@.message(),
    {
        match self {
            DecodeError::Syntax(m) => String::from_str("malformed JSON: ").concat(m.as_str()),
            DecodeError::MissingField(f) => String::from_str("missing field ").concat(f.as_str()),
            DecodeError::InvalidType { field, expected } => String::from_str(
                "invalid type for ",
            ).concat(field.as_str()).concat(": expected ").concat(expected.as_str()),
            DecodeError::InvalidValue { field, value, expected } => String::from_str(
                "invalid value ",
            ).concat(value.as_str()).concat(" for ").concat(field.as_str()).concat(
                ": expected ",
            ).concat(expected.as_str()),
        }
    }
}

/// The value of the first member called `name` among those from index `from` on.
pub open spec fn member_from(
    members: Seq<(Seq<char>, JsonModel)>,
    name: Seq<char>,
    from: int,
) -> Option<JsonModel>
    decreases members.len() - from,
{
    if from < 0 || from >= members.len() {
        None
    } else if members[from].0 == name {
        Some(members[from].1)
    } else {
        member_from(members, name, from + 1)
    }
}

/// The value of the member called `name`: of the first one, should an object
/// made by hand hold several.
pub open spec fn member(members: Seq<(Seq<char>, JsonModel)>, name: Seq<char>) -> Option<
    JsonModel,
> {
    member_from(members, name, 0)
}

/// Whether a text and a string slice hold the same characters.
pub fn same_text(a: &String, b: &str) -> (r: bool)
    ensures
        r == (a@ == b@),
{
    let owned = b.to_owned();
    *a == owned
}

/// Looks a member up by its name.
pub fn find_member<'a>(members: &'a Vec<(String, Json)>, name: &str) -> (r: Option<&'a Json>)
    ensures
        match r {
            Some(j) => member(members_model(members@), name@) == Some(j@),
            None => member(members_model(members@), name@) is None,
        },
{
    let ghost model = members_model(members@);
    proof {
        lemma_members_model(members@);
    }
    let mut i: usize = 0;
    while i < members.len()
        invariant
            i <= members.len(),
            model == members_model(members@),
            model.len() == members@.len(),
            forall|k: int|
                0 <= k < members@.len() ==> (#[trigger] model[k]) == (
                    members@[k].0@,
                    members@[k].1@,
                ),
            member(model, name@) == member_from(model, name@, i as int),
        decreases members.len() - i,
    {
        if same_text(&members[i].0, name) {
            return Some(&members[i].1);
        }
        i += 1;
    }
    None
}

} // verus!
