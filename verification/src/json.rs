//! A JSON document as a tree of plain values.

use vstd::prelude::*;
use crate::error::SchemaError;
use crate::schema::Schema;
use crate::sorted_map::{find, lemma_find_at, lemma_find_none};
use crate::text::same_text;

verus! {

broadcast use vstd::std_specs::vec::axiom_vec_index_decreases;

/// A JSON value.
///
/// Numbers that fit a signed 64-bit integer are held as `Integer`; any other
/// number (a larger magnitude, a fraction, an exponent) is held by its
/// literal text as `Number`.
#[derive(Debug, PartialEq)]
pub enum Json {
    Null,
    Bool(bool),
    Integer(i64),
    Number(String),
    String(String),
    Array(Vec<Json>),
    Object(Vec<(String, Json)>),
}

/// The mathematical value of a [`Json`] tree.
pub ghost enum JsonModel {
    Null,
    Bool(bool),
    Integer(i64),
    Number(Seq<char>),
    String(Seq<char>),
    Array(Seq<JsonModel>),
    Object(Seq<(Seq<char>, JsonModel)>),
}

/// The value of a tree: texts by their characters, lists and members in order.
pub open spec fn model_of(doc: Json) -> JsonModel
    decreases doc,
{
    match doc {
        Json::Null => JsonModel::Null,
        Json::Bool(b) => JsonModel::Bool(b),
        Json::Integer(n) => JsonModel::Integer(n),
        Json::Number(t) => JsonModel::Number(t@),
        Json::String(t) => JsonModel::String(t@),
        Json::Array(items) => JsonModel::Array(
            Seq::new(
                items@.len(),
                |i: int|
                    if 0 <= i < items@.len() {
                        model_of(items@[i])
                    } else {
                        JsonModel::Null
                    },
            ),
        ),
        Json::Object(members) => JsonModel::Object(
            Seq::new(
                members@.len(),
                |i: int|
                    if 0 <= i < members@.len() {
                        (members@[i].0@, model_of(members@[i].1))
                    } else {
                        (Seq::empty(), JsonModel::Null)
                    },
            ),
        ),
    }
}

impl View for Json {
    type V = JsonModel;

    open spec fn view(&self) -> JsonModel {
        model_of(*self)
    }
}

impl DeepView for Json {
    type V = JsonModel;

    open spec fn deep_view(&self) -> JsonModel {
        self.view()
    }
}

/// The document of a list is the list of the documents of its items.
pub proof fn lemma_array_model(items: Vec<Json>)
    ensures
        Json::Array(items)@ == JsonModel::Array(items.deep_view()),
{
    assert(Json::Array(items)@->Array_0 =~= items.deep_view());
}

/// The document of an object is the list of its members, each by its key and
/// the document of its value.
pub proof fn lemma_object_model(members: Vec<(String, Json)>)
    ensures
        Json::Object(members)@ == JsonModel::Object(members.deep_view()),
{
    assert(Json::Object(members)@->Object_0 =~= members.deep_view());
}

impl JsonModel {
    /// The value under `key` where this is an object that has the key: that
    /// of the first member with it.
    pub open spec fn member(self, key: Seq<char>) -> Option<JsonModel> {
        match self {
            JsonModel::Object(members) => find(members, key),
            _ => None,
        }
    }
}

impl Clone for Json {
    /// A copy of the whole tree.
    fn clone(&self) -> (copy: Json)
        ensures
            copy@ == self@,
    {
        copy_of(self)
    }
}

/// Copies a tree, node by node.
fn copy_of(doc: &Json) -> (copy: Json)
    ensures
        copy@ == doc@,
    decreases doc,
{
    match doc {
        Json::Null => Json::Null,
        Json::Bool(b) => Json::Bool(*b),
        Json::Integer(n) => Json::Integer(*n),
        Json::Number(t) => Json::Number(t.clone()),
        Json::String(t) => Json::String(t.clone()),
        Json::Array(items) => {
            let mut copies: Vec<Json> = Vec::new();
            let mut i: usize = 0;
            while i < items.len()
                invariant
                    i <= items.len(),
                    copies.len() == i,
                    forall|j: int| 0 <= j < i ==> copies@[j]@ == items@[j]@,
                    *doc == Json::Array(*items),
                decreases items.len() - i,
            {
                assert(decreases_to!(*doc => doc->Array_0));
                copies.push(copy_of(&items[i]));
                i = i + 1;
            }
            let copy = Json::Array(copies);
            assert(copy@->Array_0 =~= doc@->Array_0);
            copy
        },
        Json::Object(members) => {
            let mut copies: Vec<(String, Json)> = Vec::new();
            let mut i: usize = 0;
            while i < members.len()
                invariant
                    i <= members.len(),
                    copies.len() == i,
                    forall|j: int|
                        0 <= j < i ==> copies@[j].0@ == members@[j].0@ && copies@[j].1@
                            == members@[j].1@,
                    *doc == Json::Object(*members),
                decreases members.len() - i,
            {
                assert(decreases_to!(*doc => doc->Object_0));
                copies.push((members[i].0.clone(), copy_of(&members[i].1)));
                i = i + 1;
            }
            let copy = Json::Object(copies);
            assert(copy@->Object_0 =~= doc@->Object_0);
            copy
        },
    }
}

impl Json {
    /// Whether this is an object.
    pub fn is_object(&self) -> (b: bool)
        ensures
            b == (self@ is Object),
    {
        match self {
            Json::Object(_) => true,
            _ => false,
        }
    }

    /// The value under `key` where this is an object that has the key.
    pub fn get(&self, key: &str) -> (r: Option<&Json>)
        ensures
            match r {
                Some(value) => self@.member(key@) == Some(value@),
                None => self@.member(key@) is None,
            },
    {
        match self {
            Json::Object(members) => {
                let ghost model = self@->Object_0;
                assert(model.len() == members@.len());
                let mut i: usize = 0;
                while i < members.len()
                    invariant
                        i <= members.len(),
                        self@ == JsonModel::Object(model),
                        model.len() == members.len(),
                        forall|j: int|
                            0 <= j < members.len() ==> (#[trigger] model[j]) == (
                                members@[j].0@,
                                members@[j].1@,
                            ),
                        forall|j: int| 0 <= j < i ==> (#[trigger] model[j]).0 != key@,
                    decreases members.len() - i,
                {
                    if same_text(members[i].0.as_str(), key) {
                        proof {
                            lemma_find_at(model, key@, i as int);
                        }
                        return Some(&members[i].1);
                    }
                    i = i + 1;
                }
                proof {
                    lemma_find_none(model, key@);
                }
                None
            },
            _ => None,
        }
    }
}

impl Schema for Json {
    /// Any document stands for itself.
    open spec fn decode(doc: JsonModel) -> Result<JsonModel, SchemaError> {
        Ok(doc)
    }

    open spec fn encode(value: JsonModel) -> JsonModel {
        value
    }

    open spec fn valid(value: JsonModel) -> bool {
        true
    }

    fn from_json(doc: &Json) -> (r: Result<Json, SchemaError>) {
        Ok(doc.clone())
    }

    fn to_json(&self) -> (doc: Json) {
        self.clone()
    }

    proof fn lemma_decoded_is_valid(doc: JsonModel) {
    }

    proof fn lemma_round_trip(value: JsonModel) {
    }
}

} // verus!
