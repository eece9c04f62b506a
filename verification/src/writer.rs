//! Writing the members of an object: each function here computes a document
//! that [`crate::schema`] states.

use vstd::prelude::*;
use crate::json::{lemma_array_model, lemma_object_model, Json, JsonModel};
use crate::schema::{
    entity_or_null, integer_or_null, list_of, list_or_null, map_or_null, text_or_null,
    texts_or_null, Schema,
};
use crate::sorted_map::SortedMap;

verus! {

/// Writes an optional text.
pub fn write_optional_text(text: &Option<String>) -> (doc: Json)
    ensures
        doc@ == text_or_null(text.deep_view()),
{
    match text {
        Some(t) => Json::String(t.clone()),
        None => Json::Null,
    }
}

/// Writes an optional integer.
pub fn write_optional_integer(number: &Option<i64>) -> (doc: Json)
    ensures
        doc@ == integer_or_null(*number),
{
    match number {
        Some(n) => Json::Integer(*n),
        None => Json::Null,
    }
}

/// Writes an optional list of texts.
pub fn write_optional_texts(texts: &Option<Vec<String>>) -> (doc: Json)
    ensures
        doc@ == texts_or_null(texts.deep_view()),
{
    match texts {
        Some(list) => {
            let mut items: Vec<Json> = Vec::new();
            let mut i: usize = 0;
            while i < list.len()
                invariant
                    i <= list.len(),
                    items.len() == i,
                    forall|j: int| 0 <= j < i ==> (#[trigger] items@[j])@ == JsonModel::String(list@[j]@),
                decreases list.len() - i,
            {
                items.push(Json::String(list[i].clone()));
                i = i + 1;
            }
            proof {
                lemma_array_model(items);
                assert(items.deep_view() =~= texts_or_null(texts.deep_view())->Array_0);
            }
            Json::Array(items)
        },
        None => Json::Null,
    }
}

/// Writes an optional entity.
pub fn write_optional<T: Schema>(entity: &Option<T>) -> (doc: Json)
    ensures
        doc@ == entity_or_null::<T>(entity.deep_view()),
{
    match entity {
        Some(value) => value.to_json(),
        None => Json::Null,
    }
}

/// Writes a list of entities.
pub fn write_list<T: Schema>(entities: &Vec<T>) -> (doc: Json)
    ensures
        doc@ == list_of::<T>(entities.deep_view()),
{
    let mut items: Vec<Json> = Vec::new();
    let mut i: usize = 0;
    while i < entities.len()
        invariant
            i <= entities.len(),
            items.len() == i,
            forall|j: int| 0 <= j < i ==> (#[trigger] items@[j])@ == T::encode(entities@[j].deep_view()),
        decreases entities.len() - i,
    {
        items.push(entities[i].to_json());
        i = i + 1;
    }
    proof {
        lemma_array_model(items);
        assert(items.deep_view() =~= list_of::<T>(entities.deep_view())->Array_0);
    }
    Json::Array(items)
}

/// Writes an optional list of entities.
pub fn write_optional_list<T: Schema>(entities: &Option<Vec<T>>) -> (doc: Json)
    ensures
        doc@ == list_or_null::<T>(entities.deep_view()),
{
    match entities {
        Some(list) => write_list::<T>(list),
        None => Json::Null,
    }
}

/// Writes an optional map.
pub fn write_optional_map<T: Schema>(map: &Option<SortedMap<T>>) -> (doc: Json)
    ensures
        doc@ == map_or_null::<T>(map.deep_view()),
{
    match map {
        Some(m) => {
            let entries = m.entries();
            let mut members: Vec<(String, Json)> = Vec::new();
            let mut i: usize = 0;
            while i < entries.len()
                invariant
                    i <= entries.len(),
                    members.len() == i,
                    entries.deep_view() == m@,
                    forall|j: int|
                        0 <= j < i ==> (#[trigger] members@[j]).0@ == m@[j].0 && members@[j].1@
                            == T::encode(m@[j].1),
                decreases entries.len() - i,
            {
                assert(entries.deep_view()[i as int] == entries@[i as int].deep_view());
                members.push((entries[i].0.clone(), entries[i].1.to_json()));
                i = i + 1;
            }
            proof {
                lemma_object_model(members);
                assert(members.deep_view() =~= map_or_null::<T>(map.deep_view())->Object_0);
            }
            Json::Object(members)
        },
        None => Json::Null,
    }
}

} // verus!
