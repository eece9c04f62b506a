//! Reading the members of an object: each `read_` function here computes
//! what the function of that name in [`crate::schema`] states.

use vstd::prelude::*;
use crate::error::SchemaError;
use crate::json::{lemma_array_model, lemma_object_model, Json, JsonModel};
use crate::schema::{
    all_text, decode_all, decode_entries, flag, optional, optional_integer, optional_list,
    optional_map, optional_text, optional_texts, required, required_list, required_text, texts_of,
    Schema,
};
use crate::sorted_map::SortedMap;

verus! {

/// A fault among the first items of a list is the fault of the whole list.
pub proof fn lemma_decode_all_fault<T: Schema>(items: Seq<JsonModel>, n: int)
    requires
        0 <= n <= items.len(),
        decode_all::<T>(items.take(n)) is Err,
    ensures
        decode_all::<T>(items) == decode_all::<T>(items.take(n)),
    decreases items.len() - n,
{
    if n < items.len() {
        assert(items.take(n + 1).drop_last() =~= items.take(n));
        lemma_decode_all_fault::<T>(items, n + 1);
    } else {
        assert(items.take(n) =~= items);
    }
}

/// A fault among the first members of an object is the fault of the whole object.
pub proof fn lemma_decode_entries_fault<T: Schema>(members: Seq<(Seq<char>, JsonModel)>, n: int)
    requires
        0 <= n <= members.len(),
        decode_entries::<T>(members.take(n)) is Err,
    ensures
        decode_entries::<T>(members) == decode_entries::<T>(members.take(n)),
    decreases members.len() - n,
{
    if n < members.len() {
        assert(members.take(n + 1).drop_last() =~= members.take(n));
        lemma_decode_entries_fault::<T>(members, n + 1);
    } else {
        assert(members.take(n) =~= members);
    }
}

/// Reads a required member that holds text.
pub fn read_required_text(doc: &Json, key: &'static str) -> (r: Result<String, SchemaError>)
    ensures
        match r {
            Ok(t) => required_text(doc@, key) == Ok::<Seq<char>, SchemaError>(t@),
            Err(e) => required_text(doc@, key) == Err::<Seq<char>, SchemaError>(e),
        },
{
    match doc.get(key) {
        None => Err(SchemaError::MissingField(key)),
        Some(Json::String(t)) => Ok(t.clone()),
        Some(_) => Err(SchemaError::InvalidType(key)),
    }
}

/// Reads an optional member that holds text.
pub fn read_optional_text(doc: &Json, key: &'static str) -> (r: Result<Option<String>, SchemaError>)
    ensures
        match r {
            Ok(t) => optional_text(doc@, key) == Ok::<Option<Seq<char>>, SchemaError>(t.deep_view()),
            Err(e) => optional_text(doc@, key) == Err::<Option<Seq<char>>, SchemaError>(e),
        },
{
    match doc.get(key) {
        None => Ok(None),
        Some(Json::Null) => Ok(None),
        Some(Json::String(t)) => Ok(Some(t.clone())),
        Some(_) => Err(SchemaError::InvalidType(key)),
    }
}

/// Reads an optional member that holds a 64-bit integer.
pub fn read_optional_integer(doc: &Json, key: &'static str) -> (r: Result<Option<i64>, SchemaError>)
    ensures
        r == optional_integer(doc@, key),
{
    match doc.get(key) {
        None => Ok(None),
        Some(Json::Null) => Ok(None),
        Some(Json::Integer(n)) => Ok(Some(*n)),
        Some(_) => Err(SchemaError::InvalidType(key)),
    }
}

/// Reads a member that holds a boolean and counts as `false` where it is missing.
pub fn read_flag(doc: &Json, key: &'static str) -> (r: Result<bool, SchemaError>)
    ensures
        r == flag(doc@, key),
{
    match doc.get(key) {
        None => Ok(false),
        Some(Json::Bool(b)) => Ok(*b),
        Some(_) => Err(SchemaError::InvalidType(key)),
    }
}

/// Reads an optional member that holds a list of texts.
pub fn read_optional_texts(doc: &Json, key: &'static str) -> (r: Result<
    Option<Vec<String>>,
    SchemaError,
>)
    ensures
        match r {
            Ok(t) => optional_texts(doc@, key) == Ok::<Option<Seq<Seq<char>>>, SchemaError>(
                t.deep_view(),
            ),
            Err(e) => optional_texts(doc@, key) == Err::<Option<Seq<Seq<char>>>, SchemaError>(e),
        },
{
    match doc.get(key) {
        None => Ok(None),
        Some(Json::Null) => Ok(None),
        Some(Json::Array(items)) => {
            proof {
                lemma_array_model(*items);
            }
            let ghost models = items.deep_view();
            let mut texts: Vec<String> = Vec::new();
            let mut i: usize = 0;
            while i < items.len()
                invariant
                    i <= items.len(),
                    models == items.deep_view(),
                    doc@.member(key@) == Some(JsonModel::Array(models)),
                    texts.len() == i,
                    forall|j: int| 0 <= j < i ==> #[trigger] models[j] is String,
                    forall|j: int| 0 <= j < i ==> (#[trigger] texts@[j])@ == models[j]->String_0,
                decreases items.len() - i,
            {
                assert(models[i as int] == items@[i as int]@);
                match &items[i] {
                    Json::String(t) => {
                        texts.push(t.clone());
                    },
                    _ => {
                        assert(!(models[i as int] is String));
                        return Err(SchemaError::InvalidType(key));
                    },
                }
                i = i + 1;
            }
            assert(texts.deep_view() =~= texts_of(models));
            Ok(Some(texts))
        },
        Some(_) => Err(SchemaError::InvalidType(key)),
    }
}

/// Reads the items of a list as entities.
pub fn read_all<T: Schema>(items: &Vec<Json>) -> (r: Result<Vec<T>, SchemaError>)
    ensures
        match r {
            Ok(entities) => decode_all::<T>(items.deep_view()) == Ok::<Seq<T::V>, SchemaError>(
                entities.deep_view(),
            ),
            Err(e) => decode_all::<T>(items.deep_view()) == Err::<Seq<T::V>, SchemaError>(e),
        },
{
    let ghost models = items.deep_view();
    let mut entities: Vec<T> = Vec::new();
    let mut i: usize = 0;
    assert(models.take(0) =~= Seq::empty());
    assert(entities.deep_view() =~= Seq::empty());
    while i < items.len()
        invariant
            i <= items.len(),
            models == items.deep_view(),
            decode_all::<T>(models.take(i as int)) == Ok::<Seq<T::V>, SchemaError>(
                entities.deep_view(),
            ),
        decreases items.len() - i,
    {
        assert(models[i as int] == items@[i as int]@);
        assert(models.take(i + 1).drop_last() =~= models.take(i as int));
        let ghost before = entities.deep_view();
        match T::from_json(&items[i]) {
            Ok(entity) => {
                entities.push(entity);
                assert(entities.deep_view() =~= before.push(entity.deep_view()));
            },
            Err(e) => {
                proof {
                    lemma_decode_all_fault::<T>(models, i + 1);
                }
                return Err(e);
            },
        }
        i = i + 1;
    }
    assert(models.take(i as int) =~= models);
    Ok(entities)
}

/// Reads the members of an object as the entries of a sorted map.
pub fn read_entries<T: Schema>(members: &Vec<(String, Json)>) -> (r: Result<
    SortedMap<T>,
    SchemaError,
>)
    ensures
        match r {
            Ok(map) => map.wf() && decode_entries::<T>(members.deep_view()) == Ok::<
                Seq<(Seq<char>, T::V)>,
                SchemaError,
            >(map@),
            Err(e) => decode_entries::<T>(members.deep_view()) == Err::<
                Seq<(Seq<char>, T::V)>,
                SchemaError,
            >(e),
        },
{
    let ghost models = members.deep_view();
    let mut map: SortedMap<T> = SortedMap::new();
    let mut i: usize = 0;
    assert(models.take(0) =~= Seq::empty());
    while i < members.len()
        invariant
            i <= members.len(),
            models == members.deep_view(),
            map.wf(),
            decode_entries::<T>(models.take(i as int)) == Ok::<Seq<(Seq<char>, T::V)>, SchemaError>(
                map@,
            ),
        decreases members.len() - i,
    {
        assert(models[i as int] == (members@[i as int].0@, members@[i as int].1@));
        assert(models.take(i + 1).drop_last() =~= models.take(i as int));
        match T::from_json(&members[i].1) {
            Ok(entity) => {
                map.insert(members[i].0.clone(), entity);
            },
            Err(e) => {
                proof {
                    lemma_decode_entries_fault::<T>(models, i + 1);
                }
                return Err(e);
            },
        }
        i = i + 1;
    }
    assert(models.take(i as int) =~= models);
    Ok(map)
}

/// Reads a required member that holds an entity.
pub fn read_required<T: Schema>(doc: &Json, key: &'static str) -> (r: Result<T, SchemaError>)
    ensures
        match r {
            Ok(entity) => required::<T>(doc@, key) == Ok::<T::V, SchemaError>(entity.deep_view()),
            Err(e) => required::<T>(doc@, key) == Err::<T::V, SchemaError>(e),
        },
{
    match doc.get(key) {
        None => Err(SchemaError::MissingField(key)),
        Some(value) => T::from_json(value),
    }
}

/// Reads an optional member that holds an entity.
pub fn read_optional<T: Schema>(doc: &Json, key: &'static str) -> (r: Result<Option<T>, SchemaError>)
    ensures
        match r {
            Ok(entity) => optional::<T>(doc@, key) == Ok::<Option<T::V>, SchemaError>(
                entity.deep_view(),
            ),
            Err(e) => optional::<T>(doc@, key) == Err::<Option<T::V>, SchemaError>(e),
        },
{
    match doc.get(key) {
        None => Ok(None),
        Some(Json::Null) => Ok(None),
        Some(value) => match T::from_json(value) {
            Ok(entity) => Ok(Some(entity)),
            Err(e) => Err(e),
        },
    }
}

/// Reads a required member that holds a list of entities.
pub fn read_required_list<T: Schema>(doc: &Json, key: &'static str) -> (r: Result<
    Vec<T>,
    SchemaError,
>)
    ensures
        match r {
            Ok(entities) => required_list::<T>(doc@, key) == Ok::<Seq<T::V>, SchemaError>(
                entities.deep_view(),
            ),
            Err(e) => required_list::<T>(doc@, key) == Err::<Seq<T::V>, SchemaError>(e),
        },
{
    match doc.get(key) {
        None => Err(SchemaError::MissingField(key)),
        Some(Json::Array(items)) => {
            proof {
                lemma_array_model(*items);
            }
            read_all::<T>(items)
        },
        Some(_) => Err(SchemaError::InvalidType(key)),
    }
}

/// Reads an optional member that holds a list of entities.
pub fn read_optional_list<T: Schema>(doc: &Json, key: &'static str) -> (r: Result<
    Option<Vec<T>>,
    SchemaError,
>)
    ensures
        match r {
            Ok(entities) => optional_list::<T>(doc@, key) == Ok::<Option<Seq<T::V>>, SchemaError>(
                entities.deep_view(),
            ),
            Err(e) => optional_list::<T>(doc@, key) == Err::<Option<Seq<T::V>>, SchemaError>(e),
        },
{
    match doc.get(key) {
        None => Ok(None),
        Some(Json::Null) => Ok(None),
        Some(Json::Array(items)) => {
            proof {
                lemma_array_model(*items);
            }
            match read_all::<T>(items) {
                Ok(entities) => Ok(Some(entities)),
                Err(e) => Err(e),
            }
        },
        Some(_) => Err(SchemaError::InvalidType(key)),
    }
}

/// Reads an optional member that holds a map from names to entities.
pub fn read_optional_map<T: Schema>(doc: &Json, key: &'static str) -> (r: Result<
    Option<SortedMap<T>>,
    SchemaError,
>)
    ensures
        match r {
            Ok(map) => optional_map::<T>(doc@, key) == Ok::<
                Option<Seq<(Seq<char>, T::V)>>,
                SchemaError,
            >(map.deep_view()) && (map matches Some(m) ==> m.wf()),
            Err(e) => optional_map::<T>(doc@, key) == Err::<
                Option<Seq<(Seq<char>, T::V)>>,
                SchemaError,
            >(e),
        },
{
    match doc.get(key) {
        None => Ok(None),
        Some(Json::Null) => Ok(None),
        Some(Json::Object(members)) => {
            proof {
                lemma_object_model(*members);
            }
            match read_entries::<T>(members) {
                Ok(map) => Ok(Some(map)),
                Err(e) => Err(e),
            }
        },
        Some(_) => Err(SchemaError::InvalidType(key)),
    }
}

} // verus!
