//! How documents stand for values: the rule that each entity follows, and
//! what one member of an object says as text, number, flag, list or map.

use vstd::prelude::*;
use crate::error::SchemaError;
use crate::json::{Json, JsonModel};
use crate::sorted_map::{lemma_put_last, lemma_put_sorted, lemma_rank_bounds, put, rank, sorted_by_key};
use crate::text::key_lt;

verus! {

/// A type whose values are read from and written to JSON documents.
pub trait Schema: DeepView + Sized {
    /// What a document decodes to: a value, or the first fault in it.
    spec fn decode(doc: JsonModel) -> Result<Self::V, SchemaError>;

    /// The document that stands for a value.
    spec fn encode(value: Self::V) -> JsonModel;

    /// Whether a value can be told from its document: every map in it is
    /// sorted by key, and no optional JSON value in it is null, which reads
    /// as absent.
    spec fn valid(value: Self::V) -> bool;

    /// Reads a value from a document.
    fn from_json(doc: &Json) -> (r: Result<Self, SchemaError>)
        ensures
            match r {
                Ok(value) => Self::decode(doc@) == Ok::<Self::V, SchemaError>(value.deep_view()),
                Err(e) => Self::decode(doc@) == Err::<Self::V, SchemaError>(e),
            },
    ;

    /// Writes a value as a document.
    fn to_json(&self) -> (doc: Json)
        ensures
            doc@ == Self::encode(self.deep_view()),
    ;

    /// What a document decodes to is valid.
    proof fn lemma_decoded_is_valid(doc: JsonModel)
        ensures
            Self::decode(doc) matches Ok(value) ==> Self::valid(value),
    ;

    /// Reading the document of a valid value gives the value back.
    proof fn lemma_round_trip(value: Self::V)
        requires
            Self::valid(value),
        ensures
            Self::decode(Self::encode(value)) == Ok::<Self::V, SchemaError>(value),
    ;
}

/// A required member that holds text.
pub open spec fn required_text(doc: JsonModel, key: &'static str) -> Result<Seq<char>, SchemaError> {
    match doc.member(key@) {
        None => Err(SchemaError::MissingField(key)),
        Some(JsonModel::String(t)) => Ok(t),
        Some(_) => Err(SchemaError::InvalidType(key)),
    }
}

/// An optional member that holds text; absent where the key is missing or null.
pub open spec fn optional_text(doc: JsonModel, key: &'static str) -> Result<
    Option<Seq<char>>,
    SchemaError,
> {
    match doc.member(key@) {
        None => Ok(None),
        Some(JsonModel::Null) => Ok(None),
        Some(JsonModel::String(t)) => Ok(Some(t)),
        Some(_) => Err(SchemaError::InvalidType(key)),
    }
}

/// An optional member that holds a 64-bit integer.
pub open spec fn optional_integer(doc: JsonModel, key: &'static str) -> Result<
    Option<i64>,
    SchemaError,
> {
    match doc.member(key@) {
        None => Ok(None),
        Some(JsonModel::Null) => Ok(None),
        Some(JsonModel::Integer(n)) => Ok(Some(n)),
        Some(_) => Err(SchemaError::InvalidType(key)),
    }
}

/// A member that holds a boolean and counts as `false` where the key is missing.
pub open spec fn flag(doc: JsonModel, key: &'static str) -> Result<bool, SchemaError> {
    match doc.member(key@) {
        None => Ok(false),
        Some(JsonModel::Bool(b)) => Ok(b),
        Some(_) => Err(SchemaError::InvalidType(key)),
    }
}

/// Every item is text.
pub open spec fn all_text(items: Seq<JsonModel>) -> bool {
    forall|i: int| 0 <= i < items.len() ==> #[trigger] items[i] is String
}

/// The texts of items that are all text.
pub open spec fn texts_of(items: Seq<JsonModel>) -> Seq<Seq<char>> {
    Seq::new(items.len(), |i: int| items[i]->String_0)
}

/// An optional member that holds a list of texts.
pub open spec fn optional_texts(doc: JsonModel, key: &'static str) -> Result<
    Option<Seq<Seq<char>>>,
    SchemaError,
> {
    match doc.member(key@) {
        None => Ok(None),
        Some(JsonModel::Null) => Ok(None),
        Some(JsonModel::Array(items)) => if all_text(items) {
            Ok(Some(texts_of(items)))
        } else {
            Err(SchemaError::InvalidType(key))
        },
        Some(_) => Err(SchemaError::InvalidType(key)),
    }
}

/// A required member that holds an entity.
pub open spec fn required<T: Schema>(doc: JsonModel, key: &'static str) -> Result<T::V, SchemaError> {
    match doc.member(key@) {
        None => Err(SchemaError::MissingField(key)),
        Some(value) => T::decode(value),
    }
}

/// An optional member that holds an entity.
pub open spec fn optional<T: Schema>(doc: JsonModel, key: &'static str) -> Result<
    Option<T::V>,
    SchemaError,
> {
    match doc.member(key@) {
        None => Ok(None),
        Some(JsonModel::Null) => Ok(None),
        Some(value) => match T::decode(value) {
            Ok(entity) => Ok(Some(entity)),
            Err(e) => Err(e),
        },
    }
}

/// The entities that the items of a list decode to, or the fault of the first
/// item that has one.
pub open spec fn decode_all<T: Schema>(items: Seq<JsonModel>) -> Result<Seq<T::V>, SchemaError>
    decreases items.len(),
{
    if items.len() == 0 {
        Ok(Seq::empty())
    } else {
        match decode_all::<T>(items.drop_last()) {
            Err(e) => Err(e),
            Ok(init) => match T::decode(items.last()) {
                Err(e) => Err(e),
                Ok(entity) => Ok(init.push(entity)),
            },
        }
    }
}

/// A required member that holds a list of entities.
pub open spec fn required_list<T: Schema>(doc: JsonModel, key: &'static str) -> Result<
    Seq<T::V>,
    SchemaError,
> {
    match doc.member(key@) {
        None => Err(SchemaError::MissingField(key)),
        Some(JsonModel::Array(items)) => decode_all::<T>(items),
        Some(_) => Err(SchemaError::InvalidType(key)),
    }
}

/// An optional member that holds a list of entities.
pub open spec fn optional_list<T: Schema>(doc: JsonModel, key: &'static str) -> Result<
    Option<Seq<T::V>>,
    SchemaError,
> {
    match doc.member(key@) {
        None => Ok(None),
        Some(JsonModel::Null) => Ok(None),
        Some(JsonModel::Array(items)) => match decode_all::<T>(items) {
            Ok(entities) => Ok(Some(entities)),
            Err(e) => Err(e),
        },
        Some(_) => Err(SchemaError::InvalidType(key)),
    }
}

/// The sorted entries that the members of an object decode to, each member
/// set in turn so that a later one replaces an earlier one with its key, or
/// the fault of the first member that has one.
pub open spec fn decode_entries<T: Schema>(members: Seq<(Seq<char>, JsonModel)>) -> Result<
    Seq<(Seq<char>, T::V)>,
    SchemaError,
>
    decreases members.len(),
{
    if members.len() == 0 {
        Ok(Seq::empty())
    } else {
        match decode_entries::<T>(members.drop_last()) {
            Err(e) => Err(e),
            Ok(init) => match T::decode(members.last().1) {
                Err(e) => Err(e),
                Ok(entity) => Ok(put(init, members.last().0, entity)),
            },
        }
    }
}

/// An optional member that holds a map from names to entities.
pub open spec fn optional_map<T: Schema>(doc: JsonModel, key: &'static str) -> Result<
    Option<Seq<(Seq<char>, T::V)>>,
    SchemaError,
> {
    match doc.member(key@) {
        None => Ok(None),
        Some(JsonModel::Null) => Ok(None),
        Some(JsonModel::Object(members)) => match decode_entries::<T>(members) {
            Ok(entries) => Ok(Some(entries)),
            Err(e) => Err(e),
        },
        Some(_) => Err(SchemaError::InvalidType(key)),
    }
}

/// The document of an optional text: the text, or null where it is absent.
pub open spec fn text_or_null(text: Option<Seq<char>>) -> JsonModel {
    match text {
        Some(t) => JsonModel::String(t),
        None => JsonModel::Null,
    }
}

/// The document of an optional integer: the integer, or null where it is absent.
pub open spec fn integer_or_null(number: Option<i64>) -> JsonModel {
    match number {
        Some(n) => JsonModel::Integer(n),
        None => JsonModel::Null,
    }
}

/// The document of an optional list of texts.
pub open spec fn texts_or_null(texts: Option<Seq<Seq<char>>>) -> JsonModel {
    match texts {
        Some(list) => JsonModel::Array(Seq::new(list.len(), |i: int| JsonModel::String(list[i]))),
        None => JsonModel::Null,
    }
}

/// The document of an optional entity.
pub open spec fn entity_or_null<T: Schema>(entity: Option<T::V>) -> JsonModel {
    match entity {
        Some(value) => T::encode(value),
        None => JsonModel::Null,
    }
}

/// The document of a list of entities.
pub open spec fn list_of<T: Schema>(entities: Seq<T::V>) -> JsonModel {
    JsonModel::Array(Seq::new(entities.len(), |i: int| T::encode(entities[i])))
}

/// The document of an optional list of entities.
pub open spec fn list_or_null<T: Schema>(entities: Option<Seq<T::V>>) -> JsonModel {
    match entities {
        Some(list) => list_of::<T>(list),
        None => JsonModel::Null,
    }
}

/// The document of an optional map: an object with one member for each
/// entry, in the order of the entries.
pub open spec fn map_or_null<T: Schema>(entries: Option<Seq<(Seq<char>, T::V)>>) -> JsonModel {
    match entries {
        Some(list) => JsonModel::Object(
            Seq::new(list.len(), |i: int| (list[i].0, T::encode(list[i].1))),
        ),
        None => JsonModel::Null,
    }
}

/// Every entity of a list is valid.
pub open spec fn all_valid<T: Schema>(entities: Seq<T::V>) -> bool {
    forall|i: int| 0 <= i < entities.len() ==> T::valid(#[trigger] entities[i])
}

/// Every value of a map is valid.
pub open spec fn all_values_valid<T: Schema>(entries: Seq<(Seq<char>, T::V)>) -> bool {
    forall|i: int| 0 <= i < entries.len() ==> T::valid((#[trigger] entries[i]).1)
}

/// Reading the document of a list of texts gives the texts back.
pub proof fn lemma_texts_round_trip(texts: Seq<Seq<char>>)
    ensures
        all_text(texts_or_null(Some(texts))->Array_0),
        texts_of(texts_or_null(Some(texts))->Array_0) == texts,
{
    assert(texts_of(texts_or_null(Some(texts))->Array_0) =~= texts);
}

/// Reading the document of a list of valid entities gives the entities back.
pub proof fn lemma_list_round_trip<T: Schema>(entities: Seq<T::V>)
    requires
        all_valid::<T>(entities),
    ensures
        decode_all::<T>(list_of::<T>(entities)->Array_0) == Ok::<Seq<T::V>, SchemaError>(entities),
    decreases entities.len(),
{
    let items = list_of::<T>(entities)->Array_0;
    if entities.len() == 0 {
        assert(entities =~= Seq::empty());
    } else {
        let init = entities.drop_last();
        assert(items.drop_last() =~= list_of::<T>(init)->Array_0);
        assert forall|i: int| 0 <= i < init.len() implies T::valid(#[trigger] init[i]) by {
            assert(init[i] == entities[i]);
        }
        lemma_list_round_trip::<T>(init);
        assert(T::valid(entities[entities.len() - 1]));
        T::lemma_round_trip(entities.last());
        assert(init.push(entities.last()) =~= entities);
    }
}

/// Reading the document of a sorted map of valid values gives the map back.
pub proof fn lemma_map_round_trip<T: Schema>(entries: Seq<(Seq<char>, T::V)>)
    requires
        sorted_by_key(entries),
        all_values_valid::<T>(entries),
    ensures
        decode_entries::<T>(map_or_null::<T>(Some(entries))->Object_0) == Ok::<
            Seq<(Seq<char>, T::V)>,
            SchemaError,
        >(entries),
    decreases entries.len(),
{
    let members = map_or_null::<T>(Some(entries))->Object_0;
    if entries.len() == 0 {
        assert(entries =~= Seq::empty());
    } else {
        let init = entries.drop_last();
        let last = entries.len() - 1;
        assert(members.drop_last() =~= map_or_null::<T>(Some(init))->Object_0);
        assert forall|i: int, j: int| 0 <= i < j < init.len() implies key_lt(
            #[trigger] init[i].0,
            #[trigger] init[j].0,
        ) by {
            assert(init[i] == entries[i] && init[j] == entries[j]);
        }
        assert forall|i: int| 0 <= i < init.len() implies T::valid((#[trigger] init[i]).1) by {
            assert(init[i] == entries[i]);
        }
        lemma_map_round_trip::<T>(init);
        assert(T::valid(entries[last].1));
        T::lemma_round_trip(entries[last].1);
        assert forall|j: int| 0 <= j < init.len() implies key_lt(
            (#[trigger] init[j]).0,
            entries[last].0,
        ) by {
            assert(init[j] == entries[j]);
        }
        lemma_put_last(init, entries[last].0, entries[last].1);
        assert(init.push(entries[last]) =~= entries);
    }
}

/// The entities that a list decodes to are valid.
pub proof fn lemma_decode_all_valid<T: Schema>(items: Seq<JsonModel>)
    ensures
        decode_all::<T>(items) matches Ok(entities) ==> all_valid::<T>(entities),
    decreases items.len(),
{
    if items.len() > 0 {
        lemma_decode_all_valid::<T>(items.drop_last());
        T::lemma_decoded_is_valid(items.last());
        if let Ok(entities) = decode_all::<T>(items) {
            let init = decode_all::<T>(items.drop_last())->Ok_0;
            assert forall|i: int| 0 <= i < entities.len() implies T::valid(
                #[trigger] entities[i],
            ) by {
                if i < init.len() {
                    assert(entities[i] == init[i]);
                }
            }
        }
    }
}

/// The entries that the members of an object decode to are sorted by key,
/// and their values are valid.
pub proof fn lemma_decode_entries_valid<T: Schema>(members: Seq<(Seq<char>, JsonModel)>)
    ensures
        decode_entries::<T>(members) matches Ok(entries) ==> sorted_by_key(entries)
            && all_values_valid::<T>(entries),
    decreases members.len(),
{
    if members.len() > 0 {
        lemma_decode_entries_valid::<T>(members.drop_last());
        T::lemma_decoded_is_valid(members.last().1);
        if let Ok(entries) = decode_entries::<T>(members) {
            let init = decode_entries::<T>(members.drop_last())->Ok_0;
            let key = members.last().0;
            let value = T::decode(members.last().1)->Ok_0;
            lemma_put_sorted(init, key, value);
            assert forall|i: int| 0 <= i < entries.len() implies T::valid(
                (#[trigger] entries[i]).1,
            ) by {
                let at = rank(init, key);
                lemma_rank_bounds(init, key);
                if at < init.len() && init[at].0 == key {
                    if i != at {
                        assert(entries[i] == init[i]);
                    }
                } else {
                    if i < at {
                        assert(entries[i] == init[i]);
                    } else if i > at {
                        assert(entries[i] == init[i - 1]);
                    }
                }
            }
        }
    }
}

} // verus!
