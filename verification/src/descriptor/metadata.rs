//! The metadata of a parameter.

use vstd::prelude::*;
use vstd::utf8::is_ascii_chars;
use crate::error::SchemaError;
use crate::json::{lemma_object_model, Json, JsonModel};
use crate::reader::read_optional_text;
use crate::schema::{optional_text, text_or_null, Schema};
use crate::sorted_map::{lemma_find_in_sorted, lemma_sorted_by_steps, sorted_by_key};
use crate::text::lemma_key_lt_ascii;
use crate::writer::write_optional_text;

verus! {

/// What is said about a parameter beyond its constraints.
#[derive(Debug, Clone, PartialEq)]
pub struct Metadata {
    /// What the parameter is for.
    pub description: Option<String>,
}

/// The value of a [`Metadata`]: its texts by their characters, its lists and maps
/// by their entries in order.
pub ghost struct MetadataModel {
    pub description: Option<Seq<char>>,
}

impl DeepView for Metadata {
    type V = MetadataModel;

    open spec fn deep_view(&self) -> MetadataModel {
        MetadataModel {
            description: self.description.deep_view(),
        }
    }
}

impl View for Metadata {
    type V = MetadataModel;

    open spec fn view(&self) -> MetadataModel {
        self.deep_view()
    }
}

impl Metadata {
    /// The members of the document come in increasing order of their keys.
    pub proof fn lemma_members_in_order(value: MetadataModel)
        ensures
            sorted_by_key(Metadata::encode(value)->Object_0),
    {
        reveal_strlit("description");
        assert("description"@.len() == 11 && "description"@[0] == 'd'
            && "description"@[1] == 'e' && "description"@[2] == 's' && "description"@[3] == 'c'
            && "description"@[4] == 'r' && "description"@[5] == 'i' && "description"@[6] == 'p'
            && "description"@[7] == 't' && "description"@[8] == 'i' && "description"@[9] == 'o'
            && "description"@[10] == 'n');
        assert(is_ascii_chars("description"@));
        let members = Metadata::encode(value)->Object_0;
        assert(members[0].0 == "description"@);
        lemma_sorted_by_steps(members);
    }

    /// Each member of the document is found under its key.
    pub proof fn lemma_members_found(value: MetadataModel)
        ensures
            Metadata::encode(value).member("description"@) == Some(text_or_null(value.description)),
    {
        Metadata::lemma_members_in_order(value);
        let members = Metadata::encode(value)->Object_0;
        assert(members[0] == ("description"@, text_or_null(value.description)));
        lemma_find_in_sorted(members, 0);
    }
}

impl Schema for Metadata {
    open spec fn decode(doc: JsonModel) -> Result<MetadataModel, SchemaError> {
        let description = optional_text(doc, "description");
        if !(doc is Object) {
            Err(SchemaError::NotAnObject)
        } else if description is Err {
            Err(description->Err_0)
        } else {
            Ok(
                MetadataModel {
                    description: description->Ok_0,
                },
            )
        }
    }

    open spec fn encode(value: MetadataModel) -> JsonModel {
        JsonModel::Object(
            seq![
                ("description"@, text_or_null(value.description)),
            ],
        )
    }

    open spec fn valid(value: MetadataModel) -> bool {
        true
    }

    fn from_json(doc: &Json) -> (r: Result<Metadata, SchemaError>) {
        if !doc.is_object() {
            return Err(SchemaError::NotAnObject);
        }
        let description = read_optional_text(doc, "description")?;
        Ok(Metadata { description })
    }

    fn to_json(&self) -> (doc: Json) {
        let mut members: Vec<(String, Json)> = Vec::new();
        members.push(("description".to_owned(), write_optional_text(&self.description)));
        proof {
            lemma_object_model(members);
            assert(members.deep_view() =~= Self::encode(self.deep_view())->Object_0);
        }
        Json::Object(members)
    }

    proof fn lemma_decoded_is_valid(doc: JsonModel) {
    }

    proof fn lemma_round_trip(value: MetadataModel) {
        Self::lemma_members_found(value);
    }
}

} // verus!
