//! The place of a value in the invocation image.

use vstd::prelude::*;
use vstd::utf8::is_ascii_chars;
use crate::error::SchemaError;
use crate::json::{lemma_object_model, Json, JsonModel};
use crate::reader::read_optional_text;
use crate::schema::{optional_text, text_or_null, Schema};
use crate::sorted_map::{lemma_find_in_sorted, lemma_sorted_by_steps, sorted_by_key};
use crate::text::lemma_key_lt_ascii;
use crate::writer::write_optional_text;

verus! {

/// Where in the invocation image the value of a parameter is placed.
///
/// The two places do not exclude each other: a value may go to an environment
/// variable and to a file at once.
#[derive(Debug, Clone, PartialEq)]
pub struct Destination {
    /// The environment variable that receives the value.
    pub env: Option<String>,
    /// The absolute path of the file that receives the value.
    pub path: Option<String>,
}

/// The value of a [`Destination`]: its texts by their characters, its lists and maps
/// by their entries in order.
pub ghost struct DestinationModel {
    pub env: Option<Seq<char>>,
    pub path: Option<Seq<char>>,
}

impl DeepView for Destination {
    type V = DestinationModel;

    open spec fn deep_view(&self) -> DestinationModel {
        DestinationModel {
            env: self.env.deep_view(),
            path: self.path.deep_view(),
        }
    }
}

impl View for Destination {
    type V = DestinationModel;

    open spec fn view(&self) -> DestinationModel {
        self.deep_view()
    }
}

impl Destination {
    /// The members of the document come in increasing order of their keys.
    pub proof fn lemma_members_in_order(value: DestinationModel)
        ensures
            sorted_by_key(Destination::encode(value)->Object_0),
    {
        reveal_strlit("env");
        reveal_strlit("path");
        assert("env"@.len() == 3 && "env"@[0] == 'e' && "env"@[1] == 'n' && "env"@[2] == 'v');
        assert(is_ascii_chars("env"@));
        assert("path"@.len() == 4 && "path"@[0] == 'p' && "path"@[1] == 'a' && "path"@[2] == 't'
            && "path"@[3] == 'h');
        assert(is_ascii_chars("path"@));
        lemma_key_lt_ascii("env"@, "path"@, 0);
        let members = Destination::encode(value)->Object_0;
        assert(members[0].0 == "env"@);
        assert(members[1].0 == "path"@);
        lemma_sorted_by_steps(members);
    }

    /// Each member of the document is found under its key.
    pub proof fn lemma_members_found(value: DestinationModel)
        ensures
            Destination::encode(value).member("env"@) == Some(text_or_null(value.env)),
            Destination::encode(value).member("path"@) == Some(text_or_null(value.path)),
    {
        Destination::lemma_members_in_order(value);
        let members = Destination::encode(value)->Object_0;
        assert(members[0] == ("env"@, text_or_null(value.env)));
        assert(members[1] == ("path"@, text_or_null(value.path)));
        lemma_find_in_sorted(members, 0);
        lemma_find_in_sorted(members, 1);
    }
}

impl Schema for Destination {
    open spec fn decode(doc: JsonModel) -> Result<DestinationModel, SchemaError> {
        let env = optional_text(doc, "env");
        let path = optional_text(doc, "path");
        if !(doc is Object) {
            Err(SchemaError::NotAnObject)
        } else if env is Err {
            Err(env->Err_0)
        } else if path is Err {
            Err(path->Err_0)
        } else {
            Ok(
                DestinationModel {
                    env: env->Ok_0,
                    path: path->Ok_0,
                },
            )
        }
    }

    open spec fn encode(value: DestinationModel) -> JsonModel {
        JsonModel::Object(
            seq![
                ("env"@, text_or_null(value.env)),
                ("path"@, text_or_null(value.path)),
            ],
        )
    }

    open spec fn valid(value: DestinationModel) -> bool {
        true
    }

    fn from_json(doc: &Json) -> (r: Result<Destination, SchemaError>) {
        if !doc.is_object() {
            return Err(SchemaError::NotAnObject);
        }
        let env = read_optional_text(doc, "env")?;
        let path = read_optional_text(doc, "path")?;
        Ok(Destination { env, path })
    }

    fn to_json(&self) -> (doc: Json) {
        let mut members: Vec<(String, Json)> = Vec::new();
        members.push(("env".to_owned(), write_optional_text(&self.env)));
        members.push(("path".to_owned(), write_optional_text(&self.path)));
        proof {
            lemma_object_model(members);
            assert(members.deep_view() =~= Self::encode(self.deep_view())->Object_0);
        }
        Json::Object(members)
    }

    proof fn lemma_decoded_is_valid(doc: JsonModel) {
    }

    proof fn lemma_round_trip(value: DestinationModel) {
        Self::lemma_members_found(value);
    }
}

} // verus!
