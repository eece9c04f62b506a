//! The credentials of a bundle.

use vstd::prelude::*;
use vstd::utf8::is_ascii_chars;
use crate::error::SchemaError;
use crate::json::{lemma_object_model, Json, JsonModel};
use crate::reader::read_optional_text;
use crate::schema::{optional_text, text_or_null, Schema};
use crate::sorted_map::{lemma_find_in_sorted, lemma_sorted_by_steps, sorted_by_key};
use crate::text::lemma_key_lt_ascii;
use crate::writer::write_optional_text;

verus! {

/// A credential that is handed to the invocation image when it starts.
///
/// One of `env` and `path` is expected to be set, but neither is demanded.
#[derive(Debug, Clone, PartialEq)]
pub struct Credential {
    /// What the credential is for.
    pub description: Option<String>,
    /// The environment variable that receives the value.
    pub env: Option<String>,
    /// The absolute path of the file that receives the value.
    pub path: Option<String>,
}

/// The value of a [`Credential`]: its texts by their characters, its lists and maps
/// by their entries in order.
pub ghost struct CredentialModel {
    pub description: Option<Seq<char>>,
    pub env: Option<Seq<char>>,
    pub path: Option<Seq<char>>,
}

impl DeepView for Credential {
    type V = CredentialModel;

    open spec fn deep_view(&self) -> CredentialModel {
        CredentialModel {
            description: self.description.deep_view(),
            env: self.env.deep_view(),
            path: self.path.deep_view(),
        }
    }
}

impl View for Credential {
    type V = CredentialModel;

    open spec fn view(&self) -> CredentialModel {
        self.deep_view()
    }
}

impl Credential {
    /// The members of the document come in increasing order of their keys.
    pub proof fn lemma_members_in_order(value: CredentialModel)
        ensures
            sorted_by_key(Credential::encode(value)->Object_0),
    {
        reveal_strlit("description");
        reveal_strlit("env");
        reveal_strlit("path");
        assert("description"@.len() == 11 && "description"@[0] == 'd'
            && "description"@[1] == 'e' && "description"@[2] == 's' && "description"@[3] == 'c'
            && "description"@[4] == 'r' && "description"@[5] == 'i' && "description"@[6] == 'p'
            && "description"@[7] == 't' && "description"@[8] == 'i' && "description"@[9] == 'o'
            && "description"@[10] == 'n');
        assert(is_ascii_chars("description"@));
        assert("env"@.len() == 3 && "env"@[0] == 'e' && "env"@[1] == 'n' && "env"@[2] == 'v');
        assert(is_ascii_chars("env"@));
        assert("path"@.len() == 4 && "path"@[0] == 'p' && "path"@[1] == 'a' && "path"@[2] == 't'
            && "path"@[3] == 'h');
        assert(is_ascii_chars("path"@));
        lemma_key_lt_ascii("description"@, "env"@, 0);
        lemma_key_lt_ascii("env"@, "path"@, 0);
        let members = Credential::encode(value)->Object_0;
        assert(members[0].0 == "description"@);
        assert(members[1].0 == "env"@);
        assert(members[2].0 == "path"@);
        lemma_sorted_by_steps(members);
    }

    /// Each member of the document is found under its key.
    pub proof fn lemma_members_found(value: CredentialModel)
        ensures
            Credential::encode(value).member("description"@) == Some(text_or_null(value.description)),
            Credential::encode(value).member("env"@) == Some(text_or_null(value.env)),
            Credential::encode(value).member("path"@) == Some(text_or_null(value.path)),
    {
        Credential::lemma_members_in_order(value);
        let members = Credential::encode(value)->Object_0;
        assert(members[0] == ("description"@, text_or_null(value.description)));
        assert(members[1] == ("env"@, text_or_null(value.env)));
        assert(members[2] == ("path"@, text_or_null(value.path)));
        lemma_find_in_sorted(members, 0);
        lemma_find_in_sorted(members, 1);
        lemma_find_in_sorted(members, 2);
    }
}

impl Schema for Credential {
    open spec fn decode(doc: JsonModel) -> Result<CredentialModel, SchemaError> {
        let description = optional_text(doc, "description");
        let env = optional_text(doc, "env");
        let path = optional_text(doc, "path");
        if !(doc is Object) {
            Err(SchemaError::NotAnObject)
        } else if description is Err {
            Err(description->Err_0)
        } else if env is Err {
            Err(env->Err_0)
        } else if path is Err {
            Err(path->Err_0)
        } else {
            Ok(
                CredentialModel {
                    description: description->Ok_0,
                    env: env->Ok_0,
                    path: path->Ok_0,
                },
            )
        }
    }

    open spec fn encode(value: CredentialModel) -> JsonModel {
        JsonModel::Object(
            seq![
                ("description"@, text_or_null(value.description)),
                ("env"@, text_or_null(value.env)),
                ("path"@, text_or_null(value.path)),
            ],
        )
    }

    open spec fn valid(value: CredentialModel) -> bool {
        true
    }

    fn from_json(doc: &Json) -> (r: Result<Credential, SchemaError>) {
        if !doc.is_object() {
            return Err(SchemaError::NotAnObject);
        }
        let description = read_optional_text(doc, "description")?;
        let env = read_optional_text(doc, "env")?;
        let path = read_optional_text(doc, "path")?;
        Ok(Credential { description, env, path })
    }

    fn to_json(&self) -> (doc: Json) {
        let mut members: Vec<(String, Json)> = Vec::new();
        members.push(("description".to_owned(), write_optional_text(&self.description)));
        members.push(("env".to_owned(), write_optional_text(&self.env)));
        members.push(("path".to_owned(), write_optional_text(&self.path)));
        proof {
            lemma_object_model(members);
            assert(members.deep_view() =~= Self::encode(self.deep_view())->Object_0);
        }
        Json::Object(members)
    }

    proof fn lemma_decoded_is_valid(doc: JsonModel) {
    }

    proof fn lemma_round_trip(value: CredentialModel) {
        Self::lemma_members_found(value);
    }
}

} // verus!
