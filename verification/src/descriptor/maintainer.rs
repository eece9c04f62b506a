//! The maintainers of a bundle.

use vstd::prelude::*;
use vstd::utf8::is_ascii_chars;
use crate::error::SchemaError;
use crate::json::{lemma_object_model, Json, JsonModel};
use crate::reader::{read_optional_text, read_required_text};
use crate::schema::{optional_text, required, required_text, text_or_null, Schema};
use crate::sorted_map::{lemma_find_in_sorted, lemma_sorted_by_steps, sorted_by_key};
use crate::text::lemma_key_lt_ascii;
use crate::writer::write_optional_text;

verus! {

/// A party responsible for a bundle.
///
/// Only the name is required; its format is left open.
#[derive(Debug, Clone, PartialEq)]
pub struct Maintainer {
    /// The maintainer's email address.
    pub email: Option<String>,
    /// The maintainer's name.
    pub name: String,
    /// Where to find more about the maintainer.
    pub url: Option<String>,
}

/// The value of a [`Maintainer`]: its texts by their characters, its lists and maps
/// by their entries in order.
pub ghost struct MaintainerModel {
    pub email: Option<Seq<char>>,
    pub name: Seq<char>,
    pub url: Option<Seq<char>>,
}

impl DeepView for Maintainer {
    type V = MaintainerModel;

    open spec fn deep_view(&self) -> MaintainerModel {
        MaintainerModel {
            email: self.email.deep_view(),
            name: self.name.deep_view(),
            url: self.url.deep_view(),
        }
    }
}

impl View for Maintainer {
    type V = MaintainerModel;

    open spec fn view(&self) -> MaintainerModel {
        self.deep_view()
    }
}

impl Maintainer {
    /// The members of the document come in increasing order of their keys.
    pub proof fn lemma_members_in_order(value: MaintainerModel)
        ensures
            sorted_by_key(Maintainer::encode(value)->Object_0),
    {
        reveal_strlit("email");
        reveal_strlit("name");
        reveal_strlit("url");
        assert("email"@.len() == 5 && "email"@[0] == 'e' && "email"@[1] == 'm'
            && "email"@[2] == 'a' && "email"@[3] == 'i' && "email"@[4] == 'l');
        assert(is_ascii_chars("email"@));
        assert("name"@.len() == 4 && "name"@[0] == 'n' && "name"@[1] == 'a' && "name"@[2] == 'm'
            && "name"@[3] == 'e');
        assert(is_ascii_chars("name"@));
        assert("url"@.len() == 3 && "url"@[0] == 'u' && "url"@[1] == 'r' && "url"@[2] == 'l');
        assert(is_ascii_chars("url"@));
        lemma_key_lt_ascii("email"@, "name"@, 0);
        lemma_key_lt_ascii("name"@, "url"@, 0);
        let members = Maintainer::encode(value)->Object_0;
        assert(members[0].0 == "email"@);
        assert(members[1].0 == "name"@);
        assert(members[2].0 == "url"@);
        lemma_sorted_by_steps(members);
    }

    /// Each member of the document is found under its key.
    pub proof fn lemma_members_found(value: MaintainerModel)
        ensures
            Maintainer::encode(value).member("email"@) == Some(text_or_null(value.email)),
            Maintainer::encode(value).member("name"@) == Some(JsonModel::String(value.name)),
            Maintainer::encode(value).member("url"@) == Some(text_or_null(value.url)),
    {
        Maintainer::lemma_members_in_order(value);
        let members = Maintainer::encode(value)->Object_0;
        assert(members[0] == ("email"@, text_or_null(value.email)));
        assert(members[1] == ("name"@, JsonModel::String(value.name)));
        assert(members[2] == ("url"@, text_or_null(value.url)));
        lemma_find_in_sorted(members, 0);
        lemma_find_in_sorted(members, 1);
        lemma_find_in_sorted(members, 2);
    }
}

impl Schema for Maintainer {
    open spec fn decode(doc: JsonModel) -> Result<MaintainerModel, SchemaError> {
        let email = optional_text(doc, "email");
        let name = required_text(doc, "name");
        let url = optional_text(doc, "url");
        if !(doc is Object) {
            Err(SchemaError::NotAnObject)
        } else if email is Err {
            Err(email->Err_0)
        } else if name is Err {
            Err(name->Err_0)
        } else if url is Err {
            Err(url->Err_0)
        } else {
            Ok(
                MaintainerModel {
                    email: email->Ok_0,
                    name: name->Ok_0,
                    url: url->Ok_0,
                },
            )
        }
    }

    open spec fn encode(value: MaintainerModel) -> JsonModel {
        JsonModel::Object(
            seq![
                ("email"@, text_or_null(value.email)),
                ("name"@, JsonModel::String(value.name)),
                ("url"@, text_or_null(value.url)),
            ],
        )
    }

    open spec fn valid(value: MaintainerModel) -> bool {
        true
    }

    fn from_json(doc: &Json) -> (r: Result<Maintainer, SchemaError>) {
        if !doc.is_object() {
            return Err(SchemaError::NotAnObject);
        }
        let email = read_optional_text(doc, "email")?;
        let name = read_required_text(doc, "name")?;
        let url = read_optional_text(doc, "url")?;
        Ok(Maintainer { email, name, url })
    }

    fn to_json(&self) -> (doc: Json) {
        let mut members: Vec<(String, Json)> = Vec::new();
        members.push(("email".to_owned(), write_optional_text(&self.email)));
        members.push(("name".to_owned(), Json::String(self.name.clone())));
        members.push(("url".to_owned(), write_optional_text(&self.url)));
        proof {
            lemma_object_model(members);
            assert(members.deep_view() =~= Self::encode(self.deep_view())->Object_0);
        }
        Json::Object(members)
    }

    proof fn lemma_decoded_is_valid(doc: JsonModel) {
    }

    proof fn lemma_round_trip(value: MaintainerModel) {
        Self::lemma_members_found(value);
    }
}

} // verus!
