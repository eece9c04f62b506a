//! The custom actions of a bundle.

use vstd::prelude::*;
use vstd::utf8::is_ascii_chars;
use crate::error::SchemaError;
use crate::json::{lemma_object_model, Json, JsonModel};
use crate::reader::{read_flag, read_optional_text};
use crate::schema::{flag, optional_text, text_or_null, Schema};
use crate::sorted_map::{lemma_find_in_sorted, lemma_sorted_by_steps, sorted_by_key};
use crate::text::lemma_key_lt_ascii;
use crate::writer::write_optional_text;

verus! {

/// A custom action of the invocation image, beyond `install`, `upgrade` and
/// `uninstall`.
#[derive(Debug, Clone, PartialEq)]
pub struct Action {
    /// What the action does.
    pub description: Option<String>,
    /// Whether the action changes the deployment, so that it counts as a release.
    /// `false` where the document does not say.
    pub modifies: bool,
    /// Whether the action runs without an installation, credentials or
    /// parameters, as printing a help text does. `false` where the document does
    /// not say.
    pub stateless: bool,
}

/// The value of a [`Action`]: its texts by their characters, its lists and maps
/// by their entries in order.
pub ghost struct ActionModel {
    pub description: Option<Seq<char>>,
    pub modifies: bool,
    pub stateless: bool,
}

impl DeepView for Action {
    type V = ActionModel;

    open spec fn deep_view(&self) -> ActionModel {
        ActionModel {
            description: self.description.deep_view(),
            modifies: self.modifies,
            stateless: self.stateless,
        }
    }
}

impl View for Action {
    type V = ActionModel;

    open spec fn view(&self) -> ActionModel {
        self.deep_view()
    }
}

impl Action {
    /// The members of the document come in increasing order of their keys.
    pub proof fn lemma_members_in_order(value: ActionModel)
        ensures
            sorted_by_key(Action::encode(value)->Object_0),
    {
        reveal_strlit("description");
        reveal_strlit("modifies");
        reveal_strlit("stateless");
        assert("description"@.len() == 11 && "description"@[0] == 'd'
            && "description"@[1] == 'e' && "description"@[2] == 's' && "description"@[3] == 'c'
            && "description"@[4] == 'r' && "description"@[5] == 'i' && "description"@[6] == 'p'
            && "description"@[7] == 't' && "description"@[8] == 'i' && "description"@[9] == 'o'
            && "description"@[10] == 'n');
        assert(is_ascii_chars("description"@));
        assert("modifies"@.len() == 8 && "modifies"@[0] == 'm' && "modifies"@[1] == 'o'
            && "modifies"@[2] == 'd' && "modifies"@[3] == 'i' && "modifies"@[4] == 'f'
            && "modifies"@[5] == 'i' && "modifies"@[6] == 'e' && "modifies"@[7] == 's');
        assert(is_ascii_chars("modifies"@));
        assert("stateless"@.len() == 9 && "stateless"@[0] == 's' && "stateless"@[1] == 't'
            && "stateless"@[2] == 'a' && "stateless"@[3] == 't' && "stateless"@[4] == 'e'
            && "stateless"@[5] == 'l' && "stateless"@[6] == 'e' && "stateless"@[7] == 's'
            && "stateless"@[8] == 's');
        assert(is_ascii_chars("stateless"@));
        lemma_key_lt_ascii("description"@, "modifies"@, 0);
        lemma_key_lt_ascii("modifies"@, "stateless"@, 0);
        let members = Action::encode(value)->Object_0;
        assert(members[0].0 == "description"@);
        assert(members[1].0 == "modifies"@);
        assert(members[2].0 == "stateless"@);
        lemma_sorted_by_steps(members);
    }

    /// Each member of the document is found under its key.
    pub proof fn lemma_members_found(value: ActionModel)
        ensures
            Action::encode(value).member("description"@) == Some(text_or_null(value.description)),
            Action::encode(value).member("modifies"@) == Some(JsonModel::Bool(value.modifies)),
            Action::encode(value).member("stateless"@) == Some(JsonModel::Bool(value.stateless)),
    {
        Action::lemma_members_in_order(value);
        let members = Action::encode(value)->Object_0;
        assert(members[0] == ("description"@, text_or_null(value.description)));
        assert(members[1] == ("modifies"@, JsonModel::Bool(value.modifies)));
        assert(members[2] == ("stateless"@, JsonModel::Bool(value.stateless)));
        lemma_find_in_sorted(members, 0);
        lemma_find_in_sorted(members, 1);
        lemma_find_in_sorted(members, 2);
    }
}

impl Schema for Action {
    open spec fn decode(doc: JsonModel) -> Result<ActionModel, SchemaError> {
        let description = optional_text(doc, "description");
        let modifies = flag(doc, "modifies");
        let stateless = flag(doc, "stateless");
        if !(doc is Object) {
            Err(SchemaError::NotAnObject)
        } else if description is Err {
            Err(description->Err_0)
        } else if modifies is Err {
            Err(modifies->Err_0)
        } else if stateless is Err {
            Err(stateless->Err_0)
        } else {
            Ok(
                ActionModel {
                    description: description->Ok_0,
                    modifies: modifies->Ok_0,
                    stateless: stateless->Ok_0,
                },
            )
        }
    }

    open spec fn encode(value: ActionModel) -> JsonModel {
        JsonModel::Object(
            seq![
                ("description"@, text_or_null(value.description)),
                ("modifies"@, JsonModel::Bool(value.modifies)),
                ("stateless"@, JsonModel::Bool(value.stateless)),
            ],
        )
    }

    open spec fn valid(value: ActionModel) -> bool {
        true
    }

    fn from_json(doc: &Json) -> (r: Result<Action, SchemaError>) {
        if !doc.is_object() {
            return Err(SchemaError::NotAnObject);
        }
        let description = read_optional_text(doc, "description")?;
        let modifies = read_flag(doc, "modifies")?;
        let stateless = read_flag(doc, "stateless")?;
        Ok(Action { description, modifies, stateless })
    }

    fn to_json(&self) -> (doc: Json) {
        let mut members: Vec<(String, Json)> = Vec::new();
        members.push(("description".to_owned(), write_optional_text(&self.description)));
        members.push(("modifies".to_owned(), Json::Bool(self.modifies)));
        members.push(("stateless".to_owned(), Json::Bool(self.stateless)));
        proof {
            lemma_object_model(members);
            assert(members.deep_view() =~= Self::encode(self.deep_view())->Object_0);
        }
        Json::Object(members)
    }

    proof fn lemma_decoded_is_valid(doc: JsonModel) {
    }

    proof fn lemma_round_trip(value: ActionModel) {
        Self::lemma_members_found(value);
    }
}

} // verus!
