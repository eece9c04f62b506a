//! The bundle itself.

use vstd::prelude::*;
use vstd::utf8::is_ascii_chars;
use crate::descriptor::action::{Action, ActionModel};
use crate::descriptor::credential::{Credential, CredentialModel};
use crate::descriptor::image::{Image, ImageModel};
use crate::descriptor::maintainer::{Maintainer, MaintainerModel};
use crate::descriptor::parameter::{Parameter, ParameterModel};
use crate::error::SchemaError;
use crate::json::{lemma_object_model, Json, JsonModel};
use crate::reader::{
    read_optional_list, read_optional_map, read_optional_text, read_optional_texts,
    read_required_list, read_required_text,
};
use crate::schema::{
    all_valid, all_values_valid, lemma_decode_all_valid, lemma_decode_entries_valid,
    lemma_list_round_trip, lemma_map_round_trip, lemma_texts_round_trip, list_of, list_or_null,
    map_or_null, optional_list, optional_map, optional_text, optional_texts, required_list,
    required_text, text_or_null, texts_or_null, Schema,
};
use crate::sorted_map::{lemma_find_in_sorted, lemma_sorted_by_steps, sorted_by_key, SortedMap};
use crate::text::lemma_key_lt_ascii;
use crate::writer::{
    write_list, write_optional_list, write_optional_map, write_optional_text, write_optional_texts,
};

verus! {

/// A bundle descriptor.
///
/// It names the images of a bundle, the parameters and credentials that can
/// be set, and the actions that the bundle offers beyond the usual ones.
/// The members of its document come in the order of the fields here.
#[derive(Debug, Clone, PartialEq)]
pub struct Bundle {
    /// The custom actions of the bundle, by name.
    pub actions: Option<SortedMap<Action>>,
    /// The credentials that the bundle takes, by name.
    pub credentials: Option<SortedMap<Credential>>,
    /// Further data, by name; any JSON value may stand under a name.
    pub custom: Option<SortedMap<Json>>,
    /// A short description of the bundle.
    pub description: Option<String>,
    /// The images that make up the application, by name.
    pub images: Option<SortedMap<Image>>,
    /// The images that can bootstrap the bundle; one of them is run.
    pub invocation_images: Vec<Image>,
    /// Keywords that describe the bundle.
    pub keywords: Option<Vec<String>>,
    /// The license of the bundle.
    pub license: Option<String>,
    /// The parties responsible for the bundle.
    pub maintainers: Option<Vec<Maintainer>>,
    /// The name of the bundle.
    pub name: String,
    /// The parameters that the bundle takes, by name.
    pub parameters: Option<SortedMap<Parameter>>,
    /// The version of the descriptor format that the document follows.
    pub schema_version: String,
    /// The version of the bundle.
    pub version: String,
}

/// The value of a [`Bundle`]: its texts by their characters, its lists and maps
/// by their entries in order.
pub ghost struct BundleModel {
    pub actions: Option<Seq<(Seq<char>, ActionModel)>>,
    pub credentials: Option<Seq<(Seq<char>, CredentialModel)>>,
    pub custom: Option<Seq<(Seq<char>, JsonModel)>>,
    pub description: Option<Seq<char>>,
    pub images: Option<Seq<(Seq<char>, ImageModel)>>,
    pub invocation_images: Seq<ImageModel>,
    pub keywords: Option<Seq<Seq<char>>>,
    pub license: Option<Seq<char>>,
    pub maintainers: Option<Seq<MaintainerModel>>,
    pub name: Seq<char>,
    pub parameters: Option<Seq<(Seq<char>, ParameterModel)>>,
    pub schema_version: Seq<char>,
    pub version: Seq<char>,
}

impl DeepView for Bundle {
    type V = BundleModel;

    open spec fn deep_view(&self) -> BundleModel {
        BundleModel {
            actions: self.actions.deep_view(),
            credentials: self.credentials.deep_view(),
            custom: self.custom.deep_view(),
            description: self.description.deep_view(),
            images: self.images.deep_view(),
            invocation_images: self.invocation_images.deep_view(),
            keywords: self.keywords.deep_view(),
            license: self.license.deep_view(),
            maintainers: self.maintainers.deep_view(),
            name: self.name.deep_view(),
            parameters: self.parameters.deep_view(),
            schema_version: self.schema_version.deep_view(),
            version: self.version.deep_view(),
        }
    }
}

impl View for Bundle {
    type V = BundleModel;

    open spec fn view(&self) -> BundleModel {
        self.deep_view()
    }
}

impl Bundle {
    /// Every map holds its entries in strictly increasing order of their keys.
    pub open spec fn wf(&self) -> bool {
        &&& self.actions matches Some(map) ==> map.wf()
        &&& self.credentials matches Some(map) ==> map.wf()
        &&& self.custom matches Some(map) ==> map.wf()
        &&& self.images matches Some(map) ==> map.wf()
        &&& self.parameters matches Some(map) ==> map.wf()
    }
}

impl Bundle {
    /// The members of the document come in increasing order of their keys.
    pub proof fn lemma_members_in_order(value: BundleModel)
        ensures
            sorted_by_key(Bundle::encode(value)->Object_0),
    {
        reveal_strlit("actions");
        reveal_strlit("credentials");
        reveal_strlit("custom");
        reveal_strlit("description");
        reveal_strlit("images");
        reveal_strlit("invocationImages");
        reveal_strlit("keywords");
        reveal_strlit("license");
        reveal_strlit("maintainers");
        reveal_strlit("name");
        reveal_strlit("parameters");
        reveal_strlit("schemaVersion");
        reveal_strlit("version");
        assert("actions"@.len() == 7 && "actions"@[0] == 'a' && "actions"@[1] == 'c'
            && "actions"@[2] == 't' && "actions"@[3] == 'i' && "actions"@[4] == 'o'
            && "actions"@[5] == 'n' && "actions"@[6] == 's');
        assert(is_ascii_chars("actions"@));
        assert("credentials"@.len() == 11 && "credentials"@[0] == 'c'
            && "credentials"@[1] == 'r' && "credentials"@[2] == 'e' && "credentials"@[3] == 'd'
            && "credentials"@[4] == 'e' && "credentials"@[5] == 'n' && "credentials"@[6] == 't'
            && "credentials"@[7] == 'i' && "credentials"@[8] == 'a' && "credentials"@[9] == 'l'
            && "credentials"@[10] == 's');
        assert(is_ascii_chars("credentials"@));
        assert("custom"@.len() == 6 && "custom"@[0] == 'c' && "custom"@[1] == 'u'
            && "custom"@[2] == 's' && "custom"@[3] == 't' && "custom"@[4] == 'o'
            && "custom"@[5] == 'm');
        assert(is_ascii_chars("custom"@));
        assert("description"@.len() == 11 && "description"@[0] == 'd'
            && "description"@[1] == 'e' && "description"@[2] == 's' && "description"@[3] == 'c'
            && "description"@[4] == 'r' && "description"@[5] == 'i' && "description"@[6] == 'p'
            && "description"@[7] == 't' && "description"@[8] == 'i' && "description"@[9] == 'o'
            && "description"@[10] == 'n');
        assert(is_ascii_chars("description"@));
        assert("images"@.len() == 6 && "images"@[0] == 'i' && "images"@[1] == 'm'
            && "images"@[2] == 'a' && "images"@[3] == 'g' && "images"@[4] == 'e'
            && "images"@[5] == 's');
        assert(is_ascii_chars("images"@));
        assert("invocationImages"@.len() == 16 && "invocationImages"@[0] == 'i'
            && "invocationImages"@[1] == 'n' && "invocationImages"@[2] == 'v'
            && "invocationImages"@[3] == 'o' && "invocationImages"@[4] == 'c'
            && "invocationImages"@[5] == 'a' && "invocationImages"@[6] == 't'
            && "invocationImages"@[7] == 'i' && "invocationImages"@[8] == 'o'
            && "invocationImages"@[9] == 'n' && "invocationImages"@[10] == 'I'
            && "invocationImages"@[11] == 'm' && "invocationImages"@[12] == 'a'
            && "invocationImages"@[13] == 'g' && "invocationImages"@[14] == 'e'
            && "invocationImages"@[15] == 's');
        assert(is_ascii_chars("invocationImages"@));
        assert("keywords"@.len() == 8 && "keywords"@[0] == 'k' && "keywords"@[1] == 'e'
            && "keywords"@[2] == 'y' && "keywords"@[3] == 'w' && "keywords"@[4] == 'o'
            && "keywords"@[5] == 'r' && "keywords"@[6] == 'd' && "keywords"@[7] == 's');
        assert(is_ascii_chars("keywords"@));
        assert("license"@.len() == 7 && "license"@[0] == 'l' && "license"@[1] == 'i'
            && "license"@[2] == 'c' && "license"@[3] == 'e' && "license"@[4] == 'n'
            && "license"@[5] == 's' && "license"@[6] == 'e');
        assert(is_ascii_chars("license"@));
        assert("maintainers"@.len() == 11 && "maintainers"@[0] == 'm'
            && "maintainers"@[1] == 'a' && "maintainers"@[2] == 'i' && "maintainers"@[3] == 'n'
            && "maintainers"@[4] == 't' && "maintainers"@[5] == 'a' && "maintainers"@[6] == 'i'
            && "maintainers"@[7] == 'n' && "maintainers"@[8] == 'e' && "maintainers"@[9] == 'r'
            && "maintainers"@[10] == 's');
        assert(is_ascii_chars("maintainers"@));
        assert("name"@.len() == 4 && "name"@[0] == 'n' && "name"@[1] == 'a' && "name"@[2] == 'm'
            && "name"@[3] == 'e');
        assert(is_ascii_chars("name"@));
        assert("parameters"@.len() == 10 && "parameters"@[0] == 'p' && "parameters"@[1] == 'a'
            && "parameters"@[2] == 'r' && "parameters"@[3] == 'a' && "parameters"@[4] == 'm'
            && "parameters"@[5] == 'e' && "parameters"@[6] == 't' && "parameters"@[7] == 'e'
            && "parameters"@[8] == 'r' && "parameters"@[9] == 's');
        assert(is_ascii_chars("parameters"@));
        assert("schemaVersion"@.len() == 13 && "schemaVersion"@[0] == 's'
            && "schemaVersion"@[1] == 'c' && "schemaVersion"@[2] == 'h'
            && "schemaVersion"@[3] == 'e' && "schemaVersion"@[4] == 'm'
            && "schemaVersion"@[5] == 'a' && "schemaVersion"@[6] == 'V'
            && "schemaVersion"@[7] == 'e' && "schemaVersion"@[8] == 'r'
            && "schemaVersion"@[9] == 's' && "schemaVersion"@[10] == 'i'
            && "schemaVersion"@[11] == 'o' && "schemaVersion"@[12] == 'n');
        assert(is_ascii_chars("schemaVersion"@));
        assert("version"@.len() == 7 && "version"@[0] == 'v' && "version"@[1] == 'e'
            && "version"@[2] == 'r' && "version"@[3] == 's' && "version"@[4] == 'i'
            && "version"@[5] == 'o' && "version"@[6] == 'n');
        assert(is_ascii_chars("version"@));
        lemma_key_lt_ascii("actions"@, "credentials"@, 0);
        lemma_key_lt_ascii("credentials"@, "custom"@, 1);
        lemma_key_lt_ascii("custom"@, "description"@, 0);
        lemma_key_lt_ascii("description"@, "images"@, 0);
        lemma_key_lt_ascii("images"@, "invocationImages"@, 1);
        lemma_key_lt_ascii("invocationImages"@, "keywords"@, 0);
        lemma_key_lt_ascii("keywords"@, "license"@, 0);
        lemma_key_lt_ascii("license"@, "maintainers"@, 0);
        lemma_key_lt_ascii("maintainers"@, "name"@, 0);
        lemma_key_lt_ascii("name"@, "parameters"@, 0);
        lemma_key_lt_ascii("parameters"@, "schemaVersion"@, 0);
        lemma_key_lt_ascii("schemaVersion"@, "version"@, 0);
        let members = Bundle::encode(value)->Object_0;
        assert(members[0].0 == "actions"@);
        assert(members[1].0 == "credentials"@);
        assert(members[2].0 == "custom"@);
        assert(members[3].0 == "description"@);
        assert(members[4].0 == "images"@);
        assert(members[5].0 == "invocationImages"@);
        assert(members[6].0 == "keywords"@);
        assert(members[7].0 == "license"@);
        assert(members[8].0 == "maintainers"@);
        assert(members[9].0 == "name"@);
        assert(members[10].0 == "parameters"@);
        assert(members[11].0 == "schemaVersion"@);
        assert(members[12].0 == "version"@);
        lemma_sorted_by_steps(members);
    }

    /// Each member of the document is found under its key.
    pub proof fn lemma_members_found(value: BundleModel)
        ensures
            Bundle::encode(value).member("actions"@) == Some(map_or_null::<Action>(value.actions)),
            Bundle::encode(value).member("credentials"@) == Some(map_or_null::<Credential>(value.credentials)),
            Bundle::encode(value).member("custom"@) == Some(map_or_null::<Json>(value.custom)),
            Bundle::encode(value).member("description"@) == Some(text_or_null(value.description)),
            Bundle::encode(value).member("images"@) == Some(map_or_null::<Image>(value.images)),
            Bundle::encode(value).member("invocationImages"@) == Some(list_of::<Image>(value.invocation_images)),
            Bundle::encode(value).member("keywords"@) == Some(texts_or_null(value.keywords)),
            Bundle::encode(value).member("license"@) == Some(text_or_null(value.license)),
            Bundle::encode(value).member("maintainers"@) == Some(list_or_null::<Maintainer>(value.maintainers)),
            Bundle::encode(value).member("name"@) == Some(JsonModel::String(value.name)),
            Bundle::encode(value).member("parameters"@) == Some(map_or_null::<Parameter>(value.parameters)),
            Bundle::encode(value).member("schemaVersion"@) == Some(JsonModel::String(value.schema_version)),
            Bundle::encode(value).member("version"@) == Some(JsonModel::String(value.version)),
    {
        Bundle::lemma_members_in_order(value);
        let members = Bundle::encode(value)->Object_0;
        assert(members[0] == ("actions"@, map_or_null::<Action>(value.actions)));
        assert(members[1] == ("credentials"@, map_or_null::<Credential>(value.credentials)));
        assert(members[2] == ("custom"@, map_or_null::<Json>(value.custom)));
        assert(members[3] == ("description"@, text_or_null(value.description)));
        assert(members[4] == ("images"@, map_or_null::<Image>(value.images)));
        assert(members[5] == ("invocationImages"@, list_of::<Image>(value.invocation_images)));
        assert(members[6] == ("keywords"@, texts_or_null(value.keywords)));
        assert(members[7] == ("license"@, text_or_null(value.license)));
        assert(members[8] == ("maintainers"@, list_or_null::<Maintainer>(value.maintainers)));
        assert(members[9] == ("name"@, JsonModel::String(value.name)));
        assert(members[10] == ("parameters"@, map_or_null::<Parameter>(value.parameters)));
        assert(members[11] == ("schemaVersion"@, JsonModel::String(value.schema_version)));
        assert(members[12] == ("version"@, JsonModel::String(value.version)));
        lemma_find_in_sorted(members, 0);
        lemma_find_in_sorted(members, 1);
        lemma_find_in_sorted(members, 2);
        lemma_find_in_sorted(members, 3);
        lemma_find_in_sorted(members, 4);
        lemma_find_in_sorted(members, 5);
        lemma_find_in_sorted(members, 6);
        lemma_find_in_sorted(members, 7);
        lemma_find_in_sorted(members, 8);
        lemma_find_in_sorted(members, 9);
        lemma_find_in_sorted(members, 10);
        lemma_find_in_sorted(members, 11);
        lemma_find_in_sorted(members, 12);
    }
}

impl Schema for Bundle {
    open spec fn decode(doc: JsonModel) -> Result<BundleModel, SchemaError> {
        let actions = optional_map::<Action>(doc, "actions");
        let credentials = optional_map::<Credential>(doc, "credentials");
        let custom = optional_map::<Json>(doc, "custom");
        let description = optional_text(doc, "description");
        let images = optional_map::<Image>(doc, "images");
        let invocation_images = required_list::<Image>(doc, "invocationImages");
        let keywords = optional_texts(doc, "keywords");
        let license = optional_text(doc, "license");
        let maintainers = optional_list::<Maintainer>(doc, "maintainers");
        let name = required_text(doc, "name");
        let parameters = optional_map::<Parameter>(doc, "parameters");
        let schema_version = required_text(doc, "schemaVersion");
        let version = required_text(doc, "version");
        if !(doc is Object) {
            Err(SchemaError::NotAnObject)
        } else if actions is Err {
            Err(actions->Err_0)
        } else if credentials is Err {
            Err(credentials->Err_0)
        } else if custom is Err {
            Err(custom->Err_0)
        } else if description is Err {
            Err(description->Err_0)
        } else if images is Err {
            Err(images->Err_0)
        } else if invocation_images is Err {
            Err(invocation_images->Err_0)
        } else if keywords is Err {
            Err(keywords->Err_0)
        } else if license is Err {
            Err(license->Err_0)
        } else if maintainers is Err {
            Err(maintainers->Err_0)
        } else if name is Err {
            Err(name->Err_0)
        } else if parameters is Err {
            Err(parameters->Err_0)
        } else if schema_version is Err {
            Err(schema_version->Err_0)
        } else if version is Err {
            Err(version->Err_0)
        } else {
            Ok(
                BundleModel {
                    actions: actions->Ok_0,
                    credentials: credentials->Ok_0,
                    custom: custom->Ok_0,
                    description: description->Ok_0,
                    images: images->Ok_0,
                    invocation_images: invocation_images->Ok_0,
                    keywords: keywords->Ok_0,
                    license: license->Ok_0,
                    maintainers: maintainers->Ok_0,
                    name: name->Ok_0,
                    parameters: parameters->Ok_0,
                    schema_version: schema_version->Ok_0,
                    version: version->Ok_0,
                },
            )
        }
    }

    open spec fn encode(value: BundleModel) -> JsonModel {
        JsonModel::Object(
            seq![
                ("actions"@, map_or_null::<Action>(value.actions)),
                ("credentials"@, map_or_null::<Credential>(value.credentials)),
                ("custom"@, map_or_null::<Json>(value.custom)),
                ("description"@, text_or_null(value.description)),
                ("images"@, map_or_null::<Image>(value.images)),
                ("invocationImages"@, list_of::<Image>(value.invocation_images)),
                ("keywords"@, texts_or_null(value.keywords)),
                ("license"@, text_or_null(value.license)),
                ("maintainers"@, list_or_null::<Maintainer>(value.maintainers)),
                ("name"@, JsonModel::String(value.name)),
                ("parameters"@, map_or_null::<Parameter>(value.parameters)),
                ("schemaVersion"@, JsonModel::String(value.schema_version)),
                ("version"@, JsonModel::String(value.version)),
            ],
        )
    }

    open spec fn valid(value: BundleModel) -> bool {
        &&& (value.actions matches Some(entries) ==> sorted_by_key(entries) && all_values_valid::<Action>(entries))
        &&& (value.credentials matches Some(entries) ==> sorted_by_key(entries) && all_values_valid::<Credential>(entries))
        &&& (value.custom matches Some(entries) ==> sorted_by_key(entries) && all_values_valid::<Json>(entries))
        &&& (value.images matches Some(entries) ==> sorted_by_key(entries) && all_values_valid::<Image>(entries))
        &&& all_valid::<Image>(value.invocation_images)
        &&& (value.maintainers matches Some(list) ==> all_valid::<Maintainer>(list))
        &&& (value.parameters matches Some(entries) ==> sorted_by_key(entries) && all_values_valid::<Parameter>(entries))
    }

    fn from_json(doc: &Json) -> (r: Result<Bundle, SchemaError>)
        ensures
            r matches Ok(bundle) ==> bundle.wf(),
    {
        if !doc.is_object() {
            return Err(SchemaError::NotAnObject);
        }
        let actions = read_optional_map::<Action>(doc, "actions")?;
        let credentials = read_optional_map::<Credential>(doc, "credentials")?;
        let custom = read_optional_map::<Json>(doc, "custom")?;
        let description = read_optional_text(doc, "description")?;
        let images = read_optional_map::<Image>(doc, "images")?;
        let invocation_images = read_required_list::<Image>(doc, "invocationImages")?;
        let keywords = read_optional_texts(doc, "keywords")?;
        let license = read_optional_text(doc, "license")?;
        let maintainers = read_optional_list::<Maintainer>(doc, "maintainers")?;
        let name = read_required_text(doc, "name")?;
        let parameters = read_optional_map::<Parameter>(doc, "parameters")?;
        let schema_version = read_required_text(doc, "schemaVersion")?;
        let version = read_required_text(doc, "version")?;
        Ok(
            Bundle {
                actions,
                credentials,
                custom,
                description,
                images,
                invocation_images,
                keywords,
                license,
                maintainers,
                name,
                parameters,
                schema_version,
                version,
            },
        )
    }

    fn to_json(&self) -> (doc: Json) {
        let mut members: Vec<(String, Json)> = Vec::new();
        members.push(("actions".to_owned(), write_optional_map::<Action>(&self.actions)));
        members.push(("credentials".to_owned(), write_optional_map::<Credential>(&self.credentials)));
        members.push(("custom".to_owned(), write_optional_map::<Json>(&self.custom)));
        members.push(("description".to_owned(), write_optional_text(&self.description)));
        members.push(("images".to_owned(), write_optional_map::<Image>(&self.images)));
        members.push(("invocationImages".to_owned(), write_list::<Image>(&self.invocation_images)));
        members.push(("keywords".to_owned(), write_optional_texts(&self.keywords)));
        members.push(("license".to_owned(), write_optional_text(&self.license)));
        members.push(("maintainers".to_owned(), write_optional_list::<Maintainer>(&self.maintainers)));
        members.push(("name".to_owned(), Json::String(self.name.clone())));
        members.push(("parameters".to_owned(), write_optional_map::<Parameter>(&self.parameters)));
        members.push(("schemaVersion".to_owned(), Json::String(self.schema_version.clone())));
        members.push(("version".to_owned(), Json::String(self.version.clone())));
        proof {
            lemma_object_model(members);
            assert(members.deep_view() =~= Self::encode(self.deep_view())->Object_0);
        }
        Json::Object(members)
    }

    proof fn lemma_decoded_is_valid(doc: JsonModel) {
        if let Some(JsonModel::Object(members)) = doc.member("actions"@) {
            lemma_decode_entries_valid::<Action>(members);
        }
        if let Some(JsonModel::Object(members)) = doc.member("credentials"@) {
            lemma_decode_entries_valid::<Credential>(members);
        }
        if let Some(JsonModel::Object(members)) = doc.member("custom"@) {
            lemma_decode_entries_valid::<Json>(members);
        }
        if let Some(JsonModel::Object(members)) = doc.member("images"@) {
            lemma_decode_entries_valid::<Image>(members);
        }
        if let Some(JsonModel::Array(items)) = doc.member("invocationImages"@) {
            lemma_decode_all_valid::<Image>(items);
        }
        if let Some(JsonModel::Array(items)) = doc.member("maintainers"@) {
            lemma_decode_all_valid::<Maintainer>(items);
        }
        if let Some(JsonModel::Object(members)) = doc.member("parameters"@) {
            lemma_decode_entries_valid::<Parameter>(members);
        }
    }

    proof fn lemma_round_trip(value: BundleModel) {
        Self::lemma_members_found(value);
        if let Some(entries) = value.actions {
            lemma_map_round_trip::<Action>(entries);
        }
        if let Some(entries) = value.credentials {
            lemma_map_round_trip::<Credential>(entries);
        }
        if let Some(entries) = value.custom {
            lemma_map_round_trip::<Json>(entries);
        }
        if let Some(entries) = value.images {
            lemma_map_round_trip::<Image>(entries);
        }
        lemma_list_round_trip::<Image>(value.invocation_images);
        if let Some(list) = value.keywords {
            lemma_texts_round_trip(list);
        }
        if let Some(list) = value.maintainers {
            lemma_list_round_trip::<Maintainer>(list);
        }
        if let Some(entries) = value.parameters {
            lemma_map_round_trip::<Parameter>(entries);
        }
    }
}

} // verus!
