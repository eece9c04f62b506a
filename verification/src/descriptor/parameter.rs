//! The parameters of a bundle.

use vstd::prelude::*;
use vstd::utf8::is_ascii_chars;
use crate::descriptor::destination::{Destination, DestinationModel};
use crate::descriptor::metadata::{Metadata, MetadataModel};
use crate::error::SchemaError;
use crate::json::{lemma_object_model, Json, JsonModel};
use crate::reader::{
    read_flag, read_optional, read_optional_integer, read_optional_list, read_optional_text,
    read_optional_texts, read_required, read_required_text,
};
use crate::schema::{
    all_valid, entity_or_null, flag, integer_or_null, lemma_decode_all_valid, lemma_list_round_trip,
    lemma_texts_round_trip, list_or_null, optional, optional_integer, optional_list, optional_text,
    optional_texts, required, required_text, text_or_null, texts_or_null, Schema,
};
use crate::sorted_map::{lemma_find_in_sorted, lemma_sorted_by_steps, sorted_by_key};
use crate::text::lemma_key_lt_ascii;
use crate::writer::{
    write_optional, write_optional_integer, write_optional_list, write_optional_text,
    write_optional_texts,
};

verus! {

/// A parameter whose value is placed in the invocation image when it starts.
///
/// The bounds, lengths, pattern and allowed values are carried as declared;
/// holding a given value to them is left to whoever installs the bundle.
#[derive(Debug, Clone, PartialEq)]
pub struct Parameter {
    /// The values that are allowed.
    pub allowed_values: Option<Vec<Json>>,
    /// The actions that take this parameter; every action where this is absent.
    pub apply_to: Option<Vec<String>>,
    /// The value that is used where none is given.
    pub default_value: Option<Json>,
    /// Where the value is placed in the invocation image.
    pub destination: Destination,
    /// The bound that an integer value must stay below.
    pub exclusive_maximum: Option<i64>,
    /// The bound that an integer value must stay above.
    pub exclusive_minimum: Option<i64>,
    /// The greatest length of a text value.
    pub max_length: Option<i64>,
    /// The greatest integer value.
    pub maximum: Option<i64>,
    /// What else is said about the parameter.
    pub metadata: Option<Metadata>,
    /// The least length of a text value.
    pub min_length: Option<i64>,
    /// The least integer value.
    pub minimum: Option<i64>,
    /// A regular expression, in the ECMAScript dialect, that a text value must match.
    pub pattern: Option<String>,
    /// Whether a value must be given. `false` where the document does not say.
    pub required: bool,
    /// The type of the value, such as `string` or `int`, as free text.
    pub parameter_type: String,
}

/// The value of a [`Parameter`]: its texts by their characters, its lists and maps
/// by their entries in order.
pub ghost struct ParameterModel {
    pub allowed_values: Option<Seq<JsonModel>>,
    pub apply_to: Option<Seq<Seq<char>>>,
    pub default_value: Option<JsonModel>,
    pub destination: DestinationModel,
    pub exclusive_maximum: Option<i64>,
    pub exclusive_minimum: Option<i64>,
    pub max_length: Option<i64>,
    pub maximum: Option<i64>,
    pub metadata: Option<MetadataModel>,
    pub min_length: Option<i64>,
    pub minimum: Option<i64>,
    pub pattern: Option<Seq<char>>,
    pub required: bool,
    pub parameter_type: Seq<char>,
}

impl DeepView for Parameter {
    type V = ParameterModel;

    open spec fn deep_view(&self) -> ParameterModel {
        ParameterModel {
            allowed_values: self.allowed_values.deep_view(),
            apply_to: self.apply_to.deep_view(),
            default_value: self.default_value.deep_view(),
            destination: self.destination.deep_view(),
            exclusive_maximum: self.exclusive_maximum,
            exclusive_minimum: self.exclusive_minimum,
            max_length: self.max_length,
            maximum: self.maximum,
            metadata: self.metadata.deep_view(),
            min_length: self.min_length,
            minimum: self.minimum,
            pattern: self.pattern.deep_view(),
            required: self.required,
            parameter_type: self.parameter_type.deep_view(),
        }
    }
}

impl View for Parameter {
    type V = ParameterModel;

    open spec fn view(&self) -> ParameterModel {
        self.deep_view()
    }
}

impl Parameter {
    /// The members of the document come in increasing order of their keys.
    pub proof fn lemma_members_in_order(value: ParameterModel)
        ensures
            sorted_by_key(Parameter::encode(value)->Object_0),
    {
        reveal_strlit("allowedValues");
        reveal_strlit("applyTo");
        reveal_strlit("defaultValue");
        reveal_strlit("destination");
        reveal_strlit("exclusiveMaximum");
        reveal_strlit("exclusiveMinimum");
        reveal_strlit("maxLength");
        reveal_strlit("maximum");
        reveal_strlit("metadata");
        reveal_strlit("minLength");
        reveal_strlit("minimum");
        reveal_strlit("pattern");
        reveal_strlit("required");
        reveal_strlit("type");
        assert("allowedValues"@.len() == 13 && "allowedValues"@[0] == 'a'
            && "allowedValues"@[1] == 'l' && "allowedValues"@[2] == 'l'
            && "allowedValues"@[3] == 'o' && "allowedValues"@[4] == 'w'
            && "allowedValues"@[5] == 'e' && "allowedValues"@[6] == 'd'
            && "allowedValues"@[7] == 'V' && "allowedValues"@[8] == 'a'
            && "allowedValues"@[9] == 'l' && "allowedValues"@[10] == 'u'
            && "allowedValues"@[11] == 'e' && "allowedValues"@[12] == 's');
        assert(is_ascii_chars("allowedValues"@));
        assert("applyTo"@.len() == 7 && "applyTo"@[0] == 'a' && "applyTo"@[1] == 'p'
            && "applyTo"@[2] == 'p' && "applyTo"@[3] == 'l' && "applyTo"@[4] == 'y'
            && "applyTo"@[5] == 'T' && "applyTo"@[6] == 'o');
        assert(is_ascii_chars("applyTo"@));
        assert("defaultValue"@.len() == 12 && "defaultValue"@[0] == 'd'
            && "defaultValue"@[1] == 'e' && "defaultValue"@[2] == 'f'
            && "defaultValue"@[3] == 'a' && "defaultValue"@[4] == 'u'
            && "defaultValue"@[5] == 'l' && "defaultValue"@[6] == 't'
            && "defaultValue"@[7] == 'V' && "defaultValue"@[8] == 'a'
            && "defaultValue"@[9] == 'l' && "defaultValue"@[10] == 'u'
            && "defaultValue"@[11] == 'e');
        assert(is_ascii_chars("defaultValue"@));
        assert("destination"@.len() == 11 && "destination"@[0] == 'd'
            && "destination"@[1] == 'e' && "destination"@[2] == 's' && "destination"@[3] == 't'
            && "destination"@[4] == 'i' && "destination"@[5] == 'n' && "destination"@[6] == 'a'
            && "destination"@[7] == 't' && "destination"@[8] == 'i' && "destination"@[9] == 'o'
            && "destination"@[10] == 'n');
        assert(is_ascii_chars("destination"@));
        assert("exclusiveMaximum"@.len() == 16 && "exclusiveMaximum"@[0] == 'e'
            && "exclusiveMaximum"@[1] == 'x' && "exclusiveMaximum"@[2] == 'c'
            && "exclusiveMaximum"@[3] == 'l' && "exclusiveMaximum"@[4] == 'u'
            && "exclusiveMaximum"@[5] == 's' && "exclusiveMaximum"@[6] == 'i'
            && "exclusiveMaximum"@[7] == 'v' && "exclusiveMaximum"@[8] == 'e'
            && "exclusiveMaximum"@[9] == 'M' && "exclusiveMaximum"@[10] == 'a'
            && "exclusiveMaximum"@[11] == 'x' && "exclusiveMaximum"@[12] == 'i'
            && "exclusiveMaximum"@[13] == 'm' && "exclusiveMaximum"@[14] == 'u'
            && "exclusiveMaximum"@[15] == 'm');
        assert(is_ascii_chars("exclusiveMaximum"@));
        assert("exclusiveMinimum"@.len() == 16 && "exclusiveMinimum"@[0] == 'e'
            && "exclusiveMinimum"@[1] == 'x' && "exclusiveMinimum"@[2] == 'c'
            && "exclusiveMinimum"@[3] == 'l' && "exclusiveMinimum"@[4] == 'u'
            && "exclusiveMinimum"@[5] == 's' && "exclusiveMinimum"@[6] == 'i'
            && "exclusiveMinimum"@[7] == 'v' && "exclusiveMinimum"@[8] == 'e'
            && "exclusiveMinimum"@[9] == 'M' && "exclusiveMinimum"@[10] == 'i'
            && "exclusiveMinimum"@[11] == 'n' && "exclusiveMinimum"@[12] == 'i'
            && "exclusiveMinimum"@[13] == 'm' && "exclusiveMinimum"@[14] == 'u'
            && "exclusiveMinimum"@[15] == 'm');
        assert(is_ascii_chars("exclusiveMinimum"@));
        assert("maxLength"@.len() == 9 && "maxLength"@[0] == 'm' && "maxLength"@[1] == 'a'
            && "maxLength"@[2] == 'x' && "maxLength"@[3] == 'L' && "maxLength"@[4] == 'e'
            && "maxLength"@[5] == 'n' && "maxLength"@[6] == 'g' && "maxLength"@[7] == 't'
            && "maxLength"@[8] == 'h');
        assert(is_ascii_chars("maxLength"@));
        assert("maximum"@.len() == 7 && "maximum"@[0] == 'm' && "maximum"@[1] == 'a'
            && "maximum"@[2] == 'x' && "maximum"@[3] == 'i' && "maximum"@[4] == 'm'
            && "maximum"@[5] == 'u' && "maximum"@[6] == 'm');
        assert(is_ascii_chars("maximum"@));
        assert("metadata"@.len() == 8 && "metadata"@[0] == 'm' && "metadata"@[1] == 'e'
            && "metadata"@[2] == 't' && "metadata"@[3] == 'a' && "metadata"@[4] == 'd'
            && "metadata"@[5] == 'a' && "metadata"@[6] == 't' && "metadata"@[7] == 'a');
        assert(is_ascii_chars("metadata"@));
        assert("minLength"@.len() == 9 && "minLength"@[0] == 'm' && "minLength"@[1] == 'i'
            && "minLength"@[2] == 'n' && "minLength"@[3] == 'L' && "minLength"@[4] == 'e'
            && "minLength"@[5] == 'n' && "minLength"@[6] == 'g' && "minLength"@[7] == 't'
            && "minLength"@[8] == 'h');
        assert(is_ascii_chars("minLength"@));
        assert("minimum"@.len() == 7 && "minimum"@[0] == 'm' && "minimum"@[1] == 'i'
            && "minimum"@[2] == 'n' && "minimum"@[3] == 'i' && "minimum"@[4] == 'm'
            && "minimum"@[5] == 'u' && "minimum"@[6] == 'm');
        assert(is_ascii_chars("minimum"@));
        assert("pattern"@.len() == 7 && "pattern"@[0] == 'p' && "pattern"@[1] == 'a'
            && "pattern"@[2] == 't' && "pattern"@[3] == 't' && "pattern"@[4] == 'e'
            && "pattern"@[5] == 'r' && "pattern"@[6] == 'n');
        assert(is_ascii_chars("pattern"@));
        assert("required"@.len() == 8 && "required"@[0] == 'r' && "required"@[1] == 'e'
            && "required"@[2] == 'q' && "required"@[3] == 'u' && "required"@[4] == 'i'
            && "required"@[5] == 'r' && "required"@[6] == 'e' && "required"@[7] == 'd');
        assert(is_ascii_chars("required"@));
        assert("type"@.len() == 4 && "type"@[0] == 't' && "type"@[1] == 'y' && "type"@[2] == 'p'
            && "type"@[3] == 'e');
        assert(is_ascii_chars("type"@));
        lemma_key_lt_ascii("allowedValues"@, "applyTo"@, 1);
        lemma_key_lt_ascii("applyTo"@, "defaultValue"@, 0);
        lemma_key_lt_ascii("defaultValue"@, "destination"@, 2);
        lemma_key_lt_ascii("destination"@, "exclusiveMaximum"@, 0);
        lemma_key_lt_ascii("exclusiveMaximum"@, "exclusiveMinimum"@, 10);
        lemma_key_lt_ascii("exclusiveMinimum"@, "maxLength"@, 0);
        lemma_key_lt_ascii("maxLength"@, "maximum"@, 3);
        lemma_key_lt_ascii("maximum"@, "metadata"@, 1);
        lemma_key_lt_ascii("metadata"@, "minLength"@, 1);
        lemma_key_lt_ascii("minLength"@, "minimum"@, 3);
        lemma_key_lt_ascii("minimum"@, "pattern"@, 0);
        lemma_key_lt_ascii("pattern"@, "required"@, 0);
        lemma_key_lt_ascii("required"@, "type"@, 0);
        let members = Parameter::encode(value)->Object_0;
        assert(members[0].0 == "allowedValues"@);
        assert(members[1].0 == "applyTo"@);
        assert(members[2].0 == "defaultValue"@);
        assert(members[3].0 == "destination"@);
        assert(members[4].0 == "exclusiveMaximum"@);
        assert(members[5].0 == "exclusiveMinimum"@);
        assert(members[6].0 == "maxLength"@);
        assert(members[7].0 == "maximum"@);
        assert(members[8].0 == "metadata"@);
        assert(members[9].0 == "minLength"@);
        assert(members[10].0 == "minimum"@);
        assert(members[11].0 == "pattern"@);
        assert(members[12].0 == "required"@);
        assert(members[13].0 == "type"@);
        lemma_sorted_by_steps(members);
    }

    /// Each member of the document is found under its key.
    pub proof fn lemma_members_found(value: ParameterModel)
        ensures
            Parameter::encode(value).member("allowedValues"@) == Some(list_or_null::<Json>(value.allowed_values)),
            Parameter::encode(value).member("applyTo"@) == Some(texts_or_null(value.apply_to)),
            Parameter::encode(value).member("defaultValue"@) == Some(entity_or_null::<Json>(value.default_value)),
            Parameter::encode(value).member("destination"@) == Some(Destination::encode(value.destination)),
            Parameter::encode(value).member("exclusiveMaximum"@) == Some(integer_or_null(value.exclusive_maximum)),
            Parameter::encode(value).member("exclusiveMinimum"@) == Some(integer_or_null(value.exclusive_minimum)),
            Parameter::encode(value).member("maxLength"@) == Some(integer_or_null(value.max_length)),
            Parameter::encode(value).member("maximum"@) == Some(integer_or_null(value.maximum)),
            Parameter::encode(value).member("metadata"@) == Some(entity_or_null::<Metadata>(value.metadata)),
            Parameter::encode(value).member("minLength"@) == Some(integer_or_null(value.min_length)),
            Parameter::encode(value).member("minimum"@) == Some(integer_or_null(value.minimum)),
            Parameter::encode(value).member("pattern"@) == Some(text_or_null(value.pattern)),
            Parameter::encode(value).member("required"@) == Some(JsonModel::Bool(value.required)),
            Parameter::encode(value).member("type"@) == Some(JsonModel::String(value.parameter_type)),
    {
        Parameter::lemma_members_in_order(value);
        let members = Parameter::encode(value)->Object_0;
        assert(members[0] == ("allowedValues"@, list_or_null::<Json>(value.allowed_values)));
        assert(members[1] == ("applyTo"@, texts_or_null(value.apply_to)));
        assert(members[2] == ("defaultValue"@, entity_or_null::<Json>(value.default_value)));
        assert(members[3] == ("destination"@, Destination::encode(value.destination)));
        assert(members[4] == ("exclusiveMaximum"@, integer_or_null(value.exclusive_maximum)));
        assert(members[5] == ("exclusiveMinimum"@, integer_or_null(value.exclusive_minimum)));
        assert(members[6] == ("maxLength"@, integer_or_null(value.max_length)));
        assert(members[7] == ("maximum"@, integer_or_null(value.maximum)));
        assert(members[8] == ("metadata"@, entity_or_null::<Metadata>(value.metadata)));
        assert(members[9] == ("minLength"@, integer_or_null(value.min_length)));
        assert(members[10] == ("minimum"@, integer_or_null(value.minimum)));
        assert(members[11] == ("pattern"@, text_or_null(value.pattern)));
        assert(members[12] == ("required"@, JsonModel::Bool(value.required)));
        assert(members[13] == ("type"@, JsonModel::String(value.parameter_type)));
        lemma_find_in_sorted(members, 0);
        lemma_find_in_sorted(members, 1);
        lemma_find_in_sorted(members, 2);
        lemma_find_in_sorted(members, 3);
        lemma_find_in_sorted(members, 4);
        lemma_find_in_sorted(members, 5);
        lemma_find_in_sorted(members, 6);
        lemma_find_in_sorted(members, 7);
        lemma_find_in_sorted(members, 8);
        lemma_find_in_sorted(members, 9);
        lemma_find_in_sorted(members, 10);
        lemma_find_in_sorted(members, 11);
        lemma_find_in_sorted(members, 12);
        lemma_find_in_sorted(members, 13);
    }
}

impl Schema for Parameter {
    open spec fn decode(doc: JsonModel) -> Result<ParameterModel, SchemaError> {
        let allowed_values = optional_list::<Json>(doc, "allowedValues");
        let apply_to = optional_texts(doc, "applyTo");
        let default_value = optional::<Json>(doc, "defaultValue");
        let destination = required::<Destination>(doc, "destination");
        let exclusive_maximum = optional_integer(doc, "exclusiveMaximum");
        let exclusive_minimum = optional_integer(doc, "exclusiveMinimum");
        let max_length = optional_integer(doc, "maxLength");
        let maximum = optional_integer(doc, "maximum");
        let metadata = optional::<Metadata>(doc, "metadata");
        let min_length = optional_integer(doc, "minLength");
        let minimum = optional_integer(doc, "minimum");
        let pattern = optional_text(doc, "pattern");
        let required = flag(doc, "required");
        let parameter_type = required_text(doc, "type");
        if !(doc is Object) {
            Err(SchemaError::NotAnObject)
        } else if allowed_values is Err {
            Err(allowed_values->Err_0)
        } else if apply_to is Err {
            Err(apply_to->Err_0)
        } else if default_value is Err {
            Err(default_value->Err_0)
        } else if destination is Err {
            Err(destination->Err_0)
        } else if exclusive_maximum is Err {
            Err(exclusive_maximum->Err_0)
        } else if exclusive_minimum is Err {
            Err(exclusive_minimum->Err_0)
        } else if max_length is Err {
            Err(max_length->Err_0)
        } else if maximum is Err {
            Err(maximum->Err_0)
        } else if metadata is Err {
            Err(metadata->Err_0)
        } else if min_length is Err {
            Err(min_length->Err_0)
        } else if minimum is Err {
            Err(minimum->Err_0)
        } else if pattern is Err {
            Err(pattern->Err_0)
        } else if required is Err {
            Err(required->Err_0)
        } else if parameter_type is Err {
            Err(parameter_type->Err_0)
        } else {
            Ok(
                ParameterModel {
                    allowed_values: allowed_values->Ok_0,
                    apply_to: apply_to->Ok_0,
                    default_value: default_value->Ok_0,
                    destination: destination->Ok_0,
                    exclusive_maximum: exclusive_maximum->Ok_0,
                    exclusive_minimum: exclusive_minimum->Ok_0,
                    max_length: max_length->Ok_0,
                    maximum: maximum->Ok_0,
                    metadata: metadata->Ok_0,
                    min_length: min_length->Ok_0,
                    minimum: minimum->Ok_0,
                    pattern: pattern->Ok_0,
                    required: required->Ok_0,
                    parameter_type: parameter_type->Ok_0,
                },
            )
        }
    }

    open spec fn encode(value: ParameterModel) -> JsonModel {
        JsonModel::Object(
            seq![
                ("allowedValues"@, list_or_null::<Json>(value.allowed_values)),
                ("applyTo"@, texts_or_null(value.apply_to)),
                ("defaultValue"@, entity_or_null::<Json>(value.default_value)),
                ("destination"@, Destination::encode(value.destination)),
                ("exclusiveMaximum"@, integer_or_null(value.exclusive_maximum)),
                ("exclusiveMinimum"@, integer_or_null(value.exclusive_minimum)),
                ("maxLength"@, integer_or_null(value.max_length)),
                ("maximum"@, integer_or_null(value.maximum)),
                ("metadata"@, entity_or_null::<Metadata>(value.metadata)),
                ("minLength"@, integer_or_null(value.min_length)),
                ("minimum"@, integer_or_null(value.minimum)),
                ("pattern"@, text_or_null(value.pattern)),
                ("required"@, JsonModel::Bool(value.required)),
                ("type"@, JsonModel::String(value.parameter_type)),
            ],
        )
    }

    open spec fn valid(value: ParameterModel) -> bool {
        &&& (value.allowed_values matches Some(list) ==> all_valid::<Json>(list))
        &&& value.default_value != Some(JsonModel::Null)
        &&& Destination::valid(value.destination)
        &&& (value.metadata matches Some(entity) ==> Metadata::valid(entity))
    }

    fn from_json(doc: &Json) -> (r: Result<Parameter, SchemaError>) {
        if !doc.is_object() {
            return Err(SchemaError::NotAnObject);
        }
        let allowed_values = read_optional_list::<Json>(doc, "allowedValues")?;
        let apply_to = read_optional_texts(doc, "applyTo")?;
        let default_value = read_optional::<Json>(doc, "defaultValue")?;
        let destination = read_required::<Destination>(doc, "destination")?;
        let exclusive_maximum = read_optional_integer(doc, "exclusiveMaximum")?;
        let exclusive_minimum = read_optional_integer(doc, "exclusiveMinimum")?;
        let max_length = read_optional_integer(doc, "maxLength")?;
        let maximum = read_optional_integer(doc, "maximum")?;
        let metadata = read_optional::<Metadata>(doc, "metadata")?;
        let min_length = read_optional_integer(doc, "minLength")?;
        let minimum = read_optional_integer(doc, "minimum")?;
        let pattern = read_optional_text(doc, "pattern")?;
        let required = read_flag(doc, "required")?;
        let parameter_type = read_required_text(doc, "type")?;
        Ok(
            Parameter {
                allowed_values,
                apply_to,
                default_value,
                destination,
                exclusive_maximum,
                exclusive_minimum,
                max_length,
                maximum,
                metadata,
                min_length,
                minimum,
                pattern,
                required,
                parameter_type,
            },
        )
    }

    fn to_json(&self) -> (doc: Json) {
        let mut members: Vec<(String, Json)> = Vec::new();
        members.push(("allowedValues".to_owned(), write_optional_list::<Json>(&self.allowed_values)));
        members.push(("applyTo".to_owned(), write_optional_texts(&self.apply_to)));
        members.push(("defaultValue".to_owned(), write_optional::<Json>(&self.default_value)));
        members.push(("destination".to_owned(), self.destination.to_json()));
        members.push(("exclusiveMaximum".to_owned(), write_optional_integer(&self.exclusive_maximum)));
        members.push(("exclusiveMinimum".to_owned(), write_optional_integer(&self.exclusive_minimum)));
        members.push(("maxLength".to_owned(), write_optional_integer(&self.max_length)));
        members.push(("maximum".to_owned(), write_optional_integer(&self.maximum)));
        members.push(("metadata".to_owned(), write_optional::<Metadata>(&self.metadata)));
        members.push(("minLength".to_owned(), write_optional_integer(&self.min_length)));
        members.push(("minimum".to_owned(), write_optional_integer(&self.minimum)));
        members.push(("pattern".to_owned(), write_optional_text(&self.pattern)));
        members.push(("required".to_owned(), Json::Bool(self.required)));
        members.push(("type".to_owned(), Json::String(self.parameter_type.clone())));
        proof {
            lemma_object_model(members);
            assert(members.deep_view() =~= Self::encode(self.deep_view())->Object_0);
        }
        Json::Object(members)
    }

    proof fn lemma_decoded_is_valid(doc: JsonModel) {
        if let Some(JsonModel::Array(items)) = doc.member("allowedValues"@) {
            lemma_decode_all_valid::<Json>(items);
        }
        if let Some(value) = doc.member("destination"@) {
            Destination::lemma_decoded_is_valid(value);
        }
        if let Some(value) = doc.member("metadata"@) {
            Metadata::lemma_decoded_is_valid(value);
        }
    }

    proof fn lemma_round_trip(value: ParameterModel) {
        Self::lemma_members_found(value);
        if let Some(list) = value.allowed_values {
            lemma_list_round_trip::<Json>(list);
        }
        if let Some(list) = value.apply_to {
            lemma_texts_round_trip(list);
        }
        Destination::lemma_round_trip(value.destination);
        if let Some(entity) = value.metadata {
            Metadata::lemma_round_trip(entity);
        }
    }
}

} // verus!
