//! The platform of an image.

use vstd::prelude::*;
use vstd::utf8::is_ascii_chars;
use crate::error::SchemaError;
use crate::json::{lemma_object_model, Json, JsonModel};
use crate::reader::read_optional_text;
use crate::schema::{optional_text, text_or_null, Schema};
use crate::sorted_map::{lemma_find_in_sorted, lemma_sorted_by_steps, sorted_by_key};
use crate::text::lemma_key_lt_ascii;
use crate::writer::write_optional_text;

verus! {

/// A machine architecture together with an operating system.
#[derive(Debug, Clone, PartialEq)]
pub struct Platform {
    /// The architecture, for example `amd64`, `i386` or `arm64`.
    pub arch: Option<String>,
    /// The operating system, for example `darwin`, `windows` or `linux`.
    pub os: Option<String>,
}

/// The value of a [`Platform`]: its texts by their characters, its lists and maps
/// by their entries in order.
pub ghost struct PlatformModel {
    pub arch: Option<Seq<char>>,
    pub os: Option<Seq<char>>,
}

impl DeepView for Platform {
    type V = PlatformModel;

    open spec fn deep_view(&self) -> PlatformModel {
        PlatformModel {
            arch: self.arch.deep_view(),
            os: self.os.deep_view(),
        }
    }
}

impl View for Platform {
    type V = PlatformModel;

    open spec fn view(&self) -> PlatformModel {
        self.deep_view()
    }
}

impl Platform {
    /// The members of the document come in increasing order of their keys.
    pub proof fn lemma_members_in_order(value: PlatformModel)
        ensures
            sorted_by_key(Platform::encode(value)->Object_0),
    {
        reveal_strlit("arch");
        reveal_strlit("os");
        assert("arch"@.len() == 4 && "arch"@[0] == 'a' && "arch"@[1] == 'r' && "arch"@[2] == 'c'
            && "arch"@[3] == 'h');
        assert(is_ascii_chars("arch"@));
        assert("os"@.len() == 2 && "os"@[0] == 'o' && "os"@[1] == 's');
        assert(is_ascii_chars("os"@));
        lemma_key_lt_ascii("arch"@, "os"@, 0);
        let members = Platform::encode(value)->Object_0;
        assert(members[0].0 == "arch"@);
        assert(members[1].0 == "os"@);
        lemma_sorted_by_steps(members);
    }

    /// Each member of the document is found under its key.
    pub proof fn lemma_members_found(value: PlatformModel)
        ensures
            Platform::encode(value).member("arch"@) == Some(text_or_null(value.arch)),
            Platform::encode(value).member("os"@) == Some(text_or_null(value.os)),
    {
        Platform::lemma_members_in_order(value);
        let members = Platform::encode(value)->Object_0;
        assert(members[0] == ("arch"@, text_or_null(value.arch)));
        assert(members[1] == ("os"@, text_or_null(value.os)));
        lemma_find_in_sorted(members, 0);
        lemma_find_in_sorted(members, 1);
    }
}

impl Schema for Platform {
    open spec fn decode(doc: JsonModel) -> Result<PlatformModel, SchemaError> {
        let arch = optional_text(doc, "arch");
        let os = optional_text(doc, "os");
        if !(doc is Object) {
            Err(SchemaError::NotAnObject)
        } else if arch is Err {
            Err(arch->Err_0)
        } else if os is Err {
            Err(os->Err_0)
        } else {
            Ok(
                PlatformModel {
                    arch: arch->Ok_0,
                    os: os->Ok_0,
                },
            )
        }
    }

    open spec fn encode(value: PlatformModel) -> JsonModel {
        JsonModel::Object(
            seq![
                ("arch"@, text_or_null(value.arch)),
                ("os"@, text_or_null(value.os)),
            ],
        )
    }

    open spec fn valid(value: PlatformModel) -> bool {
        true
    }

    fn from_json(doc: &Json) -> (r: Result<Platform, SchemaError>) {
        if !doc.is_object() {
            return Err(SchemaError::NotAnObject);
        }
        let arch = read_optional_text(doc, "arch")?;
        let os = read_optional_text(doc, "os")?;
        Ok(Platform { arch, os })
    }

    fn to_json(&self) -> (doc: Json) {
        let mut members: Vec<(String, Json)> = Vec::new();
        members.push(("arch".to_owned(), write_optional_text(&self.arch)));
        members.push(("os".to_owned(), write_optional_text(&self.os)));
        proof {
            lemma_object_model(members);
            assert(members.deep_view() =~= Self::encode(self.deep_view())->Object_0);
        }
        Json::Object(members)
    }

    proof fn lemma_decoded_is_valid(doc: JsonModel) {
    }

    proof fn lemma_round_trip(value: PlatformModel) {
        Self::lemma_members_found(value);
    }
}

} // verus!
