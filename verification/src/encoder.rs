//! Writing a document, and with it a bundle, as canonical JSON: keys in
//! order, no whitespace between tokens, one form for each number.

use vstd::prelude::*;
use crate::descriptor::Bundle;
use crate::error::{EncodeError, EncodeFault};
use crate::json::{Json, JsonModel};
use crate::schema::Schema;
use crate::trusted::{canonical_form, canonical_text, rebuilt, value_of_json};

verus! {

/// The canonical text of a document: that which the canonical-form writer
/// gives for the value built from the document.
pub open spec fn canonical_encoding(doc: JsonModel) -> Result<Seq<char>, EncodeFault> {
    match rebuilt(doc) {
        None => Err(EncodeFault::InvalidNumber),
        Some(tree) => match canonical_form(tree) {
            Err(report) => Err(EncodeFault::Canonical(report)),
            Ok(text) => Ok(text),
        },
    }
}

impl Json {
    /// Writes the document as canonical JSON.
    pub fn to_canonical_string(&self) -> (r: Result<String, EncodeError>)
        ensures
            match r {
                Ok(text) => canonical_encoding(self@) == Ok::<Seq<char>, EncodeFault>(text@),
                Err(e) => canonical_encoding(self@) == Err::<Seq<char>, EncodeFault>(e@),
            },
    {
        match value_of_json(self) {
            None => Err(EncodeError::InvalidNumber),
            Some(value) => match canonical_text(&value) {
                Ok(text) => Ok(text),
                Err(e) => Err(EncodeError::Canonical(e)),
            },
        }
    }
}

impl Bundle {
    /// Writes the bundle as canonical JSON. A field that is absent is
    /// written as null.
    pub fn to_canonical_string(&self) -> (r: Result<String, EncodeError>)
        ensures
            match r {
                Ok(text) => canonical_encoding(Bundle::encode(self@)) == Ok::<Seq<char>, EncodeFault>(
                    text@,
                ),
                Err(e) => canonical_encoding(Bundle::encode(self@)) == Err::<Seq<char>, EncodeFault>(
                    e@,
                ),
            },
    {
        self.to_json().to_canonical_string()
    }
}

} // verus!
