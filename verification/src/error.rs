//! The errors of a failed decode.

use vstd::prelude::*;
use vstd::std_specs::convert::FromSpecImpl;
use crate::trusted::{syntax_report, writer_report};

verus! {

/// Why a JSON document does not describe a bundle.
#[derive(Debug, Clone, Copy, PartialEq, Eq)]
pub enum SchemaError {
    /// A value that should describe an entity is not a JSON object.
    NotAnObject,
    /// A required key is absent.
    MissingField(&'static str),
    /// A key is present with a value of the wrong type.
    InvalidType(&'static str),
}

/// Why the permissive decode failed.
#[derive(Debug)]
pub enum JsonError {
    /// The input is not JSON.
    Syntax(serde_json::Error),
    /// The input is JSON, but not a bundle.
    Schema(SchemaError),
}

/// Why the canonical decode failed.
#[derive(Debug)]
pub enum CanonicalError {
    /// Whitespace stands between two tokens, first at this byte offset.
    UnexpectedWhitespace { offset: usize },
    /// The input is not JSON.
    Syntax(serde_json::Error),
    /// The input is JSON without such whitespace, but not a bundle.
    Schema(SchemaError),
}

/// An error parsing a bundle descriptor.
#[derive(Debug)]
pub enum BundleParseError {
    /// The permissive decode failed.
    SerdeJSONError(JsonError),
    /// The canonical decode failed, and not for whitespace.
    CanonicalJSONError(CanonicalError),
    /// The source could not be read.
    IoError(std::io::Error),
}

/// Why a document could not be written as canonical JSON.
#[derive(Debug)]
pub enum EncodeError {
    /// A number of the document is held by text that is not a JSON number.
    InvalidNumber,
    /// The canonical-form writer reported an error.
    Canonical(canonical_json::CanonicalJSONError),
}

/// The value of an [`EncodeError`]: the error of the canonical-form writer
/// stands in it by what it says.
pub ghost enum EncodeFault {
    InvalidNumber,
    Canonical(Seq<char>),
}

impl View for EncodeError {
    type V = EncodeFault;

    open spec fn view(&self) -> EncodeFault {
        match self {
            EncodeError::InvalidNumber => EncodeFault::InvalidNumber,
            EncodeError::Canonical(e) => EncodeFault::Canonical(writer_report(*e)),
        }
    }
}

/// The value of a [`JsonError`]: the error of the JSON reader stands in it
/// by what it says.
pub ghost enum JsonFault {
    Syntax(Seq<char>),
    Schema(SchemaError),
}

/// The value of a [`CanonicalError`]: the error of the JSON reader stands in
/// it by what it says.
pub ghost enum CanonicalFault {
    Whitespace(int),
    Syntax(Seq<char>),
    Schema(SchemaError),
}

/// The value of a [`BundleParseError`]. The error of a read stands in it as
/// it is.
pub ghost enum Fault {
    Json(JsonFault),
    Canonical(CanonicalFault),
    Io(std::io::Error),
}

impl View for JsonError {
    type V = JsonFault;

    open spec fn view(&self) -> JsonFault {
        match self {
            JsonError::Syntax(e) => JsonFault::Syntax(syntax_report(*e)),
            JsonError::Schema(e) => JsonFault::Schema(*e),
        }
    }
}

impl View for CanonicalError {
    type V = CanonicalFault;

    open spec fn view(&self) -> CanonicalFault {
        match self {
            CanonicalError::UnexpectedWhitespace { offset } => CanonicalFault::Whitespace(
                *offset as int,
            ),
            CanonicalError::Syntax(e) => CanonicalFault::Syntax(syntax_report(*e)),
            CanonicalError::Schema(e) => CanonicalFault::Schema(*e),
        }
    }
}

impl View for BundleParseError {
    type V = Fault;

    open spec fn view(&self) -> Fault {
        match self {
            BundleParseError::SerdeJSONError(e) => Fault::Json(e@),
            BundleParseError::CanonicalJSONError(e) => Fault::Canonical(e@),
            BundleParseError::IoError(e) => Fault::Io(*e),
        }
    }
}

impl From<std::io::Error> for BundleParseError {
    /// An error of reading is an I/O failure.
    fn from(error: std::io::Error) -> (r: BundleParseError)
        ensures
            r == BundleParseError::IoError(error),
    {
        BundleParseError::IoError(error)
    }
}

impl FromSpecImpl<std::io::Error> for BundleParseError {
    open spec fn obeys_from_spec() -> bool {
        true
    }

    open spec fn from_spec(error: std::io::Error) -> BundleParseError {
        BundleParseError::IoError(error)
    }
}

impl From<JsonError> for BundleParseError {
    /// An error of the permissive decode is a standard-JSON failure.
    fn from(error: JsonError) -> (r: BundleParseError)
        ensures
            r == BundleParseError::SerdeJSONError(error),
    {
        BundleParseError::SerdeJSONError(error)
    }
}

impl FromSpecImpl<JsonError> for BundleParseError {
    open spec fn obeys_from_spec() -> bool {
        true
    }

    open spec fn from_spec(error: JsonError) -> BundleParseError {
        BundleParseError::SerdeJSONError(error)
    }
}

impl From<CanonicalError> for BundleParseError {
    /// An error of the strict decode is a canonical-syntax failure.
    fn from(error: CanonicalError) -> (r: BundleParseError)
        ensures
            r == BundleParseError::CanonicalJSONError(error),
    {
        BundleParseError::CanonicalJSONError(error)
    }
}

impl FromSpecImpl<CanonicalError> for BundleParseError {
    open spec fn obeys_from_spec() -> bool {
        true
    }

    open spec fn from_spec(error: CanonicalError) -> BundleParseError {
        BundleParseError::CanonicalJSONError(error)
    }
}

} // verus!
