//! Decoding a bundle from JSON text: strictly first, as JSON without
//! whitespace between its tokens, and permissively where the strict decode
//! fails for such whitespace.

use vstd::prelude::*;
use vstd::string::StringSliceAdditionalSpecFns;
use vstd::utf8::encode_utf8;
use crate::descriptor::{Bundle, BundleModel};
use crate::error::{BundleParseError, CanonicalError, CanonicalFault, Fault, JsonError, JsonFault};
use crate::json::{Json, JsonModel};
use crate::schema::Schema;
use crate::text::{find_whitespace, first_whitespace};
use crate::trusted::{json_document, json_of_value, parse_value, syntax_report};

verus! {

/// The outcome of a decode, with the bundle and the error by their values.
pub open spec fn verdict<E: View>(r: Result<Bundle, E>) -> Result<BundleModel, E::V> {
    match r {
        Ok(bundle) => Ok(bundle@),
        Err(e) => Err(e@),
    }
}

/// What the strict decode makes of bytes. Whitespace between tokens is
/// reported before anything else is looked at; without any, the bytes must
/// be JSON and the document must describe a bundle.
pub open spec fn canonical_outcome(bytes: Seq<u8>) -> Result<BundleModel, CanonicalFault> {
    match first_whitespace(bytes) {
        Some(at) => Err(CanonicalFault::Whitespace(at)),
        None => match json_document(bytes) {
            Err(report) => Err(CanonicalFault::Syntax(report)),
            Ok(doc) => match Bundle::decode(doc) {
                Ok(bundle) => Ok(bundle),
                Err(e) => Err(CanonicalFault::Schema(e)),
            },
        },
    }
}

/// What the permissive decode makes of bytes.
pub open spec fn lenient_outcome(bytes: Seq<u8>) -> Result<BundleModel, JsonFault> {
    match json_document(bytes) {
        Err(report) => Err(JsonFault::Syntax(report)),
        Ok(doc) => match Bundle::decode(doc) {
            Ok(bundle) => Ok(bundle),
            Err(e) => Err(JsonFault::Schema(e)),
        },
    }
}

/// The outcome of the whole decode from those of its two steps: the strict
/// one stands, unless it failed for whitespace; then the permissive one stands.
pub open spec fn settle(
    strict: Result<BundleModel, CanonicalFault>,
    lenient: Result<BundleModel, JsonFault>,
) -> Result<BundleModel, Fault> {
    match strict {
        Ok(bundle) => Ok(bundle),
        Err(CanonicalFault::Whitespace(_)) => match lenient {
            Ok(bundle) => Ok(bundle),
            Err(fault) => Err(Fault::Json(fault)),
        },
        Err(fault) => Err(Fault::Canonical(fault)),
    }
}

/// What the decode makes of bytes.
pub open spec fn outcome(bytes: Seq<u8>) -> Result<BundleModel, Fault> {
    settle(canonical_outcome(bytes), lenient_outcome(bytes))
}

impl Json {
    /// Reads a document from the bytes of any JSON text.
    ///
    /// The reader hands an object over with each key once and the keys in
    /// order: where a text writes one key twice, the document holds the
    /// later member and no trace of the earlier.
    pub fn from_slice(bytes: &[u8]) -> (r: Result<Json, serde_json::Error>)
        ensures
            match r {
                Ok(doc) => json_document(bytes@) == Ok::<JsonModel, Seq<char>>(doc@),
                Err(e) => json_document(bytes@) == Err::<JsonModel, Seq<char>>(syntax_report(e)),
            },
    {
        match parse_value(bytes) {
            Ok(value) => Ok(json_of_value(&value)),
            Err(e) => Err(e),
        }
    }
}

impl Bundle {
    /// Decodes a bundle from JSON that has no whitespace between its tokens,
    /// and from nothing else.
    ///
    /// Of the rules of canonical JSON this step holds the text to that one
    /// alone: keys may come in any order, and a number in any form that JSON
    /// allows.
    pub fn canonical_decode(bytes: &[u8]) -> (r: Result<Bundle, CanonicalError>)
        ensures
            verdict(r) == canonical_outcome(bytes@),
            r matches Ok(bundle) ==> bundle.wf(),
    {
        match find_whitespace(bytes) {
            Some(offset) => Err(CanonicalError::UnexpectedWhitespace { offset }),
            None => match Json::from_slice(bytes) {
                Err(e) => Err(CanonicalError::Syntax(e)),
                Ok(doc) => match Bundle::from_json(&doc) {
                    Ok(bundle) => Ok(bundle),
                    Err(e) => Err(CanonicalError::Schema(e)),
                },
            },
        }
    }

    /// Decodes a bundle from any JSON.
    pub fn lenient_decode(bytes: &[u8]) -> (r: Result<Bundle, JsonError>)
        ensures
            verdict(r) == lenient_outcome(bytes@),
            r matches Ok(bundle) ==> bundle.wf(),
    {
        match Json::from_slice(bytes) {
            Err(e) => Err(JsonError::Syntax(e)),
            Ok(doc) => match Bundle::from_json(&doc) {
                Ok(bundle) => Ok(bundle),
                Err(e) => Err(JsonError::Schema(e)),
            },
        }
    }

    /// Settles a decode whose strict step has been made: its outcome stands,
    /// unless it failed for whitespace between tokens; then the bytes are
    /// decoded permissively, once.
    pub fn resolve(bytes: &[u8], strict: Result<Bundle, CanonicalError>) -> (r: Result<
        Bundle,
        BundleParseError,
    >)
        ensures
            verdict(r) == settle(verdict(strict), lenient_outcome(bytes@)),
            strict matches Ok(bundle) ==> r == Ok::<Bundle, BundleParseError>(bundle),
            strict matches Err(e) ==> !(e@ is Whitespace) ==> r == Err::<Bundle, BundleParseError>(
                BundleParseError::CanonicalJSONError(e),
            ),
            (strict matches Ok(bundle) ==> bundle.wf()) ==> (r matches Ok(bundle) ==> bundle.wf()),
    {
        match strict {
            Ok(bundle) => Ok(bundle),
            Err(CanonicalError::UnexpectedWhitespace { .. }) => match Bundle::lenient_decode(bytes) {
                Ok(bundle) => Ok(bundle),
                Err(e) => Err(BundleParseError::from(e)),
            },
            Err(e) => Err(BundleParseError::from(e)),
        }
    }

    /// Decodes a bundle from the bytes of a JSON document, canonical or not.
    pub fn from_slice(bytes: &[u8]) -> (r: Result<Bundle, BundleParseError>)
        ensures
            verdict(r) == outcome(bytes@),
            r matches Ok(bundle) ==> bundle.wf(),
    {
        let strict = Bundle::canonical_decode(bytes);
        Bundle::resolve(bytes, strict)
    }

    /// Decodes a bundle from the text of a JSON document, canonical or not.
    pub fn from_str(json_data: &str) -> (r: Result<Bundle, BundleParseError>)
        ensures
            verdict(r) == outcome(encode_utf8(json_data@)),
            r matches Ok(bundle) ==> bundle.wf(),
    {
        Bundle::from_slice(json_data.as_bytes())
    }

    /// Decodes a bundle from what reading a file gave: its bytes, or the
    /// error of the read, which is handed on without any decode.
    pub fn from_file_contents(contents: Result<Vec<u8>, std::io::Error>) -> (r: Result<
        Bundle,
        BundleParseError,
    >)
        ensures
            match contents {
                Ok(bytes) => verdict(r) == outcome(bytes@),
                Err(e) => r == Err::<Bundle, BundleParseError>(BundleParseError::IoError(e)),
            },
            r matches Ok(bundle) ==> bundle.wf(),
    {
        match contents {
            Ok(bytes) => Bundle::from_slice(bytes.as_slice()),
            Err(e) => Err(BundleParseError::from(e)),
        }
    }
}

impl std::str::FromStr for Bundle {
    type Err = BundleParseError;

    /// Decodes a bundle from the text of a JSON document, canonical or not.
    fn from_str(json_data: &str) -> (r: Result<Bundle, BundleParseError>)
        ensures
            verdict(r) == outcome(encode_utf8(json_data@)),
            r matches Ok(bundle) ==> bundle.wf(),
    {
        Bundle::from_slice(json_data.as_bytes())
    }
}

} // verus!
