//! What holds of the decoder and of the documents of bundles, whatever the
//! input.

use vstd::prelude::*;
use crate::decoder::{canonical_outcome, lenient_outcome, outcome};
use crate::descriptor::{Action, Bundle, BundleModel, Image, ImageModel, Parameter};
use crate::error::{CanonicalFault, Fault, JsonFault, SchemaError};
use crate::json::JsonModel;
use crate::schema::{decode_all, Schema};
use crate::sorted_map::sorted_by_key;
use crate::text::first_whitespace;
use crate::trusted::json_document;

verus! {

/// One of the four required members of a bundle's document is missing.
pub open spec fn lacks_required_member(doc: JsonModel) -> bool {
    ||| doc.member("name"@) is None
    ||| doc.member("schemaVersion"@) is None
    ||| doc.member("version"@) is None
    ||| doc.member("invocationImages"@) is None
}

/// A document decodes to a bundle only if it is an object that holds the
/// four required members, and then the bundle holds what they say: nothing
/// is filled in for a required member that is missing.
pub proof fn law_required_members(doc: JsonModel)
    ensures
        lacks_required_member(doc) ==> Bundle::decode(doc) is Err,
        Bundle::decode(doc) matches Ok(bundle) ==> {
            &&& doc is Object
            &&& doc.member("name"@) == Some(JsonModel::String(bundle.name))
            &&& doc.member("schemaVersion"@) == Some(JsonModel::String(bundle.schema_version))
            &&& doc.member("version"@) == Some(JsonModel::String(bundle.version))
            &&& doc.member("invocationImages"@) matches Some(JsonModel::Array(items))
                && decode_all::<Image>(items) == Ok::<Seq<ImageModel>, SchemaError>(
                bundle.invocation_images,
            )
        },
{
}

/// Bytes that hold a JSON document without one of the required members are
/// never decoded to a bundle: the decode fails for the schema, in the step
/// that read the document.
pub proof fn law_missing_member_fails(bytes: Seq<u8>, doc: JsonModel)
    requires
        json_document(bytes) == Ok::<JsonModel, Seq<char>>(doc),
        lacks_required_member(doc),
    ensures
        outcome(bytes) matches Err(fault) && (fault matches Fault::Json(JsonFault::Schema(_))
            || fault matches Fault::Canonical(CanonicalFault::Schema(_))),
{
    law_required_members(doc);
}

/// A document without whitespace between its tokens that describes a bundle
/// is decoded by the strict step, to that bundle.
pub proof fn law_canonical_text_decodes_strictly(bytes: Seq<u8>, doc: JsonModel, bundle: BundleModel)
    requires
        first_whitespace(bytes) is None,
        json_document(bytes) == Ok::<JsonModel, Seq<char>>(doc),
        Bundle::decode(doc) == Ok::<BundleModel, SchemaError>(bundle),
    ensures
        canonical_outcome(bytes) == Ok::<BundleModel, CanonicalFault>(bundle),
        outcome(bytes) == Ok::<BundleModel, Fault>(bundle),
{
}

/// A document with whitespace between its tokens that describes a bundle
/// fails the strict step for that whitespace and is decoded by the permissive
/// step, to that bundle.
pub proof fn law_spaced_text_decodes_permissively(bytes: Seq<u8>, doc: JsonModel, bundle: BundleModel)
    requires
        first_whitespace(bytes) is Some,
        json_document(bytes) == Ok::<JsonModel, Seq<char>>(doc),
        Bundle::decode(doc) == Ok::<BundleModel, SchemaError>(bundle),
    ensures
        canonical_outcome(bytes) matches Err(CanonicalFault::Whitespace(_)),
        lenient_outcome(bytes) == Ok::<BundleModel, JsonFault>(bundle),
        outcome(bytes) == Ok::<BundleModel, Fault>(bundle),
{
}

/// Two texts of one document that describes a bundle decode to the same
/// bundle, however each of them is laid out.
pub proof fn law_layout_does_not_matter(one: Seq<u8>, other: Seq<u8>)
    requires
        json_document(one) is Ok,
        json_document(one) == json_document(other),
        Bundle::decode(json_document(one)->Ok_0) is Ok,
    ensures
        outcome(one) == outcome(other),
        outcome(one) is Ok,
{
}

/// No decode of bytes ends in an error of reading, and none in the
/// whitespace error of the strict step: that one is always answered by the
/// permissive step.
pub proof fn law_faults_of_a_decode(bytes: Seq<u8>)
    ensures
        outcome(bytes) matches Err(fault) ==> !(fault is Io) && !(fault matches Fault::Canonical(
            CanonicalFault::Whitespace(_),
        )),
        outcome(bytes) matches Err(Fault::Json(_)) ==> first_whitespace(bytes) is Some,
        outcome(bytes) matches Err(Fault::Canonical(_)) ==> first_whitespace(bytes) is None,
{
}

/// A parameter whose document does not say whether it is required is not
/// required.
pub proof fn law_required_defaults_to_false(doc: JsonModel)
    requires
        doc.member("required"@) is None,
    ensures
        Parameter::decode(doc) matches Ok(parameter) ==> !parameter.required,
{
}

/// An action whose document says nothing of `modifies` or of `stateless`
/// has `false` there.
pub proof fn law_action_flags_default_to_false(doc: JsonModel)
    ensures
        Action::decode(doc) matches Ok(action) ==> {
            &&& doc.member("modifies"@) is None ==> !action.modifies
            &&& doc.member("stateless"@) is None ==> !action.stateless
        },
{
}

/// Every optional field of the bundle is absent.
pub open spec fn only_required_fields(bundle: BundleModel) -> bool {
    &&& bundle.actions is None
    &&& bundle.credentials is None
    &&& bundle.custom is None
    &&& bundle.description is None
    &&& bundle.images is None
    &&& bundle.keywords is None
    &&& bundle.license is None
    &&& bundle.maintainers is None
    &&& bundle.parameters is None
}

/// A bundle without any optional field, written as a document and read
/// back, is the same bundle: every optional field is still absent.
pub proof fn law_absent_fields_stay_absent(bundle: BundleModel)
    requires
        only_required_fields(bundle),
    ensures
        Bundle::decode(Bundle::encode(bundle)) == Ok::<BundleModel, SchemaError>(bundle),
        Bundle::decode(Bundle::encode(bundle)) matches Ok(back) && only_required_fields(back),
{
    assert(Bundle::valid(bundle));
    Bundle::lemma_round_trip(bundle);
}

/// A bundle that a document decodes to, written as a document and read
/// back, is the same bundle.
pub proof fn law_decoded_bundle_round_trips(doc: JsonModel)
    ensures
        Bundle::decode(doc) matches Ok(bundle) ==> Bundle::decode(Bundle::encode(bundle)) == Ok::<
            BundleModel,
            SchemaError,
        >(bundle),
{
    Bundle::lemma_decoded_is_valid(doc);
    if let Ok(bundle) = Bundle::decode(doc) {
        Bundle::lemma_round_trip(bundle);
    }
}

/// A bundle that bytes decode to, written as a document and read back, is
/// the same bundle.
pub proof fn law_decoded_bytes_round_trip(bytes: Seq<u8>)
    ensures
        outcome(bytes) matches Ok(bundle) ==> Bundle::decode(Bundle::encode(bundle)) == Ok::<
            BundleModel,
            SchemaError,
        >(bundle),
{
    if let Ok(doc) = json_document(bytes) {
        law_decoded_bundle_round_trips(doc);
    }
}

/// Bytes that the reader takes for the document of a valid bundle decode to
/// that bundle, with whitespace between their tokens or without.
pub proof fn law_text_of_a_bundle_decodes(bytes: Seq<u8>, bundle: BundleModel)
    requires
        Bundle::valid(bundle),
        json_document(bytes) == Ok::<JsonModel, Seq<char>>(Bundle::encode(bundle)),
    ensures
        outcome(bytes) == Ok::<BundleModel, Fault>(bundle),
{
    Bundle::lemma_round_trip(bundle);
}

/// The document of a bundle holds its members in increasing order of their
/// keys, as canonical JSON has them.
pub proof fn law_members_come_in_order(bundle: BundleModel)
    ensures
        Bundle::encode(bundle) matches JsonModel::Object(members) && sorted_by_key(members),
{
    Bundle::lemma_members_in_order(bundle);
}

/// A bundle put together by hand, written as a document and read back, is
/// the same bundle, as long as its maps are sorted and no parameter has a
/// default value that is JSON null, which would be read back as absent.
pub proof fn law_built_bundle_round_trips(bundle: Bundle)
    requires
        bundle.wf(),
        bundle@.parameters matches Some(entries) ==> forall|i: int|
            0 <= i < entries.len() ==> (#[trigger] entries[i]).1.default_value != Some(
                JsonModel::Null,
            ),
    ensures
        Bundle::decode(Bundle::encode(bundle@)) == Ok::<BundleModel, SchemaError>(bundle@),
{
    assert(Bundle::valid(bundle@));
    Bundle::lemma_round_trip(bundle@);
}

} // verus!
