//! The images of a bundle.

use vstd::prelude::*;
use vstd::utf8::is_ascii_chars;
use crate::descriptor::platform::{Platform, PlatformModel};
use crate::error::SchemaError;
use crate::json::{lemma_object_model, Json, JsonModel};
use crate::reader::{read_optional, read_optional_integer, read_optional_text, read_required_text};
use crate::schema::{
    entity_or_null, integer_or_null, optional, optional_integer, optional_text, required_text,
    text_or_null, Schema,
};
use crate::sorted_map::{lemma_find_in_sorted, lemma_sorted_by_steps, sorted_by_key};
use crate::text::lemma_key_lt_ascii;
use crate::writer::{write_optional, write_optional_integer, write_optional_text};

verus! {

/// A container image: an invocation image or one of the images that make up
/// the application.
#[derive(Debug, Clone, PartialEq)]
pub struct Image {
    /// A digest by which the content of the image is checked.
    pub digest: Option<String>,
    /// The reference of the image, of the form `REPO/NAME:TAG@SHA`.
    pub image: String,
    /// The kind of image; an OCI image where nothing is said.
    pub image_type: Option<String>,
    /// The media type of the image.
    pub media_type: Option<String>,
    /// The platform on which the image runs.
    pub platform: Option<Platform>,
    /// The size of the image in bytes.
    pub size: Option<i64>,
}

/// The value of a [`Image`]: its texts by their characters, its lists and maps
/// by their entries in order.
pub ghost struct ImageModel {
    pub digest: Option<Seq<char>>,
    pub image: Seq<char>,
    pub image_type: Option<Seq<char>>,
    pub media_type: Option<Seq<char>>,
    pub platform: Option<PlatformModel>,
    pub size: Option<i64>,
}

impl DeepView for Image {
    type V = ImageModel;

    open spec fn deep_view(&self) -> ImageModel {
        ImageModel {
            digest: self.digest.deep_view(),
            image: self.image.deep_view(),
            image_type: self.image_type.deep_view(),
            media_type: self.media_type.deep_view(),
            platform: self.platform.deep_view(),
            size: self.size,
        }
    }
}

impl View for Image {
    type V = ImageModel;

    open spec fn view(&self) -> ImageModel {
        self.deep_view()
    }
}

impl Image {
    /// The members of the document come in increasing order of their keys.
    pub proof fn lemma_members_in_order(value: ImageModel)
        ensures
            sorted_by_key(Image::encode(value)->Object_0),
    {
        reveal_strlit("digest");
        reveal_strlit("image");
        reveal_strlit("imageType");
        reveal_strlit("mediaType");
        reveal_strlit("platform");
        reveal_strlit("size");
        assert("digest"@.len() == 6 && "digest"@[0] == 'd' && "digest"@[1] == 'i'
            && "digest"@[2] == 'g' && "digest"@[3] == 'e' && "digest"@[4] == 's'
            && "digest"@[5] == 't');
        assert(is_ascii_chars("digest"@));
        assert("image"@.len() == 5 && "image"@[0] == 'i' && "image"@[1] == 'm'
            && "image"@[2] == 'a' && "image"@[3] == 'g' && "image"@[4] == 'e');
        assert(is_ascii_chars("image"@));
        assert("imageType"@.len() == 9 && "imageType"@[0] == 'i' && "imageType"@[1] == 'm'
            && "imageType"@[2] == 'a' && "imageType"@[3] == 'g' && "imageType"@[4] == 'e'
            && "imageType"@[5] == 'T' && "imageType"@[6] == 'y' && "imageType"@[7] == 'p'
            && "imageType"@[8] == 'e');
        assert(is_ascii_chars("imageType"@));
        assert("mediaType"@.len() == 9 && "mediaType"@[0] == 'm' && "mediaType"@[1] == 'e'
            && "mediaType"@[2] == 'd' && "mediaType"@[3] == 'i' && "mediaType"@[4] == 'a'
            && "mediaType"@[5] == 'T' && "mediaType"@[6] == 'y' && "mediaType"@[7] == 'p'
            && "mediaType"@[8] == 'e');
        assert(is_ascii_chars("mediaType"@));
        assert("platform"@.len() == 8 && "platform"@[0] == 'p' && "platform"@[1] == 'l'
            && "platform"@[2] == 'a' && "platform"@[3] == 't' && "platform"@[4] == 'f'
            && "platform"@[5] == 'o' && "platform"@[6] == 'r' && "platform"@[7] == 'm');
        assert(is_ascii_chars("platform"@));
        assert("size"@.len() == 4 && "size"@[0] == 's' && "size"@[1] == 'i' && "size"@[2] == 'z'
            && "size"@[3] == 'e');
        assert(is_ascii_chars("size"@));
        lemma_key_lt_ascii("digest"@, "image"@, 0);
        lemma_key_lt_ascii("image"@, "imageType"@, 5);
        lemma_key_lt_ascii("imageType"@, "mediaType"@, 0);
        lemma_key_lt_ascii("mediaType"@, "platform"@, 0);
        lemma_key_lt_ascii("platform"@, "size"@, 0);
        let members = Image::encode(value)->Object_0;
        assert(members[0].0 == "digest"@);
        assert(members[1].0 == "image"@);
        assert(members[2].0 == "imageType"@);
        assert(members[3].0 == "mediaType"@);
        assert(members[4].0 == "platform"@);
        assert(members[5].0 == "size"@);
        lemma_sorted_by_steps(members);
    }

    /// Each member of the document is found under its key.
    pub proof fn lemma_members_found(value: ImageModel)
        ensures
            Image::encode(value).member("digest"@) == Some(text_or_null(value.digest)),
            Image::encode(value).member("image"@) == Some(JsonModel::String(value.image)),
            Image::encode(value).member("imageType"@) == Some(text_or_null(value.image_type)),
            Image::encode(value).member("mediaType"@) == Some(text_or_null(value.media_type)),
            Image::encode(value).member("platform"@) == Some(entity_or_null::<Platform>(value.platform)),
            Image::encode(value).member("size"@) == Some(integer_or_null(value.size)),
    {
        Image::lemma_members_in_order(value);
        let members = Image::encode(value)->Object_0;
        assert(members[0] == ("digest"@, text_or_null(value.digest)));
        assert(members[1] == ("image"@, JsonModel::String(value.image)));
        assert(members[2] == ("imageType"@, text_or_null(value.image_type)));
        assert(members[3] == ("mediaType"@, text_or_null(value.media_type)));
        assert(members[4] == ("platform"@, entity_or_null::<Platform>(value.platform)));
        assert(members[5] == ("size"@, integer_or_null(value.size)));
        lemma_find_in_sorted(members, 0);
        lemma_find_in_sorted(members, 1);
        lemma_find_in_sorted(members, 2);
        lemma_find_in_sorted(members, 3);
        lemma_find_in_sorted(members, 4);
        lemma_find_in_sorted(members, 5);
    }
}

impl Schema for Image {
    open spec fn decode(doc: JsonModel) -> Result<ImageModel, SchemaError> {
        let digest = optional_text(doc, "digest");
        let image = required_text(doc, "image");
        let image_type = optional_text(doc, "imageType");
        let media_type = optional_text(doc, "mediaType");
        let platform = optional::<Platform>(doc, "platform");
        let size = optional_integer(doc, "size");
        if !(doc is Object) {
            Err(SchemaError::NotAnObject)
        } else if digest is Err {
            Err(digest->Err_0)
        } else if image is Err {
            Err(image->Err_0)
        } else if image_type is Err {
            Err(image_type->Err_0)
        } else if media_type is Err {
            Err(media_type->Err_0)
        } else if platform is Err {
            Err(platform->Err_0)
        } else if size is Err {
            Err(size->Err_0)
        } else {
            Ok(
                ImageModel {
                    digest: digest->Ok_0,
                    image: image->Ok_0,
                    image_type: image_type->Ok_0,
                    media_type: media_type->Ok_0,
                    platform: platform->Ok_0,
                    size: size->Ok_0,
                },
            )
        }
    }

    open spec fn encode(value: ImageModel) -> JsonModel {
        JsonModel::Object(
            seq![
                ("digest"@, text_or_null(value.digest)),
                ("image"@, JsonModel::String(value.image)),
                ("imageType"@, text_or_null(value.image_type)),
                ("mediaType"@, text_or_null(value.media_type)),
                ("platform"@, entity_or_null::<Platform>(value.platform)),
                ("size"@, integer_or_null(value.size)),
            ],
        )
    }

    open spec fn valid(value: ImageModel) -> bool {
        &&& (value.platform matches Some(entity) ==> Platform::valid(entity))
    }

    fn from_json(doc: &Json) -> (r: Result<Image, SchemaError>) {
        if !doc.is_object() {
            return Err(SchemaError::NotAnObject);
        }
        let digest = read_optional_text(doc, "digest")?;
        let image = read_required_text(doc, "image")?;
        let image_type = read_optional_text(doc, "imageType")?;
        let media_type = read_optional_text(doc, "mediaType")?;
        let platform = read_optional::<Platform>(doc, "platform")?;
        let size = read_optional_integer(doc, "size")?;
        Ok(Image { digest, image, image_type, media_type, platform, size })
    }

    fn to_json(&self) -> (doc: Json) {
        let mut members: Vec<(String, Json)> = Vec::new();
        members.push(("digest".to_owned(), write_optional_text(&self.digest)));
        members.push(("image".to_owned(), Json::String(self.image.clone())));
        members.push(("imageType".to_owned(), write_optional_text(&self.image_type)));
        members.push(("mediaType".to_owned(), write_optional_text(&self.media_type)));
        members.push(("platform".to_owned(), write_optional::<Platform>(&self.platform)));
        members.push(("size".to_owned(), write_optional_integer(&self.size)));
        proof {
            lemma_object_model(members);
            assert(members.deep_view() =~= Self::encode(self.deep_view())->Object_0);
        }
        Json::Object(members)
    }

    proof fn lemma_decoded_is_valid(doc: JsonModel) {
        if let Some(value) = doc.member("platform"@) {
            Platform::lemma_decoded_is_valid(value);
        }
    }

    proof fn lemma_round_trip(value: ImageModel) {
        Self::lemma_members_found(value);
        if let Some(entity) = value.platform {
            Platform::lemma_round_trip(entity);
        }
    }
}

} // verus!
