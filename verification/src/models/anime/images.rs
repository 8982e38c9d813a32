//! Pictures and trailers.

use crate::codec::{
    encode_nullable, here, lemma_nullable_round_trip, optional, put, put_optional, required,
    JsonCodec, Mismatch, Reading, StepView,
};
use crate::json::{
    lemma_member_left_out, new_members, no_members, object_value, value_is_object, Json,
};
use serde_json::Value;
use vstd::prelude::*;

verus! {

/// One picture in each of the formats that the service offers.
#[derive(Debug, Clone, PartialEq)]
pub struct Images {
    pub jpg: ImageList,
    pub webp: ImageList,
}

/// What an [`Images`] holds.
pub struct ImagesView {
    pub jpg: ImageListView,
    pub webp: ImageListView,
}

impl DeepView for Images {
    type V = ImagesView;

    open spec fn deep_view(&self) -> ImagesView {
        ImagesView {
            jpg: self.jpg.deep_view(),
            webp: self.webp.deep_view(),
        }
    }
}

impl Images {
    /// The place where `j` departs from the shape of this record, if it does: `j` itself
    /// where it is no object, and otherwise the first of the members, in the order in
    /// which they are read, that cannot be read.
    pub open spec fn mismatch(j: Json) -> Option<Seq<StepView>> {
        if !(j is Object) {
            Some(here())
        } else if let Reading::Mismatch(path) = j.required::<ImageList>("jpg"@) {
            Some(path)
        } else if let Reading::Mismatch(path) = j.required::<ImageList>("webp"@) {
            Some(path)
        } else {
            None
        }
    }

    /// The member names, each by its length and by the characters that tell it from the
    /// others of that length.
    proof fn lemma_names()
        ensures
            "jpg"@.len() == 3,
            "webp"@.len() == 4,
    {
        reveal_strlit("jpg");
        reveal_strlit("webp");
    }
}

impl JsonCodec for Images {
    open spec fn decode(j: Json) -> Reading<ImagesView> {
        match Self::mismatch(j) {
            Some(path) => Reading::Mismatch(path),
            None => Reading::Value(
                ImagesView {
                    jpg: j.required::<ImageList>("jpg"@)->Value_0,
                    webp: j.required::<ImageList>("webp"@)->Value_0,
                },
            ),
        }
    }

    open spec fn encode(x: ImagesView) -> Json {
        Json::Object(
            no_members()
                .insert("jpg"@, ImageList::encode(x.jpg))
                .insert("webp"@, ImageList::encode(x.webp)),
        )
    }

    proof fn round_trip(x: ImagesView) {
        Self::lemma_names();
        ImageList::round_trip(x.jpg);
        ImageList::round_trip(x.webp);
    }

    proof fn null_is_refused() {
    }

    fn from_json(v: &Value) -> (r: Result<Images, Mismatch>) {
        if !value_is_object(v) {
            return Err(Mismatch::here());
        }
        let jpg = required::<ImageList>(v, "jpg")?;
        let webp = required::<ImageList>(v, "webp")?;
        Ok(Images { jpg, webp })
    }

    fn to_json(&self) -> (v: Value) {
        let mut m = new_members();
        put::<ImageList>(&mut m, "jpg", &self.jpg);
        put::<ImageList>(&mut m, "webp", &self.webp);
        object_value(m)
    }
}

/// The addresses of one picture in several sizes.
#[derive(Debug, Clone, PartialEq)]
pub struct ImageList {
    pub image_url: Option<String>,
    pub small_image_url: Option<String>,
    pub medium_image_url: Option<String>,
    pub large_image_url: Option<String>,
    pub maximum_image_url: Option<String>,
}

/// What an [`ImageList`] holds.
pub struct ImageListView {
    pub image_url: Option<Seq<char>>,
    pub small_image_url: Option<Seq<char>>,
    pub medium_image_url: Option<Seq<char>>,
    pub large_image_url: Option<Seq<char>>,
    pub maximum_image_url: Option<Seq<char>>,
}

impl DeepView for ImageList {
    type V = ImageListView;

    open spec fn deep_view(&self) -> ImageListView {
        ImageListView {
            image_url: self.image_url.deep_view(),
            small_image_url: self.small_image_url.deep_view(),
            medium_image_url: self.medium_image_url.deep_view(),
            large_image_url: self.large_image_url.deep_view(),
            maximum_image_url: self.maximum_image_url.deep_view(),
        }
    }
}

impl ImageList {
    /// The place where `j` departs from the shape of this record, if it does: `j` itself
    /// where it is no object, and otherwise the first of the members, in the order in
    /// which they are read, that cannot be read.
    pub open spec fn mismatch(j: Json) -> Option<Seq<StepView>> {
        if !(j is Object) {
            Some(here())
        } else if let Reading::Mismatch(path) = j.optional::<String>("image_url"@) {
            Some(path)
        } else if let Reading::Mismatch(path) = j.optional::<String>("small_image_url"@) {
            Some(path)
        } else if let Reading::Mismatch(path) = j.optional::<String>("medium_image_url"@) {
            Some(path)
        } else if let Reading::Mismatch(path) = j.optional::<String>("large_image_url"@) {
            Some(path)
        } else if let Reading::Mismatch(path) = j.optional::<String>("maximum_image_url"@) {
            Some(path)
        } else {
            None
        }
    }

    /// Whether a document may leave out the member called `key`.
    pub open spec fn may_lack(key: Seq<char>) -> bool {
        ||| key == "image_url"@
        ||| key == "small_image_url"@
        ||| key == "medium_image_url"@
        ||| key == "large_image_url"@
        ||| key == "maximum_image_url"@
    }

    /// `x` with the member called `key` absent.
    pub open spec fn lacking(x: ImageListView, key: Seq<char>) -> ImageListView {
        if key == "image_url"@ {
            ImageListView { image_url: None, ..x }
        } else if key == "small_image_url"@ {
            ImageListView { small_image_url: None, ..x }
        } else if key == "medium_image_url"@ {
            ImageListView { medium_image_url: None, ..x }
        } else if key == "large_image_url"@ {
            ImageListView { large_image_url: None, ..x }
        } else if key == "maximum_image_url"@ {
            ImageListView { maximum_image_url: None, ..x }
        } else {
            x
        }
    }

    /// The member names, each by its length and by the characters that tell it from the
    /// others of that length.
    proof fn lemma_names()
        ensures
            "image_url"@.len() == 9,
            "small_image_url"@.len() == 15 && "small_image_url"@[0] == 's',
            "medium_image_url"@.len() == 16,
            "large_image_url"@.len() == 15 && "large_image_url"@[0] == 'l',
            "maximum_image_url"@.len() == 17,
    {
        reveal_strlit("image_url");
        reveal_strlit("small_image_url");
        reveal_strlit("medium_image_url");
        reveal_strlit("large_image_url");
        reveal_strlit("maximum_image_url");
    }

    /// A member that may be absent can be left out, or be `null`: the document is still accepted,
    /// that member is read as absent, and the others are read as before.
    pub proof fn lemma_may_lack(j: Json, key: Seq<char>)
        requires
            Self::decode(j) is Value,
            Self::may_lack(key),
        ensures
            Self::decode(j.without(key)) == Reading::Value(
                Self::lacking(Self::decode(j)->Value_0, key),
            ),
            Self::decode(j.with(key, Json::Null)) == Self::decode(j.without(key)),
    {
        Self::lemma_names();
        lemma_member_left_out(j, key, "image_url"@);
        lemma_member_left_out(j, key, "small_image_url"@);
        lemma_member_left_out(j, key, "medium_image_url"@);
        lemma_member_left_out(j, key, "large_image_url"@);
        lemma_member_left_out(j, key, "maximum_image_url"@);
    }
}

impl JsonCodec for ImageList {
    open spec fn decode(j: Json) -> Reading<ImageListView> {
        match Self::mismatch(j) {
            Some(path) => Reading::Mismatch(path),
            None => Reading::Value(
                ImageListView {
                    image_url: j.optional::<String>("image_url"@)->Value_0,
                    small_image_url: j.optional::<String>("small_image_url"@)->Value_0,
                    medium_image_url: j.optional::<String>("medium_image_url"@)->Value_0,
                    large_image_url: j.optional::<String>("large_image_url"@)->Value_0,
                    maximum_image_url: j.optional::<String>("maximum_image_url"@)->Value_0,
                },
            ),
        }
    }

    open spec fn encode(x: ImageListView) -> Json {
        Json::Object(
            no_members()
                .insert("image_url"@, encode_nullable::<String>(x.image_url))
                .insert("small_image_url"@, encode_nullable::<String>(x.small_image_url))
                .insert("medium_image_url"@, encode_nullable::<String>(x.medium_image_url))
                .insert("large_image_url"@, encode_nullable::<String>(x.large_image_url))
                .insert("maximum_image_url"@, encode_nullable::<String>(x.maximum_image_url)),
        )
    }

    proof fn round_trip(x: ImageListView) {
        Self::lemma_names();
        lemma_nullable_round_trip::<String>(x.image_url);
        lemma_nullable_round_trip::<String>(x.small_image_url);
        lemma_nullable_round_trip::<String>(x.medium_image_url);
        lemma_nullable_round_trip::<String>(x.large_image_url);
        lemma_nullable_round_trip::<String>(x.maximum_image_url);
    }

    proof fn null_is_refused() {
    }

    fn from_json(v: &Value) -> (r: Result<ImageList, Mismatch>) {
        if !value_is_object(v) {
            return Err(Mismatch::here());
        }
        let image_url = optional::<String>(v, "image_url")?;
        let small_image_url = optional::<String>(v, "small_image_url")?;
        let medium_image_url = optional::<String>(v, "medium_image_url")?;
        let large_image_url = optional::<String>(v, "large_image_url")?;
        let maximum_image_url = optional::<String>(v, "maximum_image_url")?;
        Ok(
            ImageList {
                image_url,
                small_image_url,
                medium_image_url,
                large_image_url,
                maximum_image_url,
            },
        )
    }

    fn to_json(&self) -> (v: Value) {
        let mut m = new_members();
        put_optional::<String>(&mut m, "image_url", &self.image_url);
        put_optional::<String>(&mut m, "small_image_url", &self.small_image_url);
        put_optional::<String>(&mut m, "medium_image_url", &self.medium_image_url);
        put_optional::<String>(&mut m, "large_image_url", &self.large_image_url);
        put_optional::<String>(&mut m, "maximum_image_url", &self.maximum_image_url);
        object_value(m)
    }
}

/// The trailer of an anime.
#[derive(Debug, Clone, PartialEq)]
pub struct Trailer {
    pub youtube_id: Option<String>,
    pub url: Option<String>,
    pub embed_url: Option<String>,
    pub images: Option<ImageList>,
}

/// What a [`Trailer`] holds.
pub struct TrailerView {
    pub youtube_id: Option<Seq<char>>,
    pub url: Option<Seq<char>>,
    pub embed_url: Option<Seq<char>>,
    pub images: Option<ImageListView>,
}

impl DeepView for Trailer {
    type V = TrailerView;

    open spec fn deep_view(&self) -> TrailerView {
        TrailerView {
            youtube_id: self.youtube_id.deep_view(),
            url: self.url.deep_view(),
            embed_url: self.embed_url.deep_view(),
            images: self.images.deep_view(),
        }
    }
}

impl Trailer {
    /// The place where `j` departs from the shape of this record, if it does: `j` itself
    /// where it is no object, and otherwise the first of the members, in the order in
    /// which they are read, that cannot be read.
    pub open spec fn mismatch(j: Json) -> Option<Seq<StepView>> {
        if !(j is Object) {
            Some(here())
        } else if let Reading::Mismatch(path) = j.optional::<String>("youtube_id"@) {
            Some(path)
        } else if let Reading::Mismatch(path) = j.optional::<String>("url"@) {
            Some(path)
        } else if let Reading::Mismatch(path) = j.optional::<String>("embed_url"@) {
            Some(path)
        } else if let Reading::Mismatch(path) = j.optional::<ImageList>("images"@) {
            Some(path)
        } else {
            None
        }
    }

    /// Whether a document may leave out the member called `key`.
    pub open spec fn may_lack(key: Seq<char>) -> bool {
        ||| key == "youtube_id"@
        ||| key == "url"@
        ||| key == "embed_url"@
        ||| key == "images"@
    }

    /// `x` with the member called `key` absent.
    pub open spec fn lacking(x: TrailerView, key: Seq<char>) -> TrailerView {
        if key == "youtube_id"@ {
            TrailerView { youtube_id: None, ..x }
        } else if key == "url"@ {
            TrailerView { url: None, ..x }
        } else if key == "embed_url"@ {
            TrailerView { embed_url: None, ..x }
        } else if key == "images"@ {
            TrailerView { images: None, ..x }
        } else {
            x
        }
    }

    /// The member names, each by its length and by the characters that tell it from the
    /// others of that length.
    proof fn lemma_names()
        ensures
            "youtube_id"@.len() == 10,
            "url"@.len() == 3,
            "embed_url"@.len() == 9,
            "images"@.len() == 6,
    {
        reveal_strlit("youtube_id");
        reveal_strlit("url");
        reveal_strlit("embed_url");
        reveal_strlit("images");
    }

    /// A member that may be absent can be left out, or be `null`: the document is still accepted,
    /// that member is read as absent, and the others are read as before.
    pub proof fn lemma_may_lack(j: Json, key: Seq<char>)
        requires
            Self::decode(j) is Value,
            Self::may_lack(key),
        ensures
            Self::decode(j.without(key)) == Reading::Value(
                Self::lacking(Self::decode(j)->Value_0, key),
            ),
            Self::decode(j.with(key, Json::Null)) == Self::decode(j.without(key)),
    {
        Self::lemma_names();
        lemma_member_left_out(j, key, "youtube_id"@);
        lemma_member_left_out(j, key, "url"@);
        lemma_member_left_out(j, key, "embed_url"@);
        lemma_member_left_out(j, key, "images"@);
    }
}

impl JsonCodec for Trailer {
    open spec fn decode(j: Json) -> Reading<TrailerView> {
        match Self::mismatch(j) {
            Some(path) => Reading::Mismatch(path),
            None => Reading::Value(
                TrailerView {
                    youtube_id: j.optional::<String>("youtube_id"@)->Value_0,
                    url: j.optional::<String>("url"@)->Value_0,
                    embed_url: j.optional::<String>("embed_url"@)->Value_0,
                    images: j.optional::<ImageList>("images"@)->Value_0,
                },
            ),
        }
    }

    open spec fn encode(x: TrailerView) -> Json {
        Json::Object(
            no_members()
                .insert("youtube_id"@, encode_nullable::<String>(x.youtube_id))
                .insert("url"@, encode_nullable::<String>(x.url))
                .insert("embed_url"@, encode_nullable::<String>(x.embed_url))
                .insert("images"@, encode_nullable::<ImageList>(x.images)),
        )
    }

    proof fn round_trip(x: TrailerView) {
        Self::lemma_names();
        lemma_nullable_round_trip::<String>(x.youtube_id);
        lemma_nullable_round_trip::<String>(x.url);
        lemma_nullable_round_trip::<String>(x.embed_url);
        lemma_nullable_round_trip::<ImageList>(x.images);
    }

    proof fn null_is_refused() {
    }

    fn from_json(v: &Value) -> (r: Result<Trailer, Mismatch>) {
        if !value_is_object(v) {
            return Err(Mismatch::here());
        }
        let youtube_id = optional::<String>(v, "youtube_id")?;
        let url = optional::<String>(v, "url")?;
        let embed_url = optional::<String>(v, "embed_url")?;
        let images = optional::<ImageList>(v, "images")?;
        Ok(Trailer { youtube_id, url, embed_url, images })
    }

    fn to_json(&self) -> (v: Value) {
        let mut m = new_members();
        put_optional::<String>(&mut m, "youtube_id", &self.youtube_id);
        put_optional::<String>(&mut m, "url", &self.url);
        put_optional::<String>(&mut m, "embed_url", &self.embed_url);
        put_optional::<ImageList>(&mut m, "images", &self.images);
        object_value(m)
    }
}

} // verus!
