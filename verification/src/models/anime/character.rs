//! The characters of an anime and the people who speak them.

use crate::codec::{
    encode_nullable, here, lemma_nullable_round_trip, optional, put, put_optional, required,
    JsonCodec, Mismatch, Reading, StepView,
};
use crate::json::{
    lemma_member_left_out, new_members, no_members, object_value, value_is_object, Json,
};
use serde_json::Value;
use vstd::prelude::*;

verus! {

/// The characters of one anime.
pub type Characters = Vec<Character>;

/// A character of an anime, with its part and its voices.
#[derive(Debug, Clone, PartialEq)]
pub struct Character {
    pub character: CharacterDetails,
    pub role: String,
    pub voice_actors: Vec<VoiceActor>,
}

/// What a [`Character`] holds.
pub struct CharacterView {
    pub character: CharacterDetailsView,
    pub role: Seq<char>,
    pub voice_actors: Seq<VoiceActorView>,
}

impl DeepView for Character {
    type V = CharacterView;

    open spec fn deep_view(&self) -> CharacterView {
        CharacterView {
            character: self.character.deep_view(),
            role: self.role@,
            voice_actors: self.voice_actors.deep_view(),
        }
    }
}

impl Character {
    /// The place where `j` departs from the shape of this record, if it does: `j` itself
    /// where it is no object, and otherwise the first of the members, in the order in
    /// which they are read, that cannot be read.
    pub open spec fn mismatch(j: Json) -> Option<Seq<StepView>> {
        if !(j is Object) {
            Some(here())
        } else if let Reading::Mismatch(path) = j.required::<CharacterDetails>("character"@) {
            Some(path)
        } else if let Reading::Mismatch(path) = j.required::<String>("role"@) {
            Some(path)
        } else if let Reading::Mismatch(path) = j.required::<Vec<VoiceActor>>("voice_actors"@) {
            Some(path)
        } else {
            None
        }
    }

    /// The member names, each by its length and by the characters that tell it from the
    /// others of that length.
    proof fn lemma_names()
        ensures
            "character"@.len() == 9,
            "role"@.len() == 4,
            "voice_actors"@.len() == 12,
    {
        reveal_strlit("character");
        reveal_strlit("role");
        reveal_strlit("voice_actors");
    }
}

impl JsonCodec for Character {
    open spec fn decode(j: Json) -> Reading<CharacterView> {
        match Self::mismatch(j) {
            Some(path) => Reading::Mismatch(path),
            None => Reading::Value(
                CharacterView {
                    character: j.required::<CharacterDetails>("character"@)->Value_0,
                    role: j.required::<String>("role"@)->Value_0,
                    voice_actors: j.required::<Vec<VoiceActor>>("voice_actors"@)->Value_0,
                },
            ),
        }
    }

    open spec fn encode(x: CharacterView) -> Json {
        Json::Object(
            no_members()
                .insert("character"@, CharacterDetails::encode(x.character))
                .insert("role"@, String::encode(x.role))
                .insert("voice_actors"@, Vec::<VoiceActor>::encode(x.voice_actors)),
        )
    }

    proof fn round_trip(x: CharacterView) {
        Self::lemma_names();
        CharacterDetails::round_trip(x.character);
        String::round_trip(x.role);
        Vec::<VoiceActor>::round_trip(x.voice_actors);
    }

    proof fn null_is_refused() {
    }

    fn from_json(v: &Value) -> (r: Result<Character, Mismatch>) {
        if !value_is_object(v) {
            return Err(Mismatch::here());
        }
        let character = required::<CharacterDetails>(v, "character")?;
        let role = required::<String>(v, "role")?;
        let voice_actors = required::<Vec<VoiceActor>>(v, "voice_actors")?;
        Ok(Character { character, role, voice_actors })
    }

    fn to_json(&self) -> (v: Value) {
        let mut m = new_members();
        put::<CharacterDetails>(&mut m, "character", &self.character);
        put::<String>(&mut m, "role", &self.role);
        put::<Vec<VoiceActor>>(&mut m, "voice_actors", &self.voice_actors);
        object_value(m)
    }
}

/// A character of the catalogue.
#[derive(Debug, Clone, PartialEq)]
pub struct CharacterDetails {
    pub mal_id: u32,
    pub url: String,
    pub images: CharacterImages,
    pub name: String,
}

/// What a [`CharacterDetails`] holds.
pub struct CharacterDetailsView {
    pub mal_id: u32,
    pub url: Seq<char>,
    pub images: CharacterImagesView,
    pub name: Seq<char>,
}

impl DeepView for CharacterDetails {
    type V = CharacterDetailsView;

    open spec fn deep_view(&self) -> CharacterDetailsView {
        CharacterDetailsView {
            mal_id: self.mal_id,
            url: self.url@,
            images: self.images.deep_view(),
            name: self.name@,
        }
    }
}

impl CharacterDetails {
    /// The place where `j` departs from the shape of this record, if it does: `j` itself
    /// where it is no object, and otherwise the first of the members, in the order in
    /// which they are read, that cannot be read.
    pub open spec fn mismatch(j: Json) -> Option<Seq<StepView>> {
        if !(j is Object) {
            Some(here())
        } else if let Reading::Mismatch(path) = j.required::<u32>("mal_id"@) {
            Some(path)
        } else if let Reading::Mismatch(path) = j.required::<String>("url"@) {
            Some(path)
        } else if let Reading::Mismatch(path) = j.required::<CharacterImages>("images"@) {
            Some(path)
        } else if let Reading::Mismatch(path) = j.required::<String>("name"@) {
            Some(path)
        } else {
            None
        }
    }

    /// The member names, each by its length and by the characters that tell it from the
    /// others of that length.
    proof fn lemma_names()
        ensures
            "mal_id"@.len() == 6 && "mal_id"@[0] == 'm',
            "url"@.len() == 3,
            "images"@.len() == 6 && "images"@[0] == 'i',
            "name"@.len() == 4,
    {
        reveal_strlit("mal_id");
        reveal_strlit("url");
        reveal_strlit("images");
        reveal_strlit("name");
    }
}

impl JsonCodec for CharacterDetails {
    open spec fn decode(j: Json) -> Reading<CharacterDetailsView> {
        match Self::mismatch(j) {
            Some(path) => Reading::Mismatch(path),
            None => Reading::Value(
                CharacterDetailsView {
                    mal_id: j.required::<u32>("mal_id"@)->Value_0,
                    url: j.required::<String>("url"@)->Value_0,
                    images: j.required::<CharacterImages>("images"@)->Value_0,
                    name: j.required::<String>("name"@)->Value_0,
                },
            ),
        }
    }

    open spec fn encode(x: CharacterDetailsView) -> Json {
        Json::Object(
            no_members()
                .insert("mal_id"@, u32::encode(x.mal_id))
                .insert("url"@, String::encode(x.url))
                .insert("images"@, CharacterImages::encode(x.images))
                .insert("name"@, String::encode(x.name)),
        )
    }

    proof fn round_trip(x: CharacterDetailsView) {
        Self::lemma_names();
        u32::round_trip(x.mal_id);
        String::round_trip(x.url);
        CharacterImages::round_trip(x.images);
        String::round_trip(x.name);
    }

    proof fn null_is_refused() {
    }

    fn from_json(v: &Value) -> (r: Result<CharacterDetails, Mismatch>) {
        if !value_is_object(v) {
            return Err(Mismatch::here());
        }
        let mal_id = required::<u32>(v, "mal_id")?;
        let url = required::<String>(v, "url")?;
        let images = required::<CharacterImages>(v, "images")?;
        let name = required::<String>(v, "name")?;
        Ok(CharacterDetails { mal_id, url, images, name })
    }

    fn to_json(&self) -> (v: Value) {
        let mut m = new_members();
        put::<u32>(&mut m, "mal_id", &self.mal_id);
        put::<String>(&mut m, "url", &self.url);
        put::<CharacterImages>(&mut m, "images", &self.images);
        put::<String>(&mut m, "name", &self.name);
        object_value(m)
    }
}

/// The pictures of a character, in each format.
#[derive(Debug, Clone, PartialEq)]
pub struct CharacterImages {
    pub jpg: CharacterImage,
    pub webp: CharacterImage,
}

/// What a [`CharacterImages`] holds.
pub struct CharacterImagesView {
    pub jpg: CharacterImageView,
    pub webp: CharacterImageView,
}

impl DeepView for CharacterImages {
    type V = CharacterImagesView;

    open spec fn deep_view(&self) -> CharacterImagesView {
        CharacterImagesView {
            jpg: self.jpg.deep_view(),
            webp: self.webp.deep_view(),
        }
    }
}

impl CharacterImages {
    /// The place where `j` departs from the shape of this record, if it does: `j` itself
    /// where it is no object, and otherwise the first of the members, in the order in
    /// which they are read, that cannot be read.
    pub open spec fn mismatch(j: Json) -> Option<Seq<StepView>> {
        if !(j is Object) {
            Some(here())
        } else if let Reading::Mismatch(path) = j.required::<CharacterImage>("jpg"@) {
            Some(path)
        } else if let Reading::Mismatch(path) = j.required::<CharacterImage>("webp"@) {
            Some(path)
        } else {
            None
        }
    }

    /// The member names, each by its length and by the characters that tell it from the
    /// others of that length.
    proof fn lemma_names()
        ensures
            "jpg"@.len() == 3,
            "webp"@.len() == 4,
    {
        reveal_strlit("jpg");
        reveal_strlit("webp");
    }
}

impl JsonCodec for CharacterImages {
    open spec fn decode(j: Json) -> Reading<CharacterImagesView> {
        match Self::mismatch(j) {
            Some(path) => Reading::Mismatch(path),
            None => Reading::Value(
                CharacterImagesView {
                    jpg: j.required::<CharacterImage>("jpg"@)->Value_0,
                    webp: j.required::<CharacterImage>("webp"@)->Value_0,
                },
            ),
        }
    }

    open spec fn encode(x: CharacterImagesView) -> Json {
        Json::Object(
            no_members()
                .insert("jpg"@, CharacterImage::encode(x.jpg))
                .insert("webp"@, CharacterImage::encode(x.webp)),
        )
    }

    proof fn round_trip(x: CharacterImagesView) {
        Self::lemma_names();
        CharacterImage::round_trip(x.jpg);
        CharacterImage::round_trip(x.webp);
    }

    proof fn null_is_refused() {
    }

    fn from_json(v: &Value) -> (r: Result<CharacterImages, Mismatch>) {
        if !value_is_object(v) {
            return Err(Mismatch::here());
        }
        let jpg = required::<CharacterImage>(v, "jpg")?;
        let webp = required::<CharacterImage>(v, "webp")?;
        Ok(CharacterImages { jpg, webp })
    }

    fn to_json(&self) -> (v: Value) {
        let mut m = new_members();
        put::<CharacterImage>(&mut m, "jpg", &self.jpg);
        put::<CharacterImage>(&mut m, "webp", &self.webp);
        object_value(m)
    }
}

/// The addresses of a character's picture.
#[derive(Debug, Clone, PartialEq)]
pub struct CharacterImage {
    pub image_url: Option<String>,
    pub small_image_url: Option<String>,
}

/// What a [`CharacterImage`] holds.
pub struct CharacterImageView {
    pub image_url: Option<Seq<char>>,
    pub small_image_url: Option<Seq<char>>,
}

impl DeepView for CharacterImage {
    type V = CharacterImageView;

    open spec fn deep_view(&self) -> CharacterImageView {
        CharacterImageView {
            image_url: self.image_url.deep_view(),
            small_image_url: self.small_image_url.deep_view(),
        }
    }
}

impl CharacterImage {
    /// The place where `j` departs from the shape of this record, if it does: `j` itself
    /// where it is no object, and otherwise the first of the members, in the order in
    /// which they are read, that cannot be read.
    pub open spec fn mismatch(j: Json) -> Option<Seq<StepView>> {
        if !(j is Object) {
            Some(here())
        } else if let Reading::Mismatch(path) = j.optional::<String>("image_url"@) {
            Some(path)
        } else if let Reading::Mismatch(path) = j.optional::<String>("small_image_url"@) {
            Some(path)
        } else {
            None
        }
    }

    /// Whether a document may leave out the member called `key`.
    pub open spec fn may_lack(key: Seq<char>) -> bool {
        ||| key == "image_url"@
        ||| key == "small_image_url"@
    }

    /// `x` with the member called `key` absent.
    pub open spec fn lacking(x: CharacterImageView, key: Seq<char>) -> CharacterImageView {
        if key == "image_url"@ {
            CharacterImageView { image_url: None, ..x }
        } else if key == "small_image_url"@ {
            CharacterImageView { small_image_url: None, ..x }
        } else {
            x
        }
    }

    /// The member names, each by its length and by the characters that tell it from the
    /// others of that length.
    proof fn lemma_names()
        ensures
            "image_url"@.len() == 9,
            "small_image_url"@.len() == 15,
    {
        reveal_strlit("image_url");
        reveal_strlit("small_image_url");
    }

    /// A member that may be absent can be left out, or be `null`: the document is still accepted,
    /// that member is read as absent, and the others are read as before.
    pub proof fn lemma_may_lack(j: Json, key: Seq<char>)
        requires
            Self::decode(j) is Value,
            Self::may_lack(key),
        ensures
            Self::decode(j.without(key)) == Reading::Value(
                Self::lacking(Self::decode(j)->Value_0, key),
            ),
            Self::decode(j.with(key, Json::Null)) == Self::decode(j.without(key)),
    {
        Self::lemma_names();
        lemma_member_left_out(j, key, "image_url"@);
        lemma_member_left_out(j, key, "small_image_url"@);
    }
}

impl JsonCodec for CharacterImage {
    open spec fn decode(j: Json) -> Reading<CharacterImageView> {
        match Self::mismatch(j) {
            Some(path) => Reading::Mismatch(path),
            None => Reading::Value(
                CharacterImageView {
                    image_url: j.optional::<String>("image_url"@)->Value_0,
                    small_image_url: j.optional::<String>("small_image_url"@)->Value_0,
                },
            ),
        }
    }

    open spec fn encode(x: CharacterImageView) -> Json {
        Json::Object(
            no_members()
                .insert("image_url"@, encode_nullable::<String>(x.image_url))
                .insert("small_image_url"@, encode_nullable::<String>(x.small_image_url)),
        )
    }

    proof fn round_trip(x: CharacterImageView) {
        Self::lemma_names();
        lemma_nullable_round_trip::<String>(x.image_url);
        lemma_nullable_round_trip::<String>(x.small_image_url);
    }

    proof fn null_is_refused() {
    }

    fn from_json(v: &Value) -> (r: Result<CharacterImage, Mismatch>) {
        if !value_is_object(v) {
            return Err(Mismatch::here());
        }
        let image_url = optional::<String>(v, "image_url")?;
        let small_image_url = optional::<String>(v, "small_image_url")?;
        Ok(CharacterImage { image_url, small_image_url })
    }

    fn to_json(&self) -> (v: Value) {
        let mut m = new_members();
        put_optional::<String>(&mut m, "image_url", &self.image_url);
        put_optional::<String>(&mut m, "small_image_url", &self.small_image_url);
        object_value(m)
    }
}

/// Who speaks a character, and in which language.
#[derive(Debug, Clone, PartialEq)]
pub struct VoiceActor {
    pub person: Person,
    pub language: String,
}

/// What a [`VoiceActor`] holds.
pub struct VoiceActorView {
    pub person: PersonView,
    pub language: Seq<char>,
}

impl DeepView for VoiceActor {
    type V = VoiceActorView;

    open spec fn deep_view(&self) -> VoiceActorView {
        VoiceActorView {
            person: self.person.deep_view(),
            language: self.language@,
        }
    }
}

impl VoiceActor {
    /// The place where `j` departs from the shape of this record, if it does: `j` itself
    /// where it is no object, and otherwise the first of the members, in the order in
    /// which they are read, that cannot be read.
    pub open spec fn mismatch(j: Json) -> Option<Seq<StepView>> {
        if !(j is Object) {
            Some(here())
        } else if let Reading::Mismatch(path) = j.required::<Person>("person"@) {
            Some(path)
        } else if let Reading::Mismatch(path) = j.required::<String>("language"@) {
            Some(path)
        } else {
            None
        }
    }

    /// The member names, each by its length and by the characters that tell it from the
    /// others of that length.
    proof fn lemma_names()
        ensures
            "person"@.len() == 6,
            "language"@.len() == 8,
    {
        reveal_strlit("person");
        reveal_strlit("language");
    }
}

impl JsonCodec for VoiceActor {
    open spec fn decode(j: Json) -> Reading<VoiceActorView> {
        match Self::mismatch(j) {
            Some(path) => Reading::Mismatch(path),
            None => Reading::Value(
                VoiceActorView {
                    person: j.required::<Person>("person"@)->Value_0,
                    language: j.required::<String>("language"@)->Value_0,
                },
            ),
        }
    }

    open spec fn encode(x: VoiceActorView) -> Json {
        Json::Object(
            no_members()
                .insert("person"@, Person::encode(x.person))
                .insert("language"@, String::encode(x.language)),
        )
    }

    proof fn round_trip(x: VoiceActorView) {
        Self::lemma_names();
        Person::round_trip(x.person);
        String::round_trip(x.language);
    }

    proof fn null_is_refused() {
    }

    fn from_json(v: &Value) -> (r: Result<VoiceActor, Mismatch>) {
        if !value_is_object(v) {
            return Err(Mismatch::here());
        }
        let person = required::<Person>(v, "person")?;
        let language = required::<String>(v, "language")?;
        Ok(VoiceActor { person, language })
    }

    fn to_json(&self) -> (v: Value) {
        let mut m = new_members();
        put::<Person>(&mut m, "person", &self.person);
        put::<String>(&mut m, "language", &self.language);
        object_value(m)
    }
}

/// A person of the catalogue.
#[derive(Debug, Clone, PartialEq)]
pub struct Person {
    pub mal_id: u32,
    pub url: String,
    pub images: PersonImages,
    pub name: String,
}

/// What a [`Person`] holds.
pub struct PersonView {
    pub mal_id: u32,
    pub url: Seq<char>,
    pub images: PersonImagesView,
    pub name: Seq<char>,
}

impl DeepView for Person {
    type V = PersonView;

    open spec fn deep_view(&self) -> PersonView {
        PersonView {
            mal_id: self.mal_id,
            url: self.url@,
            images: self.images.deep_view(),
            name: self.name@,
        }
    }
}

impl Person {
    /// The place where `j` departs from the shape of this record, if it does: `j` itself
    /// where it is no object, and otherwise the first of the members, in the order in
    /// which they are read, that cannot be read.
    pub open spec fn mismatch(j: Json) -> Option<Seq<StepView>> {
        if !(j is Object) {
            Some(here())
        } else if let Reading::Mismatch(path) = j.required::<u32>("mal_id"@) {
            Some(path)
        } else if let Reading::Mismatch(path) = j.required::<String>("url"@) {
            Some(path)
        } else if let Reading::Mismatch(path) = j.required::<PersonImages>("images"@) {
            Some(path)
        } else if let Reading::Mismatch(path) = j.required::<String>("name"@) {
            Some(path)
        } else {
            None
        }
    }

    /// The member names, each by its length and by the characters that tell it from the
    /// others of that length.
    proof fn lemma_names()
        ensures
            "mal_id"@.len() == 6 && "mal_id"@[0] == 'm',
            "url"@.len() == 3,
            "images"@.len() == 6 && "images"@[0] == 'i',
            "name"@.len() == 4,
    {
        reveal_strlit("mal_id");
        reveal_strlit("url");
        reveal_strlit("images");
        reveal_strlit("name");
    }
}

impl JsonCodec for Person {
    open spec fn decode(j: Json) -> Reading<PersonView> {
        match Self::mismatch(j) {
            Some(path) => Reading::Mismatch(path),
            None => Reading::Value(
                PersonView {
                    mal_id: j.required::<u32>("mal_id"@)->Value_0,
                    url: j.required::<String>("url"@)->Value_0,
                    images: j.required::<PersonImages>("images"@)->Value_0,
                    name: j.required::<String>("name"@)->Value_0,
                },
            ),
        }
    }

    open spec fn encode(x: PersonView) -> Json {
        Json::Object(
            no_members()
                .insert("mal_id"@, u32::encode(x.mal_id))
                .insert("url"@, String::encode(x.url))
                .insert("images"@, PersonImages::encode(x.images))
                .insert("name"@, String::encode(x.name)),
        )
    }

    proof fn round_trip(x: PersonView) {
        Self::lemma_names();
        u32::round_trip(x.mal_id);
        String::round_trip(x.url);
        PersonImages::round_trip(x.images);
        String::round_trip(x.name);
    }

    proof fn null_is_refused() {
    }

    fn from_json(v: &Value) -> (r: Result<Person, Mismatch>) {
        if !value_is_object(v) {
            return Err(Mismatch::here());
        }
        let mal_id = required::<u32>(v, "mal_id")?;
        let url = required::<String>(v, "url")?;
        let images = required::<PersonImages>(v, "images")?;
        let name = required::<String>(v, "name")?;
        Ok(Person { mal_id, url, images, name })
    }

    fn to_json(&self) -> (v: Value) {
        let mut m = new_members();
        put::<u32>(&mut m, "mal_id", &self.mal_id);
        put::<String>(&mut m, "url", &self.url);
        put::<PersonImages>(&mut m, "images", &self.images);
        put::<String>(&mut m, "name", &self.name);
        object_value(m)
    }
}

/// The pictures of a person.
#[derive(Debug, Clone, PartialEq)]
pub struct PersonImages {
    pub jpg: PersonImage,
}

/// What a [`PersonImages`] holds.
pub struct PersonImagesView {
    pub jpg: PersonImageView,
}

impl DeepView for PersonImages {
    type V = PersonImagesView;

    open spec fn deep_view(&self) -> PersonImagesView {
        PersonImagesView {
            jpg: self.jpg.deep_view(),
        }
    }
}

impl PersonImages {
    /// The place where `j` departs from the shape of this record, if it does: `j` itself
    /// where it is no object, and otherwise the first of the members, in the order in
    /// which they are read, that cannot be read.
    pub open spec fn mismatch(j: Json) -> Option<Seq<StepView>> {
        if !(j is Object) {
            Some(here())
        } else if let Reading::Mismatch(path) = j.required::<PersonImage>("jpg"@) {
            Some(path)
        } else {
            None
        }
    }
}

impl JsonCodec for PersonImages {
    open spec fn decode(j: Json) -> Reading<PersonImagesView> {
        match Self::mismatch(j) {
            Some(path) => Reading::Mismatch(path),
            None => Reading::Value(
                PersonImagesView {
                    jpg: j.required::<PersonImage>("jpg"@)->Value_0,
                },
            ),
        }
    }

    open spec fn encode(x: PersonImagesView) -> Json {
        Json::Object(
            no_members()
                .insert("jpg"@, PersonImage::encode(x.jpg)),
        )
    }

    proof fn round_trip(x: PersonImagesView) {
        PersonImage::round_trip(x.jpg);
    }

    proof fn null_is_refused() {
    }

    fn from_json(v: &Value) -> (r: Result<PersonImages, Mismatch>) {
        if !value_is_object(v) {
            return Err(Mismatch::here());
        }
        let jpg = required::<PersonImage>(v, "jpg")?;
        Ok(PersonImages { jpg })
    }

    fn to_json(&self) -> (v: Value) {
        let mut m = new_members();
        put::<PersonImage>(&mut m, "jpg", &self.jpg);
        object_value(m)
    }
}

/// The address of a person's picture.
#[derive(Debug, Clone, PartialEq)]
pub struct PersonImage {
    pub image_url: Option<String>,
}

/// What a [`PersonImage`] holds.
pub struct PersonImageView {
    pub image_url: Option<Seq<char>>,
}

impl DeepView for PersonImage {
    type V = PersonImageView;

    open spec fn deep_view(&self) -> PersonImageView {
        PersonImageView {
            image_url: self.image_url.deep_view(),
        }
    }
}

impl PersonImage {
    /// The place where `j` departs from the shape of this record, if it does: `j` itself
    /// where it is no object, and otherwise the first of the members, in the order in
    /// which they are read, that cannot be read.
    pub open spec fn mismatch(j: Json) -> Option<Seq<StepView>> {
        if !(j is Object) {
            Some(here())
        } else if let Reading::Mismatch(path) = j.optional::<String>("image_url"@) {
            Some(path)
        } else {
            None
        }
    }

    /// Whether a document may leave out the member called `key`.
    pub open spec fn may_lack(key: Seq<char>) -> bool {
        key == "image_url"@
    }

    /// `x` with the member called `key` absent.
    pub open spec fn lacking(x: PersonImageView, key: Seq<char>) -> PersonImageView {
        if key == "image_url"@ {
            PersonImageView { image_url: None, ..x }
        } else {
            x
        }
    }

    /// A member that may be absent can be left out, or be `null`: the document is still accepted,
    /// that member is read as absent, and the others are read as before.
    pub proof fn lemma_may_lack(j: Json, key: Seq<char>)
        requires
            Self::decode(j) is Value,
            Self::may_lack(key),
        ensures
            Self::decode(j.without(key)) == Reading::Value(
                Self::lacking(Self::decode(j)->Value_0, key),
            ),
            Self::decode(j.with(key, Json::Null)) == Self::decode(j.without(key)),
    {
        lemma_member_left_out(j, key, "image_url"@);
    }
}

impl JsonCodec for PersonImage {
    open spec fn decode(j: Json) -> Reading<PersonImageView> {
        match Self::mismatch(j) {
            Some(path) => Reading::Mismatch(path),
            None => Reading::Value(
                PersonImageView {
                    image_url: j.optional::<String>("image_url"@)->Value_0,
                },
            ),
        }
    }

    open spec fn encode(x: PersonImageView) -> Json {
        Json::Object(
            no_members()
                .insert("image_url"@, encode_nullable::<String>(x.image_url)),
        )
    }

    proof fn round_trip(x: PersonImageView) {
        lemma_nullable_round_trip::<String>(x.image_url);
    }

    proof fn null_is_refused() {
    }

    fn from_json(v: &Value) -> (r: Result<PersonImage, Mismatch>) {
        if !value_is_object(v) {
            return Err(Mismatch::here());
        }
        let image_url = optional::<String>(v, "image_url")?;
        Ok(PersonImage { image_url })
    }

    fn to_json(&self) -> (v: Value) {
        let mut m = new_members();
        put_optional::<String>(&mut m, "image_url", &self.image_url);
        object_value(m)
    }
}

} // verus!
