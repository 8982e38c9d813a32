//! An anime, and the records it is made of.

pub mod character;
pub mod images;
pub mod time;

pub use self::character::{
    Character, CharacterDetails, CharacterDetailsView, CharacterImage, CharacterImageView,
    CharacterImages, CharacterImagesView, CharacterView, Characters, Person, PersonImage,
    PersonImageView, PersonImages, PersonImagesView, PersonView, VoiceActor, VoiceActorView,
};
pub use self::images::{ImageList, ImageListView, Images, ImagesView, Trailer, TrailerView};

use crate::codec::{
    encode_nullable, here, lemma_nullable_round_trip, optional, put, put_optional, required,
    same_text, JsonCodec, Mismatch, Reading, StepView,
};
use crate::json::{
    lemma_member_left_out, new_members, no_members, num_of, number_value, object_value,
    string_value, value_as_number, value_as_str, value_is_object, Json, Num,
};
use self::time::{Aired, AiredView};
use serde_json::{Number, Value};
use vstd::prelude::*;

verus! {

/// An anime, as the service describes it.
#[derive(Debug, Clone, PartialEq)]
pub struct Anime {
    pub mal_id: u64,
    pub url: String,
    pub images: ImageList,
    pub trailer: Trailer,
    pub title: String,
    pub title_english: Option<String>,
    pub title_japanese: Option<String>,
    pub title_synonyms: Vec<String>,
    pub data_type: String,
    pub source: Option<String>,
    pub episodes: Option<u64>,
    pub status: AirStatus,
    pub airing: bool,
    pub aired: Aired,
    pub duration: Option<String>,
    pub rating: Option<String>,
    pub score: Option<Score>,
    pub scored_by: Option<u64>,
    pub rank: Option<u64>,
    pub popularity: Option<u64>,
    pub members: Option<u64>,
    pub favorites: Option<u64>,
    pub synopsis: Option<String>,
    pub background: Option<String>,
    pub season: Option<Season>,
    pub year: Option<u64>,
    pub broadcast: Broadcast,
    pub producers: Vec<MalUrl>,
    pub licensors: Vec<MalUrl>,
    pub studios: Vec<MalUrl>,
    pub genres: Vec<MalUrl>,
    pub explicit_genres: Vec<MalUrl>,
    pub themes: Vec<MalUrl>,
    pub demographics: Vec<MalUrl>,
}

/// What an [`Anime`] holds.
pub struct AnimeView {
    pub mal_id: u64,
    pub url: Seq<char>,
    pub images: ImageListView,
    pub trailer: TrailerView,
    pub title: Seq<char>,
    pub title_english: Option<Seq<char>>,
    pub title_japanese: Option<Seq<char>>,
    pub title_synonyms: Seq<Seq<char>>,
    pub data_type: Seq<char>,
    pub source: Option<Seq<char>>,
    pub episodes: Option<u64>,
    pub status: AirStatus,
    pub airing: bool,
    pub aired: AiredView,
    pub duration: Option<Seq<char>>,
    pub rating: Option<Seq<char>>,
    pub score: Option<Num>,
    pub scored_by: Option<u64>,
    pub rank: Option<u64>,
    pub popularity: Option<u64>,
    pub members: Option<u64>,
    pub favorites: Option<u64>,
    pub synopsis: Option<Seq<char>>,
    pub background: Option<Seq<char>>,
    pub season: Option<Season>,
    pub year: Option<u64>,
    pub broadcast: BroadcastView,
    pub producers: Seq<MalUrlView>,
    pub licensors: Seq<MalUrlView>,
    pub studios: Seq<MalUrlView>,
    pub genres: Seq<MalUrlView>,
    pub explicit_genres: Seq<MalUrlView>,
    pub themes: Seq<MalUrlView>,
    pub demographics: Seq<MalUrlView>,
}

impl DeepView for Anime {
    type V = AnimeView;

    open spec fn deep_view(&self) -> AnimeView {
        AnimeView {
            mal_id: self.mal_id,
            url: self.url@,
            images: self.images.deep_view(),
            trailer: self.trailer.deep_view(),
            title: self.title@,
            title_english: self.title_english.deep_view(),
            title_japanese: self.title_japanese.deep_view(),
            title_synonyms: self.title_synonyms.deep_view(),
            data_type: self.data_type@,
            source: self.source.deep_view(),
            episodes: self.episodes,
            status: self.status,
            airing: self.airing,
            aired: self.aired.deep_view(),
            duration: self.duration.deep_view(),
            rating: self.rating.deep_view(),
            score: self.score.deep_view(),
            scored_by: self.scored_by,
            rank: self.rank,
            popularity: self.popularity,
            members: self.members,
            favorites: self.favorites,
            synopsis: self.synopsis.deep_view(),
            background: self.background.deep_view(),
            season: self.season,
            year: self.year,
            broadcast: self.broadcast.deep_view(),
            producers: self.producers.deep_view(),
            licensors: self.licensors.deep_view(),
            studios: self.studios.deep_view(),
            genres: self.genres.deep_view(),
            explicit_genres: self.explicit_genres.deep_view(),
            themes: self.themes.deep_view(),
            demographics: self.demographics.deep_view(),
        }
    }
}

impl Anime {
    /// The place where `j` departs from the shape of this record, if it does: `j` itself
    /// where it is no object, and otherwise the first of the members, in the order in
    /// which they are read, that cannot be read.
    pub open spec fn mismatch(j: Json) -> Option<Seq<StepView>> {
        if !(j is Object) {
            Some(here())
        } else if let Reading::Mismatch(path) = j.required::<u64>("mal_id"@) {
            Some(path)
        } else if let Reading::Mismatch(path) = j.required::<String>("url"@) {
            Some(path)
        } else if let Reading::Mismatch(path) = j.required::<ImageList>("images"@) {
            Some(path)
        } else if let Reading::Mismatch(path) = j.required::<Trailer>("trailer"@) {
            Some(path)
        } else if let Reading::Mismatch(path) = j.required::<String>("title"@) {
            Some(path)
        } else if let Reading::Mismatch(path) = j.optional::<String>("title_english"@) {
            Some(path)
        } else if let Reading::Mismatch(path) = j.optional::<String>("title_japanese"@) {
            Some(path)
        } else if let Reading::Mismatch(path) = j.required::<Vec<String>>("title_synonyms"@) {
            Some(path)
        } else if let Reading::Mismatch(path) = j.required::<String>("type"@) {
            Some(path)
        } else if let Reading::Mismatch(path) = j.optional::<String>("source"@) {
            Some(path)
        } else if let Reading::Mismatch(path) = j.optional::<u64>("episodes"@) {
            Some(path)
        } else if let Reading::Mismatch(path) = j.required::<AirStatus>("status"@) {
            Some(path)
        } else if let Reading::Mismatch(path) = j.required::<bool>("airing"@) {
            Some(path)
        } else if let Reading::Mismatch(path) = j.required::<Aired>("aired"@) {
            Some(path)
        } else if let Reading::Mismatch(path) = j.optional::<String>("duration"@) {
            Some(path)
        } else if let Reading::Mismatch(path) = j.optional::<String>("rating"@) {
            Some(path)
        } else if let Reading::Mismatch(path) = j.optional::<Score>("score"@) {
            Some(path)
        } else if let Reading::Mismatch(path) = j.optional::<u64>("scored_by"@) {
            Some(path)
        } else if let Reading::Mismatch(path) = j.optional::<u64>("rank"@) {
            Some(path)
        } else if let Reading::Mismatch(path) = j.optional::<u64>("popularity"@) {
            Some(path)
        } else if let Reading::Mismatch(path) = j.optional::<u64>("members"@) {
            Some(path)
        } else if let Reading::Mismatch(path) = j.optional::<u64>("favorites"@) {
            Some(path)
        } else if let Reading::Mismatch(path) = j.optional::<String>("synopsis"@) {
            Some(path)
        } else if let Reading::Mismatch(path) = j.optional::<String>("background"@) {
            Some(path)
        } else if let Reading::Mismatch(path) = j.optional::<Season>("season"@) {
            Some(path)
        } else if let Reading::Mismatch(path) = j.optional::<u64>("year"@) {
            Some(path)
        } else if let Reading::Mismatch(path) = j.required::<Broadcast>("broadcast"@) {
            Some(path)
        } else if let Reading::Mismatch(path) = j.required::<Vec<MalUrl>>("producers"@) {
            Some(path)
        } else if let Reading::Mismatch(path) = j.required::<Vec<MalUrl>>("licensors"@) {
            Some(path)
        } else if let Reading::Mismatch(path) = j.required::<Vec<MalUrl>>("studios"@) {
            Some(path)
        } else if let Reading::Mismatch(path) = j.required::<Vec<MalUrl>>("genres"@) {
            Some(path)
        } else if let Reading::Mismatch(path) = j.required::<Vec<MalUrl>>("explicit_genres"@) {
            Some(path)
        } else if let Reading::Mismatch(path) = j.required::<Vec<MalUrl>>("themes"@) {
            Some(path)
        } else if let Reading::Mismatch(path) = j.required::<Vec<MalUrl>>("demographics"@) {
            Some(path)
        } else {
            None
        }
    }

    /// Whether a document may leave out the member called `key`.
    pub open spec fn may_lack(key: Seq<char>) -> bool {
        ||| key == "title_english"@
        ||| key == "title_japanese"@
        ||| key == "source"@
        ||| key == "episodes"@
        ||| key == "duration"@
        ||| key == "rating"@
        ||| key == "score"@
        ||| key == "scored_by"@
        ||| key == "rank"@
        ||| key == "popularity"@
        ||| key == "members"@
        ||| key == "favorites"@
        ||| key == "synopsis"@
        ||| key == "background"@
        ||| key == "season"@
        ||| key == "year"@
    }

    /// `x` with the member called `key` absent.
    pub open spec fn lacking(x: AnimeView, key: Seq<char>) -> AnimeView {
        if key == "title_english"@ {
            AnimeView { title_english: None, ..x }
        } else if key == "title_japanese"@ {
            AnimeView { title_japanese: None, ..x }
        } else if key == "source"@ {
            AnimeView { source: None, ..x }
        } else if key == "episodes"@ {
            AnimeView { episodes: None, ..x }
        } else if key == "duration"@ {
            AnimeView { duration: None, ..x }
        } else if key == "rating"@ {
            AnimeView { rating: None, ..x }
        } else if key == "score"@ {
            AnimeView { score: None, ..x }
        } else if key == "scored_by"@ {
            AnimeView { scored_by: None, ..x }
        } else if key == "rank"@ {
            AnimeView { rank: None, ..x }
        } else if key == "popularity"@ {
            AnimeView { popularity: None, ..x }
        } else if key == "members"@ {
            AnimeView { members: None, ..x }
        } else if key == "favorites"@ {
            AnimeView { favorites: None, ..x }
        } else if key == "synopsis"@ {
            AnimeView { synopsis: None, ..x }
        } else if key == "background"@ {
            AnimeView { background: None, ..x }
        } else if key == "season"@ {
            AnimeView { season: None, ..x }
        } else if key == "year"@ {
            AnimeView { year: None, ..x }
        } else {
            x
        }
    }

    /// The member names, each by its length and by the characters that tell it from the
    /// others of that length.
    proof fn lemma_names()
        ensures
            "mal_id"@.len() == 6 && "mal_id"@[0] == 'm',
            "url"@.len() == 3,
            "images"@.len() == 6 && "images"@[0] == 'i',
            "trailer"@.len() == 7 && "trailer"@[0] == 't',
            "title"@.len() == 5 && "title"@[0] == 't',
            "title_english"@.len() == 13,
            "title_japanese"@.len() == 14 && "title_japanese"@[6] == 'j',
            "title_synonyms"@.len() == 14 && "title_synonyms"@[6] == 's',
            "type"@.len() == 4 && "type"@[0] == 't',
            "source"@.len() == 6 && "source"@[0] == 's' && "source"@[1] == 'o',
            "episodes"@.len() == 8 && "episodes"@[0] == 'e',
            "status"@.len() == 6 && "status"@[0] == 's' && "status"@[1] == 't',
            "airing"@.len() == 6 && "airing"@[0] == 'a',
            "aired"@.len() == 5 && "aired"@[0] == 'a',
            "duration"@.len() == 8 && "duration"@[0] == 'd',
            "rating"@.len() == 6 && "rating"@[0] == 'r',
            "score"@.len() == 5 && "score"@[0] == 's',
            "scored_by"@.len() == 9 && "scored_by"@[0] == 's',
            "rank"@.len() == 4 && "rank"@[0] == 'r',
            "popularity"@.len() == 10 && "popularity"@[0] == 'p',
            "members"@.len() == 7 && "members"@[0] == 'm',
            "favorites"@.len() == 9 && "favorites"@[0] == 'f',
            "synopsis"@.len() == 8 && "synopsis"@[0] == 's',
            "background"@.len() == 10 && "background"@[0] == 'b',
            "season"@.len() == 6 && "season"@[0] == 's' && "season"@[1] == 'e',
            "year"@.len() == 4 && "year"@[0] == 'y',
            "broadcast"@.len() == 9 && "broadcast"@[0] == 'b',
            "producers"@.len() == 9 && "producers"@[0] == 'p',
            "licensors"@.len() == 9 && "licensors"@[0] == 'l',
            "studios"@.len() == 7 && "studios"@[0] == 's',
            "genres"@.len() == 6 && "genres"@[0] == 'g',
            "explicit_genres"@.len() == 15,
            "themes"@.len() == 6 && "themes"@[0] == 't',
            "demographics"@.len() == 12,
    {
        reveal_strlit("mal_id");
        reveal_strlit("url");
        reveal_strlit("images");
        reveal_strlit("trailer");
        reveal_strlit("title");
        reveal_strlit("title_english");
        reveal_strlit("title_japanese");
        reveal_strlit("title_synonyms");
        reveal_strlit("type");
        reveal_strlit("source");
        reveal_strlit("episodes");
        reveal_strlit("status");
        reveal_strlit("airing");
        reveal_strlit("aired");
        reveal_strlit("duration");
        reveal_strlit("rating");
        reveal_strlit("score");
        reveal_strlit("scored_by");
        reveal_strlit("rank");
        reveal_strlit("popularity");
        reveal_strlit("members");
        reveal_strlit("favorites");
        reveal_strlit("synopsis");
        reveal_strlit("background");
        reveal_strlit("season");
        reveal_strlit("year");
        reveal_strlit("broadcast");
        reveal_strlit("producers");
        reveal_strlit("licensors");
        reveal_strlit("studios");
        reveal_strlit("genres");
        reveal_strlit("explicit_genres");
        reveal_strlit("themes");
        reveal_strlit("demographics");
    }

    /// A member that may be absent can be left out, or be `null`: the document is still accepted,
    /// that member is read as absent, and the others are read as before.
    pub proof fn lemma_may_lack(j: Json, key: Seq<char>)
        requires
            Self::decode(j) is Value,
            Self::may_lack(key),
        ensures
            Self::decode(j.without(key)) == Reading::Value(
                Self::lacking(Self::decode(j)->Value_0, key),
            ),
            Self::decode(j.with(key, Json::Null)) == Self::decode(j.without(key)),
    {
        Self::lemma_names();
        lemma_member_left_out(j, key, "mal_id"@);
        lemma_member_left_out(j, key, "url"@);
        lemma_member_left_out(j, key, "images"@);
        lemma_member_left_out(j, key, "trailer"@);
        lemma_member_left_out(j, key, "title"@);
        lemma_member_left_out(j, key, "title_english"@);
        lemma_member_left_out(j, key, "title_japanese"@);
        lemma_member_left_out(j, key, "title_synonyms"@);
        lemma_member_left_out(j, key, "type"@);
        lemma_member_left_out(j, key, "source"@);
        lemma_member_left_out(j, key, "episodes"@);
        lemma_member_left_out(j, key, "status"@);
        lemma_member_left_out(j, key, "airing"@);
        lemma_member_left_out(j, key, "aired"@);
        lemma_member_left_out(j, key, "duration"@);
        lemma_member_left_out(j, key, "rating"@);
        lemma_member_left_out(j, key, "score"@);
        lemma_member_left_out(j, key, "scored_by"@);
        lemma_member_left_out(j, key, "rank"@);
        lemma_member_left_out(j, key, "popularity"@);
        lemma_member_left_out(j, key, "members"@);
        lemma_member_left_out(j, key, "favorites"@);
        lemma_member_left_out(j, key, "synopsis"@);
        lemma_member_left_out(j, key, "background"@);
        lemma_member_left_out(j, key, "season"@);
        lemma_member_left_out(j, key, "year"@);
        lemma_member_left_out(j, key, "broadcast"@);
        lemma_member_left_out(j, key, "producers"@);
        lemma_member_left_out(j, key, "licensors"@);
        lemma_member_left_out(j, key, "studios"@);
        lemma_member_left_out(j, key, "genres"@);
        lemma_member_left_out(j, key, "explicit_genres"@);
        lemma_member_left_out(j, key, "themes"@);
        lemma_member_left_out(j, key, "demographics"@);
        let x = Self::decode(j)->Value_0;
        if key == "title_english"@ {
            assert(Self::decode(j.without(key)) == Reading::Value(
                AnimeView { title_english: None, ..x },
            ));
        } else if key == "title_japanese"@ {
            assert(Self::decode(j.without(key)) == Reading::Value(
                AnimeView { title_japanese: None, ..x },
            ));
        } else if key == "source"@ {
            assert(Self::decode(j.without(key)) == Reading::Value(
                AnimeView { source: None, ..x },
            ));
        } else if key == "episodes"@ {
            assert(Self::decode(j.without(key)) == Reading::Value(
                AnimeView { episodes: None, ..x },
            ));
        } else if key == "duration"@ {
            assert(Self::decode(j.without(key)) == Reading::Value(
                AnimeView { duration: None, ..x },
            ));
        } else if key == "rating"@ {
            assert(Self::decode(j.without(key)) == Reading::Value(
                AnimeView { rating: None, ..x },
            ));
        } else if key == "score"@ {
            assert(Self::decode(j.without(key)) == Reading::Value(
                AnimeView { score: None, ..x },
            ));
        } else if key == "scored_by"@ {
            assert(Self::decode(j.without(key)) == Reading::Value(
                AnimeView { scored_by: None, ..x },
            ));
        } else if key == "rank"@ {
            assert(Self::decode(j.without(key)) == Reading::Value(
                AnimeView { rank: None, ..x },
            ));
        } else if key == "popularity"@ {
            assert(Self::decode(j.without(key)) == Reading::Value(
                AnimeView { popularity: None, ..x },
            ));
        } else if key == "members"@ {
            assert(Self::decode(j.without(key)) == Reading::Value(
                AnimeView { members: None, ..x },
            ));
        } else if key == "favorites"@ {
            assert(Self::decode(j.without(key)) == Reading::Value(
                AnimeView { favorites: None, ..x },
            ));
        } else if key == "synopsis"@ {
            assert(Self::decode(j.without(key)) == Reading::Value(
                AnimeView { synopsis: None, ..x },
            ));
        } else if key == "background"@ {
            assert(Self::decode(j.without(key)) == Reading::Value(
                AnimeView { background: None, ..x },
            ));
        } else if key == "season"@ {
            assert(Self::decode(j.without(key)) == Reading::Value(
                AnimeView { season: None, ..x },
            ));
        } else if key == "year"@ {
            assert(Self::decode(j.without(key)) == Reading::Value(
                AnimeView { year: None, ..x },
            ));
        }
    }
}

impl JsonCodec for Anime {
    open spec fn decode(j: Json) -> Reading<AnimeView> {
        match Self::mismatch(j) {
            Some(path) => Reading::Mismatch(path),
            None => Reading::Value(
                AnimeView {
                    mal_id: j.required::<u64>("mal_id"@)->Value_0,
                    url: j.required::<String>("url"@)->Value_0,
                    images: j.required::<ImageList>("images"@)->Value_0,
                    trailer: j.required::<Trailer>("trailer"@)->Value_0,
                    title: j.required::<String>("title"@)->Value_0,
                    title_english: j.optional::<String>("title_english"@)->Value_0,
                    title_japanese: j.optional::<String>("title_japanese"@)->Value_0,
                    title_synonyms: j.required::<Vec<String>>("title_synonyms"@)->Value_0,
                    data_type: j.required::<String>("type"@)->Value_0,
                    source: j.optional::<String>("source"@)->Value_0,
                    episodes: j.optional::<u64>("episodes"@)->Value_0,
                    status: j.required::<AirStatus>("status"@)->Value_0,
                    airing: j.required::<bool>("airing"@)->Value_0,
                    aired: j.required::<Aired>("aired"@)->Value_0,
                    duration: j.optional::<String>("duration"@)->Value_0,
                    rating: j.optional::<String>("rating"@)->Value_0,
                    score: j.optional::<Score>("score"@)->Value_0,
                    scored_by: j.optional::<u64>("scored_by"@)->Value_0,
                    rank: j.optional::<u64>("rank"@)->Value_0,
                    popularity: j.optional::<u64>("popularity"@)->Value_0,
                    members: j.optional::<u64>("members"@)->Value_0,
                    favorites: j.optional::<u64>("favorites"@)->Value_0,
                    synopsis: j.optional::<String>("synopsis"@)->Value_0,
                    background: j.optional::<String>("background"@)->Value_0,
                    season: j.optional::<Season>("season"@)->Value_0,
                    year: j.optional::<u64>("year"@)->Value_0,
                    broadcast: j.required::<Broadcast>("broadcast"@)->Value_0,
                    producers: j.required::<Vec<MalUrl>>("producers"@)->Value_0,
                    licensors: j.required::<Vec<MalUrl>>("licensors"@)->Value_0,
                    studios: j.required::<Vec<MalUrl>>("studios"@)->Value_0,
                    genres: j.required::<Vec<MalUrl>>("genres"@)->Value_0,
                    explicit_genres: j.required::<Vec<MalUrl>>("explicit_genres"@)->Value_0,
                    themes: j.required::<Vec<MalUrl>>("themes"@)->Value_0,
                    demographics: j.required::<Vec<MalUrl>>("demographics"@)->Value_0,
                },
            ),
        }
    }

    open spec fn encode(x: AnimeView) -> Json {
        Json::Object(
            no_members()
                .insert("mal_id"@, u64::encode(x.mal_id))
                .insert("url"@, String::encode(x.url))
                .insert("images"@, ImageList::encode(x.images))
                .insert("trailer"@, Trailer::encode(x.trailer))
                .insert("title"@, String::encode(x.title))
                .insert("title_english"@, encode_nullable::<String>(x.title_english))
                .insert("title_japanese"@, encode_nullable::<String>(x.title_japanese))
                .insert("title_synonyms"@, Vec::<String>::encode(x.title_synonyms))
                .insert("type"@, String::encode(x.data_type))
                .insert("source"@, encode_nullable::<String>(x.source))
                .insert("episodes"@, encode_nullable::<u64>(x.episodes))
                .insert("status"@, AirStatus::encode(x.status))
                .insert("airing"@, bool::encode(x.airing))
                .insert("aired"@, Aired::encode(x.aired))
                .insert("duration"@, encode_nullable::<String>(x.duration))
                .insert("rating"@, encode_nullable::<String>(x.rating))
                .insert("score"@, encode_nullable::<Score>(x.score))
                .insert("scored_by"@, encode_nullable::<u64>(x.scored_by))
                .insert("rank"@, encode_nullable::<u64>(x.rank))
                .insert("popularity"@, encode_nullable::<u64>(x.popularity))
                .insert("members"@, encode_nullable::<u64>(x.members))
                .insert("favorites"@, encode_nullable::<u64>(x.favorites))
                .insert("synopsis"@, encode_nullable::<String>(x.synopsis))
                .insert("background"@, encode_nullable::<String>(x.background))
                .insert("season"@, encode_nullable::<Season>(x.season))
                .insert("year"@, encode_nullable::<u64>(x.year))
                .insert("broadcast"@, Broadcast::encode(x.broadcast))
                .insert("producers"@, Vec::<MalUrl>::encode(x.producers))
                .insert("licensors"@, Vec::<MalUrl>::encode(x.licensors))
                .insert("studios"@, Vec::<MalUrl>::encode(x.studios))
                .insert("genres"@, Vec::<MalUrl>::encode(x.genres))
                .insert("explicit_genres"@, Vec::<MalUrl>::encode(x.explicit_genres))
                .insert("themes"@, Vec::<MalUrl>::encode(x.themes))
                .insert("demographics"@, Vec::<MalUrl>::encode(x.demographics)),
        )
    }

    proof fn round_trip(x: AnimeView) {
        Self::lemma_names();
        u64::round_trip(x.mal_id);
        String::round_trip(x.url);
        ImageList::round_trip(x.images);
        Trailer::round_trip(x.trailer);
        String::round_trip(x.title);
        lemma_nullable_round_trip::<String>(x.title_english);
        lemma_nullable_round_trip::<String>(x.title_japanese);
        Vec::<String>::round_trip(x.title_synonyms);
        String::round_trip(x.data_type);
        lemma_nullable_round_trip::<String>(x.source);
        lemma_nullable_round_trip::<u64>(x.episodes);
        AirStatus::round_trip(x.status);
        bool::round_trip(x.airing);
        Aired::round_trip(x.aired);
        lemma_nullable_round_trip::<String>(x.duration);
        lemma_nullable_round_trip::<String>(x.rating);
        lemma_nullable_round_trip::<Score>(x.score);
        lemma_nullable_round_trip::<u64>(x.scored_by);
        lemma_nullable_round_trip::<u64>(x.rank);
        lemma_nullable_round_trip::<u64>(x.popularity);
        lemma_nullable_round_trip::<u64>(x.members);
        lemma_nullable_round_trip::<u64>(x.favorites);
        lemma_nullable_round_trip::<String>(x.synopsis);
        lemma_nullable_round_trip::<String>(x.background);
        lemma_nullable_round_trip::<Season>(x.season);
        lemma_nullable_round_trip::<u64>(x.year);
        Broadcast::round_trip(x.broadcast);
        Vec::<MalUrl>::round_trip(x.producers);
        Vec::<MalUrl>::round_trip(x.licensors);
        Vec::<MalUrl>::round_trip(x.studios);
        Vec::<MalUrl>::round_trip(x.genres);
        Vec::<MalUrl>::round_trip(x.explicit_genres);
        Vec::<MalUrl>::round_trip(x.themes);
        Vec::<MalUrl>::round_trip(x.demographics);
    }

    proof fn null_is_refused() {
    }

    fn from_json(v: &Value) -> (r: Result<Anime, Mismatch>) {
        if !value_is_object(v) {
            return Err(Mismatch::here());
        }
        let mal_id = required::<u64>(v, "mal_id")?;
        let url = required::<String>(v, "url")?;
        let images = required::<ImageList>(v, "images")?;
        let trailer = required::<Trailer>(v, "trailer")?;
        let title = required::<String>(v, "title")?;
        let title_english = optional::<String>(v, "title_english")?;
        let title_japanese = optional::<String>(v, "title_japanese")?;
        let title_synonyms = required::<Vec<String>>(v, "title_synonyms")?;
        let data_type = required::<String>(v, "type")?;
        let source = optional::<String>(v, "source")?;
        let episodes = optional::<u64>(v, "episodes")?;
        let status = required::<AirStatus>(v, "status")?;
        let airing = required::<bool>(v, "airing")?;
        let aired = required::<Aired>(v, "aired")?;
        let duration = optional::<String>(v, "duration")?;
        let rating = optional::<String>(v, "rating")?;
        let score = optional::<Score>(v, "score")?;
        let scored_by = optional::<u64>(v, "scored_by")?;
        let rank = optional::<u64>(v, "rank")?;
        let popularity = optional::<u64>(v, "popularity")?;
        let members = optional::<u64>(v, "members")?;
        let favorites = optional::<u64>(v, "favorites")?;
        let synopsis = optional::<String>(v, "synopsis")?;
        let background = optional::<String>(v, "background")?;
        let season = optional::<Season>(v, "season")?;
        let year = optional::<u64>(v, "year")?;
        let broadcast = required::<Broadcast>(v, "broadcast")?;
        let producers = required::<Vec<MalUrl>>(v, "producers")?;
        let licensors = required::<Vec<MalUrl>>(v, "licensors")?;
        let studios = required::<Vec<MalUrl>>(v, "studios")?;
        let genres = required::<Vec<MalUrl>>(v, "genres")?;
        let explicit_genres = required::<Vec<MalUrl>>(v, "explicit_genres")?;
        let themes = required::<Vec<MalUrl>>(v, "themes")?;
        let demographics = required::<Vec<MalUrl>>(v, "demographics")?;
        Ok(
            Anime {
                mal_id,
                url,
                images,
                trailer,
                title,
                title_english,
                title_japanese,
                title_synonyms,
                data_type,
                source,
                episodes,
                status,
                airing,
                aired,
                duration,
                rating,
                score,
                scored_by,
                rank,
                popularity,
                members,
                favorites,
                synopsis,
                background,
                season,
                year,
                broadcast,
                producers,
                licensors,
                studios,
                genres,
                explicit_genres,
                themes,
                demographics,
            },
        )
    }

    fn to_json(&self) -> (v: Value) {
        let mut m = new_members();
        put::<u64>(&mut m, "mal_id", &self.mal_id);
        put::<String>(&mut m, "url", &self.url);
        put::<ImageList>(&mut m, "images", &self.images);
        put::<Trailer>(&mut m, "trailer", &self.trailer);
        put::<String>(&mut m, "title", &self.title);
        put_optional::<String>(&mut m, "title_english", &self.title_english);
        put_optional::<String>(&mut m, "title_japanese", &self.title_japanese);
        put::<Vec<String>>(&mut m, "title_synonyms", &self.title_synonyms);
        put::<String>(&mut m, "type", &self.data_type);
        put_optional::<String>(&mut m, "source", &self.source);
        put_optional::<u64>(&mut m, "episodes", &self.episodes);
        put::<AirStatus>(&mut m, "status", &self.status);
        put::<bool>(&mut m, "airing", &self.airing);
        put::<Aired>(&mut m, "aired", &self.aired);
        put_optional::<String>(&mut m, "duration", &self.duration);
        put_optional::<String>(&mut m, "rating", &self.rating);
        put_optional::<Score>(&mut m, "score", &self.score);
        put_optional::<u64>(&mut m, "scored_by", &self.scored_by);
        put_optional::<u64>(&mut m, "rank", &self.rank);
        put_optional::<u64>(&mut m, "popularity", &self.popularity);
        put_optional::<u64>(&mut m, "members", &self.members);
        put_optional::<u64>(&mut m, "favorites", &self.favorites);
        put_optional::<String>(&mut m, "synopsis", &self.synopsis);
        put_optional::<String>(&mut m, "background", &self.background);
        put_optional::<Season>(&mut m, "season", &self.season);
        put_optional::<u64>(&mut m, "year", &self.year);
        put::<Broadcast>(&mut m, "broadcast", &self.broadcast);
        put::<Vec<MalUrl>>(&mut m, "producers", &self.producers);
        put::<Vec<MalUrl>>(&mut m, "licensors", &self.licensors);
        put::<Vec<MalUrl>>(&mut m, "studios", &self.studios);
        put::<Vec<MalUrl>>(&mut m, "genres", &self.genres);
        put::<Vec<MalUrl>>(&mut m, "explicit_genres", &self.explicit_genres);
        put::<Vec<MalUrl>>(&mut m, "themes", &self.themes);
        put::<Vec<MalUrl>>(&mut m, "demographics", &self.demographics);
        object_value(m)
    }
}

/// A score, held as the service wrote it: any JSON number, whole or not.
#[derive(Debug, Clone, PartialEq)]
pub struct Score(pub Number);

impl DeepView for Score {
    type V = Num;

    open spec fn deep_view(&self) -> Num {
        num_of(self.0)
    }
}

impl JsonCodec for Score {
    open spec fn decode(j: Json) -> Reading<Num> {
        match j {
            Json::Number(n) => Reading::Value(n),
            _ => Reading::Mismatch(here()),
        }
    }

    open spec fn encode(x: Num) -> Json {
        Json::Number(x)
    }

    proof fn round_trip(x: Num) {
    }

    proof fn null_is_refused() {
    }

    fn from_json(v: &Value) -> (r: Result<Score, Mismatch>) {
        match value_as_number(v) {
            Some(n) => Ok(Score(n.clone())),
            None => Err(Mismatch::here()),
        }
    }

    fn to_json(&self) -> (v: Value) {
        number_value(self.0.clone())
    }
}

/// When an anime is on the air.
#[derive(Debug, Clone, PartialEq)]
pub struct Broadcast {
    pub day: Option<String>,
    pub time: Option<String>,
    pub timezone: Option<String>,
    pub string: Option<String>,
}

/// What a [`Broadcast`] holds.
pub struct BroadcastView {
    pub day: Option<Seq<char>>,
    pub time: Option<Seq<char>>,
    pub timezone: Option<Seq<char>>,
    pub string: Option<Seq<char>>,
}

impl DeepView for Broadcast {
    type V = BroadcastView;

    open spec fn deep_view(&self) -> BroadcastView {
        BroadcastView {
            day: self.day.deep_view(),
            time: self.time.deep_view(),
            timezone: self.timezone.deep_view(),
            string: self.string.deep_view(),
        }
    }
}

impl Broadcast {
    /// The place where `j` departs from the shape of this record, if it does: `j` itself
    /// where it is no object, and otherwise the first of the members, in the order in
    /// which they are read, that cannot be read.
    pub open spec fn mismatch(j: Json) -> Option<Seq<StepView>> {
        if !(j is Object) {
            Some(here())
        } else if let Reading::Mismatch(path) = j.optional::<String>("day"@) {
            Some(path)
        } else if let Reading::Mismatch(path) = j.optional::<String>("time"@) {
            Some(path)
        } else if let Reading::Mismatch(path) = j.optional::<String>("timezone"@) {
            Some(path)
        } else if let Reading::Mismatch(path) = j.optional::<String>("string"@) {
            Some(path)
        } else {
            None
        }
    }

    /// Whether a document may leave out the member called `key`.
    pub open spec fn may_lack(key: Seq<char>) -> bool {
        ||| key == "day"@
        ||| key == "time"@
        ||| key == "timezone"@
        ||| key == "string"@
    }

    /// `x` with the member called `key` absent.
    pub open spec fn lacking(x: BroadcastView, key: Seq<char>) -> BroadcastView {
        if key == "day"@ {
            BroadcastView { day: None, ..x }
        } else if key == "time"@ {
            BroadcastView { time: None, ..x }
        } else if key == "timezone"@ {
            BroadcastView { timezone: None, ..x }
        } else if key == "string"@ {
            BroadcastView { string: None, ..x }
        } else {
            x
        }
    }

    /// The member names, each by its length and by the characters that tell it from the
    /// others of that length.
    proof fn lemma_names()
        ensures
            "day"@.len() == 3,
            "time"@.len() == 4,
            "timezone"@.len() == 8,
            "string"@.len() == 6,
    {
        reveal_strlit("day");
        reveal_strlit("time");
        reveal_strlit("timezone");
        reveal_strlit("string");
    }

    /// A member that may be absent can be left out, or be `null`: the document is still accepted,
    /// that member is read as absent, and the others are read as before.
    pub proof fn lemma_may_lack(j: Json, key: Seq<char>)
        requires
            Self::decode(j) is Value,
            Self::may_lack(key),
        ensures
            Self::decode(j.without(key)) == Reading::Value(
                Self::lacking(Self::decode(j)->Value_0, key),
            ),
            Self::decode(j.with(key, Json::Null)) == Self::decode(j.without(key)),
    {
        Self::lemma_names();
        lemma_member_left_out(j, key, "day"@);
        lemma_member_left_out(j, key, "time"@);
        lemma_member_left_out(j, key, "timezone"@);
        lemma_member_left_out(j, key, "string"@);
    }
}

impl JsonCodec for Broadcast {
    open spec fn decode(j: Json) -> Reading<BroadcastView> {
        match Self::mismatch(j) {
            Some(path) => Reading::Mismatch(path),
            None => Reading::Value(
                BroadcastView {
                    day: j.optional::<String>("day"@)->Value_0,
                    time: j.optional::<String>("time"@)->Value_0,
                    timezone: j.optional::<String>("timezone"@)->Value_0,
                    string: j.optional::<String>("string"@)->Value_0,
                },
            ),
        }
    }

    open spec fn encode(x: BroadcastView) -> Json {
        Json::Object(
            no_members()
                .insert("day"@, encode_nullable::<String>(x.day))
                .insert("time"@, encode_nullable::<String>(x.time))
                .insert("timezone"@, encode_nullable::<String>(x.timezone))
                .insert("string"@, encode_nullable::<String>(x.string)),
        )
    }

    proof fn round_trip(x: BroadcastView) {
        Self::lemma_names();
        lemma_nullable_round_trip::<String>(x.day);
        lemma_nullable_round_trip::<String>(x.time);
        lemma_nullable_round_trip::<String>(x.timezone);
        lemma_nullable_round_trip::<String>(x.string);
    }

    proof fn null_is_refused() {
    }

    fn from_json(v: &Value) -> (r: Result<Broadcast, Mismatch>) {
        if !value_is_object(v) {
            return Err(Mismatch::here());
        }
        let day = optional::<String>(v, "day")?;
        let time = optional::<String>(v, "time")?;
        let timezone = optional::<String>(v, "timezone")?;
        let string = optional::<String>(v, "string")?;
        Ok(Broadcast { day, time, timezone, string })
    }

    fn to_json(&self) -> (v: Value) {
        let mut m = new_members();
        put_optional::<String>(&mut m, "day", &self.day);
        put_optional::<String>(&mut m, "time", &self.time);
        put_optional::<String>(&mut m, "timezone", &self.timezone);
        put_optional::<String>(&mut m, "string", &self.string);
        object_value(m)
    }
}

/// A reference to another entry of the catalogue: a producer, a studio, a genre.
#[derive(Debug, Clone, PartialEq)]
pub struct MalUrl {
    pub mal_id: u64,
    pub url_type: String,
    pub name: String,
    pub url: String,
}

/// What a [`MalUrl`] holds.
pub struct MalUrlView {
    pub mal_id: u64,
    pub url_type: Seq<char>,
    pub name: Seq<char>,
    pub url: Seq<char>,
}

impl DeepView for MalUrl {
    type V = MalUrlView;

    open spec fn deep_view(&self) -> MalUrlView {
        MalUrlView {
            mal_id: self.mal_id,
            url_type: self.url_type@,
            name: self.name@,
            url: self.url@,
        }
    }
}

impl MalUrl {
    /// The place where `j` departs from the shape of this record, if it does: `j` itself
    /// where it is no object, and otherwise the first of the members, in the order in
    /// which they are read, that cannot be read.
    pub open spec fn mismatch(j: Json) -> Option<Seq<StepView>> {
        if !(j is Object) {
            Some(here())
        } else if let Reading::Mismatch(path) = j.required::<u64>("mal_id"@) {
            Some(path)
        } else if let Reading::Mismatch(path) = j.required::<String>("type"@) {
            Some(path)
        } else if let Reading::Mismatch(path) = j.required::<String>("name"@) {
            Some(path)
        } else if let Reading::Mismatch(path) = j.required::<String>("url"@) {
            Some(path)
        } else {
            None
        }
    }

    /// The member names, each by its length and by the characters that tell it from the
    /// others of that length.
    proof fn lemma_names()
        ensures
            "mal_id"@.len() == 6,
            "type"@.len() == 4 && "type"@[0] == 't',
            "name"@.len() == 4 && "name"@[0] == 'n',
            "url"@.len() == 3,
    {
        reveal_strlit("mal_id");
        reveal_strlit("type");
        reveal_strlit("name");
        reveal_strlit("url");
    }
}

impl JsonCodec for MalUrl {
    open spec fn decode(j: Json) -> Reading<MalUrlView> {
        match Self::mismatch(j) {
            Some(path) => Reading::Mismatch(path),
            None => Reading::Value(
                MalUrlView {
                    mal_id: j.required::<u64>("mal_id"@)->Value_0,
                    url_type: j.required::<String>("type"@)->Value_0,
                    name: j.required::<String>("name"@)->Value_0,
                    url: j.required::<String>("url"@)->Value_0,
                },
            ),
        }
    }

    open spec fn encode(x: MalUrlView) -> Json {
        Json::Object(
            no_members()
                .insert("mal_id"@, u64::encode(x.mal_id))
                .insert("type"@, String::encode(x.url_type))
                .insert("name"@, String::encode(x.name))
                .insert("url"@, String::encode(x.url)),
        )
    }

    proof fn round_trip(x: MalUrlView) {
        Self::lemma_names();
        u64::round_trip(x.mal_id);
        String::round_trip(x.url_type);
        String::round_trip(x.name);
        String::round_trip(x.url);
    }

    proof fn null_is_refused() {
    }

    fn from_json(v: &Value) -> (r: Result<MalUrl, Mismatch>) {
        if !value_is_object(v) {
            return Err(Mismatch::here());
        }
        let mal_id = required::<u64>(v, "mal_id")?;
        let url_type = required::<String>(v, "type")?;
        let name = required::<String>(v, "name")?;
        let url = required::<String>(v, "url")?;
        Ok(MalUrl { mal_id, url_type, name, url })
    }

    fn to_json(&self) -> (v: Value) {
        let mut m = new_members();
        put::<u64>(&mut m, "mal_id", &self.mal_id);
        put::<String>(&mut m, "type", &self.url_type);
        put::<String>(&mut m, "name", &self.name);
        put::<String>(&mut m, "url", &self.url);
        object_value(m)
    }
}

/// Whether an anime has aired.
#[derive(Debug, Clone, Copy, PartialEq, Eq)]
pub enum AirStatus {
    FinishedAiring,
    CurrentlyAiring,
    NotYetAired,
}

impl DeepView for AirStatus {
    type V = AirStatus;

    open spec fn deep_view(&self) -> AirStatus {
        *self
    }
}

impl AirStatus {
    /// The word that the service writes for this value.
    pub open spec fn word(self) -> Seq<char> {
        match self {
            AirStatus::FinishedAiring => "Finished Airing"@,
            AirStatus::CurrentlyAiring => "Currently Airing"@,
            AirStatus::NotYetAired => "Not Yet Aired"@,
        }
    }

    /// The value that the service writes as `word`, if there is one.
    pub open spec fn of_word(word: Seq<char>) -> Option<AirStatus> {
        if word == "Finished Airing"@ {
            Some(AirStatus::FinishedAiring)
        } else if word == "Currently Airing"@ {
            Some(AirStatus::CurrentlyAiring)
        } else if word == "Not Yet Aired"@ {
            Some(AirStatus::NotYetAired)
        } else {
            None
        }
    }

    /// The word that the service writes for this value.
    pub fn as_str(&self) -> (r: &'static str)
        ensures
            r@ == self.word(),
    {
        match self {
            AirStatus::FinishedAiring => "Finished Airing",
            AirStatus::CurrentlyAiring => "Currently Airing",
            AirStatus::NotYetAired => "Not Yet Aired",
        }
    }

    /// The value that the service writes as `word`, if there is one.
    pub fn from_word(word: &str) -> (r: Option<AirStatus>)
        ensures
            r == Self::of_word(word@),
    {
        if same_text(word, "Finished Airing") {
            Some(AirStatus::FinishedAiring)
        } else if same_text(word, "Currently Airing") {
            Some(AirStatus::CurrentlyAiring)
        } else if same_text(word, "Not Yet Aired") {
            Some(AirStatus::NotYetAired)
        } else {
            None
        }
    }

    /// The words, each by its length and by the characters that tell it from the
    /// others of that length.
    proof fn lemma_names()
        ensures
            "Finished Airing"@.len() == 15,
            "Currently Airing"@.len() == 16,
            "Not Yet Aired"@.len() == 13,
    {
        reveal_strlit("Finished Airing");
        reveal_strlit("Currently Airing");
        reveal_strlit("Not Yet Aired");
    }
}

impl JsonCodec for AirStatus {
    open spec fn decode(j: Json) -> Reading<AirStatus> {
        match j {
            Json::String(word) => match Self::of_word(word) {
                Some(x) => Reading::Value(x),
                None => Reading::Mismatch(here()),
            },
            _ => Reading::Mismatch(here()),
        }
    }

    open spec fn encode(x: AirStatus) -> Json {
        Json::String(x.word())
    }

    proof fn round_trip(x: AirStatus) {
        Self::lemma_names();
    }

    proof fn null_is_refused() {
    }

    fn from_json(v: &Value) -> (r: Result<AirStatus, Mismatch>) {
        let word = match value_as_str(v) {
            Some(word) => word,
            None => return Err(Mismatch::here()),
        };
        match Self::from_word(word) {
            Some(x) => Ok(x),
            None => Err(Mismatch::here()),
        }
    }

    fn to_json(&self) -> (v: Value) {
        string_value(self.as_str().to_owned())
    }
}

/// The season in which an anime first aired.
#[derive(Debug, Clone, Copy, PartialEq, Eq)]
pub enum Season {
    Summer,
    Winter,
    Spring,
    Fall,
}

impl DeepView for Season {
    type V = Season;

    open spec fn deep_view(&self) -> Season {
        *self
    }
}

impl Season {
    /// The word that the service writes for this value.
    pub open spec fn word(self) -> Seq<char> {
        match self {
            Season::Summer => "summer"@,
            Season::Winter => "winter"@,
            Season::Spring => "spring"@,
            Season::Fall => "fall"@,
        }
    }

    /// The value that the service writes as `word`, if there is one.
    pub open spec fn of_word(word: Seq<char>) -> Option<Season> {
        if word == "summer"@ {
            Some(Season::Summer)
        } else if word == "winter"@ {
            Some(Season::Winter)
        } else if word == "spring"@ {
            Some(Season::Spring)
        } else if word == "fall"@ {
            Some(Season::Fall)
        } else {
            None
        }
    }

    /// The word that the service writes for this value.
    pub fn as_str(&self) -> (r: &'static str)
        ensures
            r@ == self.word(),
    {
        match self {
            Season::Summer => "summer",
            Season::Winter => "winter",
            Season::Spring => "spring",
            Season::Fall => "fall",
        }
    }

    /// The value that the service writes as `word`, if there is one.
    pub fn from_word(word: &str) -> (r: Option<Season>)
        ensures
            r == Self::of_word(word@),
    {
        if same_text(word, "summer") {
            Some(Season::Summer)
        } else if same_text(word, "winter") {
            Some(Season::Winter)
        } else if same_text(word, "spring") {
            Some(Season::Spring)
        } else if same_text(word, "fall") {
            Some(Season::Fall)
        } else {
            None
        }
    }

    /// The words, each by its length and by the characters that tell it from the
    /// others of that length.
    proof fn lemma_names()
        ensures
            "summer"@.len() == 6 && "summer"@[0] == 's' && "summer"@[1] == 'u',
            "winter"@.len() == 6 && "winter"@[0] == 'w',
            "spring"@.len() == 6 && "spring"@[0] == 's' && "spring"@[1] == 'p',
            "fall"@.len() == 4,
    {
        reveal_strlit("summer");
        reveal_strlit("winter");
        reveal_strlit("spring");
        reveal_strlit("fall");
    }
}

impl JsonCodec for Season {
    open spec fn decode(j: Json) -> Reading<Season> {
        match j {
            Json::String(word) => match Self::of_word(word) {
                Some(x) => Reading::Value(x),
                None => Reading::Mismatch(here()),
            },
            _ => Reading::Mismatch(here()),
        }
    }

    open spec fn encode(x: Season) -> Json {
        Json::String(x.word())
    }

    proof fn round_trip(x: Season) {
        Self::lemma_names();
    }

    proof fn null_is_refused() {
    }

    fn from_json(v: &Value) -> (r: Result<Season, Mismatch>) {
        let word = match value_as_str(v) {
            Some(word) => word,
            None => return Err(Mismatch::here()),
        };
        match Self::from_word(word) {
            Some(x) => Ok(x),
            None => Err(Mismatch::here()),
        }
    }

    fn to_json(&self) -> (v: Value) {
        string_value(self.as_str().to_owned())
    }
}

} // verus!
