use jikan::codec::{JsonCodec, Mismatch, Step};
use jikan::models::anime::time::{Aired, From, Prop};
use jikan::models::anime::{
    AirStatus, Anime, Broadcast, Character, CharacterDetails, Characters, ImageList, Images,
    MalUrl, Person, Score, Season, Trailer,
};
use jikan::models::{JikanAPIError, JikanResponse};
use serde_json::{Number, Value};

fn json(text: &str) -> Value {
    serde_json::from_str(text).unwrap()
}

/// The place of the mismatch of a reading that failed.
fn at<T: std::fmt::Debug>(reading: Result<T, Mismatch>) -> String {
    reading.unwrap_err().place()
}

fn object(members: &[(&str, Value)]) -> Value {
    let mut map = serde_json::Map::new();
    for (key, value) in members {
        map.insert(key.to_string(), value.clone());
    }
    Value::Object(map)
}

fn no_pictures() -> ImageList {
    ImageList {
        image_url: None,
        small_image_url: None,
        medium_image_url: None,
        large_image_url: None,
        maximum_image_url: None,
    }
}

fn unknown_date() -> From {
    From { day: None, month: None, year: None }
}

fn studio() -> MalUrl {
    MalUrl {
        mal_id: 14,
        url_type: "anime".to_string(),
        name: "Sunrise".to_string(),
        url: "https://myanimelist.net/anime/producer/14/Sunrise".to_string(),
    }
}

/// An anime with every member that may be absent absent.
fn bare() -> Anime {
    Anime {
        mal_id: 7,
        url: "https://myanimelist.net/anime/7".to_string(),
        images: no_pictures(),
        trailer: Trailer { youtube_id: None, url: None, embed_url: None, images: None },
        title: "Witch Hunter Robin".to_string(),
        title_english: None,
        title_japanese: None,
        title_synonyms: Vec::new(),
        data_type: "TV".to_string(),
        source: None,
        episodes: None,
        status: AirStatus::NotYetAired,
        airing: false,
        aired: Aired {
            from: None,
            to: None,
            prop: Prop { from: unknown_date(), to: unknown_date() },
            string: "Not available".to_string(),
        },
        duration: None,
        rating: None,
        score: None,
        scored_by: None,
        rank: None,
        popularity: None,
        members: None,
        favorites: None,
        synopsis: None,
        background: None,
        season: None,
        year: None,
        broadcast: Broadcast { day: None, time: None, timezone: None, string: None },
        producers: Vec::new(),
        licensors: Vec::new(),
        studios: Vec::new(),
        genres: Vec::new(),
        explicit_genres: Vec::new(),
        themes: Vec::new(),
        demographics: Vec::new(),
    }
}

/// An anime with every member present.
fn full() -> Anime {
    let pictures = ImageList {
        image_url: Some("a".to_string()),
        small_image_url: Some("b".to_string()),
        medium_image_url: Some("c".to_string()),
        large_image_url: Some("d".to_string()),
        maximum_image_url: Some("e".to_string()),
    };
    Anime {
        mal_id: u64::MAX,
        url: "https://myanimelist.net/anime/1".to_string(),
        images: pictures.clone(),
        trailer: Trailer {
            youtube_id: Some("id".to_string()),
            url: Some("url".to_string()),
            embed_url: Some("embed".to_string()),
            images: Some(pictures),
        },
        title: "Cowboy Bebop".to_string(),
        title_english: Some("Cowboy Bebop".to_string()),
        title_japanese: Some("カウボーイビバップ".to_string()),
        title_synonyms: vec!["Bebop".to_string(), "".to_string()],
        data_type: "TV".to_string(),
        source: Some("Manga".to_string()),
        episodes: Some(26),
        status: AirStatus::FinishedAiring,
        airing: true,
        aired: Aired {
            from: Some("1998-04-03T00:00:00+00:00".to_string()),
            to: Some("1999-04-24T00:00:00+00:00".to_string()),
            prop: Prop {
                from: From { day: Some(3), month: Some(4), year: Some(1998) },
                to: From { day: Some(24), month: Some(4), year: Some(-1999) },
            },
            string: "Apr 3, 1998 to Apr 24, 1999".to_string(),
        },
        duration: Some("24 min per ep".to_string()),
        rating: Some("R".to_string()),
        score: Some(Score(Number::from_f64(8.75).unwrap())),
        scored_by: Some(0),
        rank: Some(46),
        popularity: Some(43),
        members: Some(1),
        favorites: Some(2),
        synopsis: Some("Crime is timeless.".to_string()),
        background: Some("".to_string()),
        season: Some(Season::Spring),
        year: Some(1998),
        broadcast: Broadcast {
            day: Some("Saturdays".to_string()),
            time: Some("01:00".to_string()),
            timezone: Some("Asia/Tokyo".to_string()),
            string: Some("Saturdays at 01:00 (JST)".to_string()),
        },
        producers: vec![studio(), studio()],
        licensors: vec![studio()],
        studios: vec![studio()],
        genres: vec![MalUrl { mal_id: 0, ..studio() }],
        explicit_genres: vec![MalUrl { mal_id: 1, ..studio() }],
        themes: vec![MalUrl { mal_id: u64::MAX, ..studio() }],
        demographics: vec![MalUrl { name: "Shounen".to_string(), ..studio() }],
    }
}

#[test]
fn scalars() {
    assert_eq!(u64::from_json(&json("0")), Ok(0));
    assert_eq!(u64::from_json(&json("18446744073709551615")), Ok(u64::MAX));
    assert_eq!(at(u64::from_json(&json("18446744073709551616"))), "$");
    assert_eq!(at(u64::from_json(&json("-1"))), "$");
    assert_eq!(at(u64::from_json(&json("1.0"))), "$");
    assert_eq!(at(u64::from_json(&json("\"1\""))), "$");
    assert_eq!(at(u64::from_json(&json("null"))), "$");
    assert_eq!(i64::from_json(&json("-9223372036854775808")), Ok(i64::MIN));
    assert_eq!(i64::from_json(&json("9223372036854775807")), Ok(i64::MAX));
    assert_eq!(at(i64::from_json(&json("9223372036854775808"))), "$");
    assert_eq!(at(i64::from_json(&json("-0"))), "$");
    assert_eq!(at(i64::from_json(&json("1e2"))), "$");
    assert_eq!(u32::from_json(&json("4294967295")), Ok(u32::MAX));
    assert_eq!(at(u32::from_json(&json("4294967296"))), "$");
    assert_eq!(at(u32::from_json(&json("-1"))), "$");
    assert_eq!(bool::from_json(&json("true")), Ok(true));
    assert_eq!(bool::from_json(&json("false")), Ok(false));
    assert_eq!(at(bool::from_json(&json("0"))), "$");
    assert_eq!(at(bool::from_json(&json("null"))), "$");
    assert_eq!(String::from_json(&json("\"a\\u00e9\"")), Ok("aé".to_string()));
    assert_eq!(String::from_json(&json("\"\"")), Ok(String::new()));
    assert_eq!(at(String::from_json(&json("1"))), "$");
    assert_eq!(at(String::from_json(&json("null"))), "$");
}

#[test]
fn scalars_written() {
    assert_eq!(7u64.to_json(), json("7"));
    assert_eq!(u64::MAX.to_json(), json("18446744073709551615"));
    assert_eq!(7u32.to_json(), json("7"));
    assert_eq!((-7i64).to_json(), json("-7"));
    assert_eq!(7i64.to_json(), json("7"));
    assert_eq!(i64::MIN.to_json(), json("-9223372036854775808"));
    assert_eq!(true.to_json(), json("true"));
    assert_eq!(false.to_json(), json("false"));
    assert_eq!("a\"b".to_string().to_json(), json("\"a\\\"b\""));
    assert_eq!(String::new().to_json(), json("\"\""));
}

#[test]
fn lists() {
    assert_eq!(Vec::<u64>::from_json(&json("[]")), Ok(Vec::new()));
    assert_eq!(Vec::<u64>::from_json(&json("[3, 1, 2]")), Ok(vec![3, 1, 2]));
    assert_eq!(at(Vec::<u64>::from_json(&json("[3, -1, 2]"))), "$[1]");
    assert_eq!(at(Vec::<u64>::from_json(&json("[3, 1, null]"))), "$[2]");
    assert_eq!(at(Vec::<u64>::from_json(&json("[true, 1, null]"))), "$[0]");
    assert_eq!(at(Vec::<u64>::from_json(&json("{}"))), "$");
    assert_eq!(at(Vec::<u64>::from_json(&json("null"))), "$");
    assert_eq!(at(Vec::<u64>::from_json(&json("3"))), "$");
    assert_eq!(
        Vec::<Vec<String>>::from_json(&json("[[\"a\"], [], [\"b\", \"c\"]]")),
        Ok(vec![vec!["a".to_string()], vec![], vec!["b".to_string(), "c".to_string()]])
    );
    assert_eq!(at(Vec::<Vec<String>>::from_json(&json("[[\"a\"], [], [\"b\", 3, 4]]"))), "$[2][1]");
    assert_eq!(at(Vec::<Vec<String>>::from_json(&json("[[\"a\"], 0, [1]]"))), "$[1]");
    assert_eq!(vec![3u64, 1, 2].to_json(), json("[3, 1, 2]"));
    assert_eq!(Vec::<u64>::new().to_json(), json("[]"));
    assert_eq!(vec![vec![true], vec![]].to_json(), json("[[true], []]"));
}

#[test]
fn mismatches() {
    assert_eq!(Mismatch::here(), Mismatch { path: Vec::new() });
    let inner = Mismatch::here().under(Step::Item(3));
    assert_eq!(inner.path, vec![Step::Item(3)]);
    assert_eq!(inner.place(), "$[3]");
    let outer = inner.under(Step::Member("genres".to_string()));
    assert_eq!(outer.path, vec![Step::Member("genres".to_string()), Step::Item(3)]);
    assert_eq!(outer.place(), "$.genres[3]");
    assert_eq!(Mismatch::here().place(), "$");
    let far = Mismatch { path: vec![Step::Item(0), Step::Item(usize::MAX), Step::Item(10)] };
    assert_eq!(far.place(), format!("$[0][{}][10]", usize::MAX));
    let mut text = String::from("so far");
    Step::Member("a.b".to_string()).write(&mut text);
    Step::Item(907).write(&mut text);
    Step::Member(String::new()).write(&mut text);
    assert_eq!(text, "so far.a.b[907].");
}

#[test]
fn scores() {
    let score = Score::from_json(&json("8.75")).unwrap();
    assert_eq!(score.0.as_f64(), Some(8.75));
    assert_eq!(score.to_json(), json("8.75"));
    let whole = Score::from_json(&json("9")).unwrap();
    assert_eq!(whole.0.as_f64(), Some(9.0));
    assert_eq!(whole.0.as_u64(), Some(9));
    assert_eq!(whole.to_json(), json("9"));
    assert_eq!(Score::from_json(&json("-0.5")).unwrap().0.as_f64(), Some(-0.5));
    assert_eq!(at(Score::from_json(&json("\"8.75\""))), "$");
    assert_eq!(at(Score::from_json(&json("null"))), "$");
    assert_eq!(at(Score::from_json(&json("[8.75]"))), "$");
    assert_eq!(Score(Number::from(3u64)).to_json(), json("3"));
}

#[test]
fn words() {
    assert_eq!(AirStatus::from_json(&json("\"Finished Airing\"")), Ok(AirStatus::FinishedAiring));
    assert_eq!(AirStatus::from_json(&json("\"Currently Airing\"")), Ok(AirStatus::CurrentlyAiring));
    assert_eq!(AirStatus::from_json(&json("\"Not Yet Aired\"")), Ok(AirStatus::NotYetAired));
    assert_eq!(at(AirStatus::from_json(&json("\"finished airing\""))), "$");
    assert_eq!(at(AirStatus::from_json(&json("\"FinishedAiring\""))), "$");
    assert_eq!(at(AirStatus::from_json(&json("\"\""))), "$");
    assert_eq!(at(AirStatus::from_json(&json("0"))), "$");
    assert_eq!(at(AirStatus::from_json(&json("null"))), "$");
    assert_eq!(Season::from_json(&json("\"summer\"")), Ok(Season::Summer));
    assert_eq!(Season::from_json(&json("\"winter\"")), Ok(Season::Winter));
    assert_eq!(Season::from_json(&json("\"spring\"")), Ok(Season::Spring));
    assert_eq!(Season::from_json(&json("\"fall\"")), Ok(Season::Fall));
    assert_eq!(at(Season::from_json(&json("\"Fall\""))), "$");
    assert_eq!(at(Season::from_json(&json("\"autumn\""))), "$");
    assert_eq!(AirStatus::FinishedAiring.to_json(), json("\"Finished Airing\""));
    assert_eq!(AirStatus::CurrentlyAiring.to_json(), json("\"Currently Airing\""));
    assert_eq!(AirStatus::NotYetAired.to_json(), json("\"Not Yet Aired\""));
    assert_eq!(Season::Summer.to_json(), json("\"summer\""));
    assert_eq!(Season::Winter.as_str(), "winter");
    assert_eq!(Season::Spring.as_str(), "spring");
    assert_eq!(Season::Fall.to_json(), json("\"fall\""));
    assert_eq!(Season::from_word("fall"), Some(Season::Fall));
    assert_eq!(Season::from_word("falls"), None);
    assert_eq!(AirStatus::from_word("Not Yet Aired"), Some(AirStatus::NotYetAired));
    assert_eq!(AirStatus::from_word("Not Yet Aired "), None);
}

#[test]
fn a_reference() {
    let written = r#"{"mal_id": 14, "type": "anime", "name": "Sunrise",
        "url": "https://myanimelist.net/anime/producer/14/Sunrise"}"#;
    assert_eq!(MalUrl::from_json(&json(written)), Ok(studio()));
    assert_eq!(studio().to_json(), json(written));
    let read = |text: &str| at(MalUrl::from_json(&json(text)));
    assert_eq!(read(r#"{"mal_id": 14, "type": "anime", "name": "Sunrise"}"#), "$.url");
    assert_eq!(read(r#"{"mal_id": 14, "type": "anime", "name": "Sunrise", "url": null}"#), "$.url");
    assert_eq!(read(r#"{"mal_id": "14", "type": "anime", "name": "S", "url": "u"}"#), "$.mal_id");
    assert_eq!(read(r#"{"mal_id": 14, "url_type": "anime", "name": "S", "url": "u"}"#), "$.type");
    assert_eq!(read(r#"{"mal_id": 14, "type": "anime", "name": 5, "url": 6}"#), "$.name");
    assert_eq!(read(r#"{}"#), "$.mal_id");
    assert_eq!(read(r#"[14, "anime", "Sunrise", "u"]"#), "$");
    assert_eq!(read("null"), "$");
    let more = r#"{"mal_id": 3, "type": "", "name": "n", "url": "u", "extra": [1, 2]}"#;
    assert_eq!(
        MalUrl::from_json(&json(more)),
        Ok(MalUrl {
            mal_id: 3,
            url_type: String::new(),
            name: "n".to_string(),
            url: "u".to_string()
        })
    );
}

#[test]
fn identifiers_are_not_negative() {
    let read = |text: &str| at(MalUrl::from_json(&json(text)));
    assert_eq!(read(r#"{"mal_id": -1, "type": "", "name": "", "url": ""}"#), "$.mal_id");
    assert_eq!(
        read(r#"{"mal_id": -9223372036854775808, "type": "", "name": "", "url": ""}"#),
        "$.mal_id"
    );
    assert_eq!(read(r#"{"mal_id": 1.5, "type": "", "name": "", "url": ""}"#), "$.mal_id");
    assert_eq!(
        MalUrl::from_json(&json(r#"{"mal_id": 0, "type": "", "name": "", "url": ""}"#)),
        Ok(MalUrl { mal_id: 0, url_type: String::new(), name: String::new(), url: String::new() })
    );
    assert_eq!(
        MalUrl::from_json(&json(
            r#"{"mal_id": 18446744073709551615, "type": "", "name": "", "url": ""}"#
        ))
        .map(|reference| reference.mal_id),
        Ok(u64::MAX)
    );
    let lists = [
        "producers", "licensors", "studios", "genres", "explicit_genres", "themes",
        "demographics",
    ];
    for list in lists {
        let mut written = full().to_json();
        written[list] = json(
            r#"[{"mal_id": 5, "type": "", "name": "", "url": ""},
                {"mal_id": -1, "type": "", "name": "", "url": ""}]"#,
        );
        assert_eq!(at(Anime::from_json(&written)), format!("$.{}[1].mal_id", list));
    }
    let mut written = full().to_json();
    written["mal_id"] = json("-1");
    assert_eq!(at(Anime::from_json(&written)), "$.mal_id");
    let person = r#"{"mal_id": -11, "url": "", "images": {"jpg": {}}, "name": ""}"#;
    assert_eq!(at(Person::from_json(&json(person))), "$.mal_id");
    let character = r#"{"mal_id": -1, "url": "", "images": {"jpg": {}, "webp": {}}, "name": ""}"#;
    assert_eq!(at(CharacterDetails::from_json(&json(character))), "$.mal_id");
}

#[test]
fn members_that_may_be_absent() {
    assert_eq!(From::from_json(&json("{}")), Ok(unknown_date()));
    assert_eq!(
        From::from_json(&json(r#"{"day": null, "month": null, "year": null}"#)),
        Ok(unknown_date())
    );
    assert_eq!(
        From::from_json(&json(r#"{"month": 4, "year": null}"#)),
        Ok(From { day: None, month: Some(4), year: None })
    );
    assert_eq!(
        From::from_json(&json(r#"{"day": 3, "month": 4, "year": 1998}"#)),
        Ok(From { day: Some(3), month: Some(4), year: Some(1998) })
    );
    assert_eq!(at(From::from_json(&json(r#"{"day": "3"}"#))), "$.day");
    assert_eq!(at(From::from_json(&json(r#"{"year": 3.5}"#))), "$.year");
    assert_eq!(at(From::from_json(&json(r#"{"year": 3.5, "month": []}"#))), "$.month");
    assert_eq!(at(From::from_json(&json("[]"))), "$");
    assert_eq!(at(From::from_json(&json("3"))), "$");
    assert_eq!(at(From::from_json(&json("null"))), "$");
    assert_eq!(ImageList::from_json(&json("{}")), Ok(no_pictures()));
    assert_eq!(at(ImageList::from_json(&json("\"\""))), "$");
    assert_eq!(
        ImageList::from_json(&json(r#"{"jpg": {"image_url": "a"}, "large_image_url": "l"}"#)),
        Ok(ImageList { large_image_url: Some("l".to_string()), ..no_pictures() })
    );
    assert_eq!(
        Broadcast::from_json(&json(r#"{"day": "Saturdays", "time": null}"#)),
        Ok(Broadcast {
            day: Some("Saturdays".to_string()),
            time: None,
            timezone: None,
            string: None
        })
    );
    assert_eq!(at(Broadcast::from_json(&json(r#"{"timezone": 6}"#))), "$.timezone");
    assert_eq!(
        Trailer::from_json(&json(r#"{"images": {}}"#)),
        Ok(Trailer { youtube_id: None, url: None, embed_url: None, images: Some(no_pictures()) })
    );
    assert_eq!(at(Trailer::from_json(&json(r#"{"images": []}"#))), "$.images");
    assert_eq!(
        at(Trailer::from_json(&json(r#"{"images": {"small_image_url": 1}}"#))),
        "$.images.small_image_url"
    );
}

#[test]
fn absent_members_are_written_as_null() {
    assert_eq!(unknown_date().to_json(), json(r#"{"day": null, "month": null, "year": null}"#));
    assert_eq!(
        From { day: Some(3), month: None, year: Some(-5) }.to_json(),
        json(r#"{"day": 3, "month": null, "year": -5}"#)
    );
    assert_eq!(
        Trailer { youtube_id: None, url: None, embed_url: None, images: None }.to_json(),
        json(r#"{"youtube_id": null, "url": null, "embed_url": null, "images": null}"#)
    );
}

#[test]
fn air_dates() {
    let written = r#"{
        "from": "1998-04-03T00:00:00+00:00",
        "to": null,
        "prop": {"from": {"day": 3, "month": 4, "year": 1998}, "to": {}},
        "string": "Apr 3, 1998 to ?"
    }"#;
    let aired = Aired::from_json(&json(written)).unwrap();
    assert_eq!(aired.from.as_deref(), Some("1998-04-03T00:00:00+00:00"));
    assert_eq!(aired.to, None);
    assert_eq!(aired.prop.from, From { day: Some(3), month: Some(4), year: Some(1998) });
    assert_eq!(aired.prop.to, unknown_date());
    assert_eq!(aired.string, "Apr 3, 1998 to ?");
    let read = |text: &str| at(Aired::from_json(&json(text)));
    assert_eq!(read(r#"{"prop": {"from": {}, "to": {}}}"#), "$.string");
    assert_eq!(read(r#"{"prop": {"from": {}}, "string": ""}"#), "$.prop.to");
    assert_eq!(
        read(r#"{"prop": {"from": {"day": 1, "year": "1998"}, "to": 3}, "string": ""}"#),
        "$.prop.from.year"
    );
    assert_eq!(read(r#"{"string": ""}"#), "$.prop");
    assert_eq!(read(r#"{"from": 1998, "to": 1999}"#), "$.from");
    assert_eq!(at(Prop::from_json(&json(r#"{"from": {}, "to": null}"#))), "$.to");
    assert_eq!(Aired::from_json(&aired.to_json()), Ok(aired));
}

#[test]
fn pictures() {
    let images = Images::from_json(&json(r#"{"jpg": {"image_url": "j"}, "webp": {}}"#)).unwrap();
    assert_eq!(images.jpg.image_url.as_deref(), Some("j"));
    assert_eq!(images.webp, no_pictures());
    assert_eq!(at(Images::from_json(&json(r#"{"jpg": {"image_url": "j"}}"#))), "$.webp");
    assert_eq!(Images::from_json(&images.to_json()), Ok(images));
}

#[test]
fn the_record_of_a_refusal() {
    let written = r#"{"status": 404, "type": "BadResponseException",
        "message": "Resource does not exist", "error": "404 on https://myanimelist.net/anime/2/"}"#;
    let refusal = JikanAPIError::from_json(&json(written)).unwrap();
    assert_eq!(refusal.status, 404);
    assert_eq!(refusal.error_type, "BadResponseException");
    assert_eq!(refusal.message, "Resource does not exist");
    assert_eq!(refusal.error, "404 on https://myanimelist.net/anime/2/");
    assert_eq!(refusal.to_json(), json(written));
    let read = |text: &str| at(JikanAPIError::from_json(&json(text)));
    assert_eq!(read(r#"{"status": 404, "type": "t", "message": "m"}"#), "$.error");
    assert_eq!(read(r#"{"status": "404", "type": "t", "message": "m", "error": "e"}"#), "$.status");
    assert_eq!(
        read(r#"{"status": 4294967296, "type": "t", "message": "m", "error": "e"}"#),
        "$.status"
    );
    assert_eq!(read(r#"{"data": {}}"#), "$.status");
}

#[test]
fn envelopes() {
    assert_eq!(
        JikanResponse::<u64>::from_json(&json(r#"{"data": 3}"#)),
        Ok(JikanResponse { data: 3 })
    );
    assert_eq!(
        JikanResponse::<u64>::from_json(&json(r#"{"data": 3, "pagination": {}}"#)),
        Ok(JikanResponse { data: 3 })
    );
    let read = |text: &str| at(JikanResponse::<Vec<u64>>::from_json(&json(text)));
    assert_eq!(read(r#"{"data": null}"#), "$.data");
    assert_eq!(read(r#"{}"#), "$.data");
    assert_eq!(read(r#"{"Data": [3]}"#), "$.data");
    assert_eq!(read(r#"{"data": [3, 4, "5"]}"#), "$.data[2]");
    assert_eq!(read("3"), "$");
    assert_eq!(JikanResponse { data: vec![1u64] }.to_json(), json(r#"{"data": [1]}"#));
}

#[test]
fn an_anime_without_what_may_be_absent() {
    let written = r#"{
        "mal_id": 7, "url": "https://myanimelist.net/anime/7", "images": {}, "trailer": {},
        "title": "Witch Hunter Robin", "title_synonyms": [], "type": "TV",
        "status": "Not Yet Aired", "airing": false,
        "aired": {"prop": {"from": {}, "to": {}}, "string": "Not available"},
        "broadcast": {}, "producers": [], "licensors": [], "studios": [], "genres": [],
        "explicit_genres": [], "themes": [], "demographics": []
    }"#;
    assert_eq!(Anime::from_json(&json(written)), Ok(bare()));
}

#[test]
fn each_member_that_must_be_present() {
    let whole = full().to_json();
    assert_eq!(Anime::from_json(&whole), Ok(full()));
    let required = [
        "mal_id", "url", "images", "trailer", "title", "title_synonyms", "type", "status",
        "airing", "aired", "broadcast", "producers", "licensors", "studios", "genres",
        "explicit_genres", "themes", "demographics",
    ];
    for key in required {
        let mut lacking = whole.clone();
        lacking.as_object_mut().unwrap().remove(key);
        assert_eq!(at(Anime::from_json(&lacking)), format!("$.{}", key));
        let mut null = whole.clone();
        null.as_object_mut().unwrap().insert(key.to_string(), Value::Null);
        assert_eq!(at(Anime::from_json(&null)), format!("$.{}", key));
    }
}

#[test]
fn each_member_that_may_be_absent() {
    let whole = full().to_json();
    let cleared: [(&str, fn(&mut Anime)); 16] = [
        ("title_english", |a| a.title_english = None),
        ("title_japanese", |a| a.title_japanese = None),
        ("source", |a| a.source = None),
        ("episodes", |a| a.episodes = None),
        ("duration", |a| a.duration = None),
        ("rating", |a| a.rating = None),
        ("score", |a| a.score = None),
        ("scored_by", |a| a.scored_by = None),
        ("rank", |a| a.rank = None),
        ("popularity", |a| a.popularity = None),
        ("members", |a| a.members = None),
        ("favorites", |a| a.favorites = None),
        ("synopsis", |a| a.synopsis = None),
        ("background", |a| a.background = None),
        ("season", |a| a.season = None),
        ("year", |a| a.year = None),
    ];
    for (key, clear) in &cleared {
        let mut expected = full();
        clear(&mut expected);
        let mut lacking = whole.clone();
        lacking.as_object_mut().unwrap().remove(*key);
        assert_eq!(Anime::from_json(&lacking).as_ref(), Ok(&expected), "{}", key);
        let mut null = whole.clone();
        null.as_object_mut().unwrap().insert(key.to_string(), Value::Null);
        assert_eq!(Anime::from_json(&null).as_ref(), Ok(&expected), "{}", key);
        let mut wrong = whole.clone();
        wrong.as_object_mut().unwrap().insert(key.to_string(), Value::Array(Vec::new()));
        assert_eq!(at(Anime::from_json(&wrong)), format!("$.{}", key));
    }
}

#[test]
fn the_first_mismatch_is_the_one_reported() {
    let mut written = full().to_json();
    written["demographics"] = json("[{}]");
    assert_eq!(at(Anime::from_json(&written)), "$.demographics[0].mal_id");
    written["genres"] = json("7");
    assert_eq!(at(Anime::from_json(&written)), "$.genres");
    written["aired"]["prop"]["to"]["month"] = json("\"April\"");
    assert_eq!(at(Anime::from_json(&written)), "$.aired.prop.to.month");
    written["title_synonyms"] = json(r#"["a", "b", null]"#);
    assert_eq!(at(Anime::from_json(&written)), "$.title_synonyms[2]");
    written.as_object_mut().unwrap().remove("mal_id");
    assert_eq!(at(Anime::from_json(&written)), "$.mal_id");
    assert_eq!(at(Anime::from_json(&json("[]"))), "$");
}

#[test]
fn an_anime_is_written_member_by_member() {
    let written = bare().to_json();
    let members = written.as_object().unwrap();
    assert_eq!(members.len(), 34);
    assert_eq!(members["mal_id"], json("7"));
    assert_eq!(members["type"], json("\"TV\""));
    assert_eq!(members["status"], json("\"Not Yet Aired\""));
    assert_eq!(members["airing"], json("false"));
    assert_eq!(members["score"], Value::Null);
    assert_eq!(members["title_synonyms"], json("[]"));
    assert_eq!(
        members["aired"],
        object(&[
            ("from", Value::Null),
            ("to", Value::Null),
            (
                "prop",
                object(&[
                    ("from", json(r#"{"day": null, "month": null, "year": null}"#)),
                    ("to", json(r#"{"day": null, "month": null, "year": null}"#)),
                ])
            ),
            ("string", json("\"Not available\"")),
        ])
    );
    let written = full().to_json();
    assert_eq!(written["score"], json("8.75"));
    assert_eq!(written["season"], json("\"spring\""));
    assert_eq!(written["genres"][0]["mal_id"], json("0"));
    assert_eq!(written["themes"][0]["mal_id"], json("18446744073709551615"));
    assert_eq!(written["trailer"]["images"]["maximum_image_url"], json("\"e\""));
    assert_eq!(written["title_synonyms"], json(r#"["Bebop", ""]"#));
}

#[test]
fn what_was_read_can_be_written_and_read_again() {
    for anime in [bare(), full()] {
        let written = anime.to_json();
        let read = Anime::from_json(&written).unwrap();
        assert_eq!(read, anime);
        assert_eq!(read.to_json(), written);
        let text = serde_json::to_vec(&written).unwrap();
        let parsed: Value = serde_json::from_slice(&text).unwrap();
        assert_eq!(Anime::from_json(&parsed), Ok(anime));
    }
}

#[test]
fn characters() {
    let written = r#"[
      {
        "character": {
          "mal_id": 1,
          "url": "https://myanimelist.net/character/1/Spike_Spiegel",
          "images": {
            "jpg": {"image_url": "https://cdn.myanimelist.net/images/characters/11/516853.jpg"},
            "webp": {"image_url": "w", "small_image_url": "s"}
          },
          "name": "Spike Spiegel"
        },
        "role": "Main",
        "favorites": 48000,
        "voice_actors": [
          {
            "person": {
              "mal_id": 11,
              "url": "https://myanimelist.net/people/11/Kouichi_Yamadera",
              "images": {"jpg": {"image_url": null}},
              "name": "Yamadera, Kouichi"
            },
            "language": "Japanese"
          }
        ]
      },
      {
        "character": {"mal_id": 2, "url": "u", "images": {"jpg": {}, "webp": {}}, "name": "Faye"},
        "role": "Main",
        "voice_actors": []
      }
    ]"#;
    let characters: Characters = Characters::from_json(&json(written)).unwrap();
    assert_eq!(characters.len(), 2);
    let spike: &Character = &characters[0];
    assert_eq!(spike.character.mal_id, 1);
    assert_eq!(spike.character.name, "Spike Spiegel");
    assert_eq!(spike.character.images.jpg.small_image_url, None);
    assert_eq!(spike.character.images.webp.small_image_url.as_deref(), Some("s"));
    assert_eq!(spike.role, "Main");
    assert_eq!(spike.voice_actors.len(), 1);
    assert_eq!(spike.voice_actors[0].language, "Japanese");
    assert_eq!(spike.voice_actors[0].person.mal_id, 11);
    assert_eq!(spike.voice_actors[0].person.name, "Yamadera, Kouichi");
    assert_eq!(spike.voice_actors[0].person.images.jpg.image_url, None);
    assert!(characters[1].voice_actors.is_empty());
    assert_eq!(Characters::from_json(&characters.to_json()), Ok(characters));
    let without_role = r#"[{"character": {"mal_id": 2, "url": "u",
        "images": {"jpg": {}, "webp": {}}, "name": "Faye"}, "voice_actors": []}]"#;
    assert_eq!(at(Characters::from_json(&json(without_role))), "$[0].role");
    let number_too_large = r#"[{"character": {"mal_id": 4294967296, "url": "u",
        "images": {"jpg": {}, "webp": {}}, "name": "Faye"}, "role": "", "voice_actors": []}]"#;
    assert_eq!(at(Characters::from_json(&json(number_too_large))), "$[0].character.mal_id");
    let voice_without_picture = r#"[{"character": {"mal_id": 2, "url": "u",
        "images": {"jpg": {}, "webp": {}}, "name": "Faye"}, "role": "", "voice_actors": [
        {"person": {"mal_id": 1, "url": "", "images": {}, "name": ""}, "language": ""}]}]"#;
    assert_eq!(
        at(Characters::from_json(&json(voice_without_picture))),
        "$[0].voice_actors[0].person.images.jpg"
    );
}
