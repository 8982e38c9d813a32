use jikan::codec::{Mismatch, Step};
use jikan::models::anime::{AirStatus, Season};
use jikan::request::{Method, Request};
use jikan::{
    anime_path, anime_reply, classify, conclude, parse_json_response, Canned, HttpError,
    JikanClient, JikanError, JsonError, Response, Transport, DEFAULT_API_URL,
};
use std::cell::RefCell;

const COWBOY_BEBOP: &str = r#"{
  "data": {
    "mal_id": 1,
    "url": "https://myanimelist.net/anime/1/Cowboy_Bebop",
    "images": {
      "jpg": {
        "image_url": "https://cdn.myanimelist.net/images/anime/4/19644.jpg",
        "small_image_url": "https://cdn.myanimelist.net/images/anime/4/19644t.jpg",
        "large_image_url": "https://cdn.myanimelist.net/images/anime/4/19644l.jpg"
      },
      "webp": {
        "image_url": "https://cdn.myanimelist.net/images/anime/4/19644.webp",
        "small_image_url": "https://cdn.myanimelist.net/images/anime/4/19644t.webp",
        "large_image_url": "https://cdn.myanimelist.net/images/anime/4/19644l.webp"
      }
    },
    "trailer": {
      "youtube_id": "gY5nDXOtv_o",
      "url": "https://www.youtube.com/watch?v=gY5nDXOtv_o",
      "embed_url": "https://www.youtube.com/embed/gY5nDXOtv_o",
      "images": {
        "image_url": "https://img.youtube.com/vi/gY5nDXOtv_o/default.jpg",
        "small_image_url": "https://img.youtube.com/vi/gY5nDXOtv_o/sddefault.jpg",
        "medium_image_url": "https://img.youtube.com/vi/gY5nDXOtv_o/mqdefault.jpg",
        "large_image_url": "https://img.youtube.com/vi/gY5nDXOtv_o/hqdefault.jpg",
        "maximum_image_url": "https://img.youtube.com/vi/gY5nDXOtv_o/maxresdefault.jpg"
      }
    },
    "approved": true,
    "titles": [{"type": "Default", "title": "Cowboy Bebop"}],
    "title": "Cowboy Bebop",
    "title_english": "Cowboy Bebop",
    "title_japanese": "カウボーイビバップ",
    "title_synonyms": [],
    "type": "TV",
    "source": "Manga",
    "episodes": 26,
    "status": "Finished Airing",
    "airing": false,
    "aired": {
      "from": "1998-04-03T00:00:00+00:00",
      "to": "1999-04-24T00:00:00+00:00",
      "prop": {
        "from": {"day": 3, "month": 4, "year": 1998},
        "to": {"day": 24, "month": 4, "year": 1999}
      },
      "string": "Apr 3, 1998 to Apr 24, 1999"
    },
    "duration": "24 min per ep",
    "rating": "R - 17+ (violence & profanity)",
    "score": 8.75,
    "scored_by": 988000,
    "rank": 46,
    "popularity": 43,
    "members": 1900000,
    "favorites": 83000,
    "synopsis": "Crime is timeless.",
    "background": null,
    "season": "spring",
    "year": 1998,
    "broadcast": {
      "day": "Saturdays",
      "time": "01:00",
      "timezone": "Asia/Tokyo",
      "string": "Saturdays at 01:00 (JST)"
    },
    "producers": [
      {"mal_id": 23, "type": "anime", "name": "Bandai Visual", "url": "https://myanimelist.net/anime/producer/23/Bandai_Visual"}
    ],
    "licensors": [
      {"mal_id": 102, "type": "anime", "name": "Funimation", "url": "https://myanimelist.net/anime/producer/102/Funimation"}
    ],
    "studios": [
      {"mal_id": 14, "type": "anime", "name": "Sunrise", "url": "https://myanimelist.net/anime/producer/14/Sunrise"}
    ],
    "genres": [
      {"mal_id": 1, "type": "anime", "name": "Action", "url": "https://myanimelist.net/anime/genre/1/Action"},
      {"mal_id": 24, "type": "anime", "name": "Sci-Fi", "url": "https://myanimelist.net/anime/genre/24/Sci-Fi"}
    ],
    "explicit_genres": [],
    "themes": [
      {"mal_id": 29, "type": "anime", "name": "Space", "url": "https://myanimelist.net/anime/genre/29/Space"}
    ],
    "demographics": []
  }
}"#;

const NOT_FOUND: &str = r#"{"status":404,"type":"BadResponseException","message":"Resource does not exist","error":"404 on https://myanimelist.net/anime/2/"}"#;

/// A transport that answers every request with one reply, and keeps what it was asked.
struct Recorder {
    reply: Result<Response, HttpError>,
    asked: RefCell<Vec<(String, Request)>>,
}

impl Recorder {
    fn answering(status: u16, body: &str) -> Recorder {
        Recorder {
            reply: Ok(Response { status, body: body.as_bytes().to_vec() }),
            asked: RefCell::new(Vec::new()),
        }
    }

    fn failing(report: &str) -> Recorder {
        Recorder {
            reply: Err(HttpError::Transport(report.to_string())),
            asked: RefCell::new(Vec::new()),
        }
    }
}

impl Transport for Recorder {
    fn send(&self, url: &str, request: &Request) -> Result<Response, HttpError> {
        self.asked.borrow_mut().push((url.to_string(), request.clone()));
        self.reply.clone()
    }
}

/// A transport that answers by the address it is asked for.
struct Catalogue;

impl Transport for Catalogue {
    fn send(&self, url: &str, _request: &Request) -> Result<Response, HttpError> {
        if url == "http://catalogue/anime/1" {
            Ok(Response { status: 200, body: COWBOY_BEBOP.as_bytes().to_vec() })
        } else {
            Ok(Response { status: 404, body: NOT_FOUND.as_bytes().to_vec() })
        }
    }
}

impl Default for Catalogue {
    fn default() -> Catalogue {
        Catalogue
    }
}

fn client(transport: Recorder) -> JikanClient<Recorder> {
    JikanClient::new(DEFAULT_API_URL.to_string(), transport)
}

#[test]
fn cowboy_bebop() {
    let client = client(Recorder::answering(200, COWBOY_BEBOP));
    let response = client.get_anime_by_id(1);
    assert!(response.is_ok());

    if let Ok(anime) = response {
        assert_eq!(anime.title, "Cowboy Bebop");
        assert_eq!(anime.year, Some(1998));
    }
}

#[test]
fn cowboy_bebop_in_full() {
    let anime = client(Recorder::answering(200, COWBOY_BEBOP)).get_anime_by_id(1).unwrap();
    assert_eq!(anime.mal_id, 1);
    assert_eq!(anime.url, "https://myanimelist.net/anime/1/Cowboy_Bebop");
    assert_eq!(anime.title_english.as_deref(), Some("Cowboy Bebop"));
    assert_eq!(anime.title_japanese.as_deref(), Some("カウボーイビバップ"));
    assert!(anime.title_synonyms.is_empty());
    assert_eq!(anime.data_type, "TV");
    assert_eq!(anime.episodes, Some(26));
    assert_eq!(anime.status, AirStatus::FinishedAiring);
    assert!(!anime.airing);
    assert_eq!(anime.aired.prop.from.year, Some(1998));
    assert_eq!(anime.aired.prop.to.day, Some(24));
    assert_eq!(anime.aired.string, "Apr 3, 1998 to Apr 24, 1999");
    assert_eq!(anime.score.as_ref().and_then(|score| score.0.as_f64()), Some(8.75));
    assert_eq!(anime.rank, Some(46));
    assert_eq!(anime.background, None);
    assert_eq!(anime.season, Some(Season::Spring));
    assert_eq!(anime.broadcast.timezone.as_deref(), Some("Asia/Tokyo"));
    assert_eq!(anime.trailer.youtube_id.as_deref(), Some("gY5nDXOtv_o"));
    assert_eq!(
        anime.trailer.images.as_ref().and_then(|images| images.medium_image_url.as_deref()),
        Some("https://img.youtube.com/vi/gY5nDXOtv_o/mqdefault.jpg")
    );
    assert_eq!(anime.images.image_url, None);
    assert_eq!(anime.genres.len(), 2);
    assert_eq!(anime.genres[1].mal_id, 24);
    assert_eq!(anime.genres[1].url_type, "anime");
    assert_eq!(anime.genres[1].name, "Sci-Fi");
    assert_eq!(anime.studios[0].name, "Sunrise");
    assert!(anime.demographics.is_empty());
}

#[test]
fn the_request_that_is_sent() {
    let client = client(Recorder::answering(200, COWBOY_BEBOP));
    client.get_anime_by_id(1).unwrap();
    let asked = client.http_client().asked.borrow();
    assert_eq!(asked.len(), 1);
    let (url, request) = &asked[0];
    assert_eq!(url, "https://api.jikan.moe/v4/anime/1");
    assert_eq!(request.method, Method::Get);
    assert_eq!(request.path, "anime/1");
    assert_eq!(request.body, None);
    assert_eq!(request.headers.len(), 1);
    assert_eq!(request.headers[0].name, "User-Agent");
    assert_eq!(request.headers[0].value, "jikan-rust (https://jikan.moe, 0.1.0)");
}

#[test]
fn an_anime_that_does_not_exist() {
    let client = client(Recorder::answering(404, NOT_FOUND));
    match client.get_anime_by_id(2) {
        Err(JikanError::API(e)) => {
            assert_eq!(e.status, 404);
            assert_eq!(e.error_type, "BadResponseException");
            assert_eq!(e.message, "Resource does not exist");
            assert_eq!(e.error, "404 on https://myanimelist.net/anime/2/");
        }
        other => panic!("{:?}", other),
    }
}

#[test]
fn an_empty_base_address_sends_nothing() {
    let client = client(Recorder::answering(200, COWBOY_BEBOP)).with_api_url(String::new());
    for id in [0, 1, 2, u32::MAX] {
        assert!(matches!(
            client.get_anime_by_id(id),
            Err(JikanError::Http(HttpError::InvalidUrl))
        ));
        assert!(matches!(
            client.try_request(anime_path(id)),
            Err(JikanError::Http(HttpError::InvalidUrl))
        ));
        assert!(matches!(
            client.anime_request(id),
            Err(JikanError::Http(HttpError::InvalidUrl))
        ));
    }
    assert!(client.http_client().asked.borrow().is_empty());
}

#[test]
fn a_base_address_that_makes_no_address_sends_nothing() {
    for base in ["not a url", "http://a b", "http://[::1", "http://catalogue/%zz y", " "] {
        let client = client(Recorder::answering(200, COWBOY_BEBOP)).with_api_url(base.to_string());
        assert!(!client.can_reach("anime/1"), "{}", base);
        assert!(
            matches!(client.get_anime_by_id(1), Err(JikanError::Http(HttpError::InvalidUrl))),
            "{}",
            base
        );
        assert!(matches!(
            client.try_request(anime_path(1)),
            Err(JikanError::Http(HttpError::InvalidUrl))
        ));
        assert!(matches!(
            client.anime_request(1),
            Err(JikanError::Http(HttpError::InvalidUrl))
        ));
        assert!(client.http_client().asked.borrow().is_empty());
    }
}

#[test]
fn a_path_that_makes_no_address_sends_nothing() {
    let client = client(Recorder::answering(200, COWBOY_BEBOP));
    assert!(client.can_reach("anime/1"));
    assert!(client.can_reach("anime?q=bebop"));
    assert!(!client.can_reach("anime 1"));
    assert!(matches!(
        client.try_request("anime 1".to_string()),
        Err(JikanError::Http(HttpError::InvalidUrl))
    ));
    assert!(matches!(
        client.request("an\u{7f}ime".to_string()),
        Err(JikanError::Http(HttpError::InvalidUrl))
    ));
    assert!(client.http_client().asked.borrow().is_empty());
    assert!(client.try_request("anime/1".to_string()).is_ok());
    assert_eq!(client.http_client().asked.borrow().len(), 1);
    let nowhere = client.with_api_url(String::new());
    assert!(!nowhere.can_reach("anime/1"));
}

#[test]
fn a_negative_identifier_is_a_parse_error() {
    let broken = COWBOY_BEBOP.replace("\"mal_id\": 23,", "\"mal_id\": -23,");
    assert_ne!(broken, COWBOY_BEBOP);
    match anime_reply(Ok(Response { status: 200, body: broken.into_bytes() })) {
        Err(JikanError::Json(JsonError::Shape(mismatch))) => {
            assert_eq!(mismatch.place(), "$.data.producers[0].mal_id")
        }
        other => panic!("{:?}", other),
    }
}

#[test]
fn a_refusal_under_a_status_of_success_is_a_parse_error() {
    for status in [200, 204, 299] {
        let client = client(Recorder::answering(status, NOT_FOUND));
        assert!(matches!(
            client.get_anime_by_id(2),
            Err(JikanError::Json(JsonError::Shape(_)))
        ));
    }
}

#[test]
fn what_a_parse_error_says() {
    let client = client(Recorder::answering(200, NOT_FOUND));
    match client.get_anime_by_id(2) {
        Err(JikanError::Json(JsonError::Shape(mismatch))) => {
            assert_eq!(mismatch.path, vec![Step::Member("data".to_string())])
        }
        other => panic!("{:?}", other),
    }
    let broken = COWBOY_BEBOP.replace("\"year\": 1999", "\"year\": \"1999\"");
    assert_ne!(broken, COWBOY_BEBOP);
    match anime_reply(Ok(Response { status: 200, body: broken.into_bytes() })) {
        Err(JikanError::Json(JsonError::Shape(mismatch))) => assert_eq!(
            mismatch.path,
            ["data", "aired", "prop", "to", "year"].map(|name| Step::Member(name.to_string()))
        ),
        other => panic!("{:?}", other),
    }
    match anime_reply(Ok(Response { status: 503, body: COWBOY_BEBOP.as_bytes().to_vec() })) {
        Err(JikanError::Json(JsonError::Shape(mismatch))) => {
            assert_eq!(mismatch.path, vec![Step::Member("status".to_string())])
        }
        other => panic!("{:?}", other),
    }
}

#[test]
fn a_payload_under_a_status_of_failure_is_a_parse_error() {
    for status in [199, 300, 404, 500] {
        let client = client(Recorder::answering(status, COWBOY_BEBOP));
        assert!(matches!(
            client.get_anime_by_id(1),
            Err(JikanError::Json(JsonError::Shape(_)))
        ));
    }
}

#[test]
fn a_body_that_is_not_json() {
    for status in [200, 404] {
        let client = client(Recorder::answering(status, "<html>Bad Gateway</html>"));
        assert!(matches!(
            client.get_anime_by_id(1),
            Err(JikanError::Json(JsonError::Syntax(_)))
        ));
        let client = client_with_body(status, Vec::new());
        assert!(matches!(
            client.get_anime_by_id(1),
            Err(JikanError::Json(JsonError::Syntax(_)))
        ));
    }
}

fn client_with_body(status: u16, body: Vec<u8>) -> JikanClient<Recorder> {
    JikanClient::new(
        DEFAULT_API_URL.to_string(),
        Recorder { reply: Ok(Response { status, body }), asked: RefCell::new(Vec::new()) },
    )
}

#[test]
fn a_body_that_is_not_utf8() {
    let mut body = NOT_FOUND.as_bytes().to_vec();
    let at = body.iter().position(|b| *b == b'R').unwrap();
    body[at] = 0xff;
    assert!(matches!(
        client_with_body(404, body).get_anime_by_id(1),
        Err(JikanError::Json(JsonError::Syntax(_)))
    ));
    assert!(matches!(
        client_with_body(200, vec![0xff, 0xfe]).get_anime_by_id(1),
        Err(JikanError::Json(JsonError::Syntax(_)))
    ));
}

#[test]
fn a_canned_transport() {
    let request = Request::builder().path("anime/1".to_string()).build().unwrap();
    let answer = Response { status: 200, body: COWBOY_BEBOP.as_bytes().to_vec() };
    let canned = Canned { reply: Ok(answer.clone()) };
    assert_eq!(canned.send("http://one", &request), Ok(answer.clone()));
    assert_eq!(canned.send("http://two", &request), Ok(answer));
    let client = JikanClient::new("http://catalogue".to_string(), canned);
    assert_eq!(client.get_anime_by_id(1).unwrap().title, "Cowboy Bebop");
    assert_eq!(client.get_anime_by_id(5).unwrap().mal_id, 1);
    let refusing = Canned { reply: Ok(Response { status: 404, body: NOT_FOUND.into() }) };
    let client = client.with_http_client(refusing);
    assert!(matches!(client.get_anime_by_id(1), Err(JikanError::API(e)) if e.status == 404));
    let failing = Canned { reply: Err(HttpError::Transport("no route".to_string())) };
    assert_eq!(failing.send("", &request), Err(HttpError::Transport("no route".to_string())));
    let unaddressed = Canned { reply: Err(HttpError::InvalidUrl) };
    assert_eq!(unaddressed.send("", &request), Err(HttpError::InvalidUrl));
    let client = client.with_http_client(failing);
    assert!(matches!(
        client.get_anime_by_id(1),
        Err(JikanError::Http(HttpError::Transport(report))) if report == "no route"
    ));
}

#[test]
fn a_transport_that_fails() {
    let client = client(Recorder::failing("connection refused"));
    match client.get_anime_by_id(1) {
        Err(JikanError::Http(HttpError::Transport(report))) => {
            assert_eq!(report, "connection refused")
        }
        other => panic!("{:?}", other),
    }
    match client.try_request("anime/1".to_string()) {
        Err(JikanError::Http(HttpError::Transport(report))) => {
            assert_eq!(report, "connection refused")
        }
        other => panic!("{:?}", other),
    }
}

#[test]
fn try_request_hands_back_the_answer() {
    let client = client(Recorder::answering(418, "short and stout"));
    let res = client.try_request("teapot".to_string()).unwrap();
    assert_eq!(res.status, 418);
    assert_eq!(res.body, b"short and stout".to_vec());
    let asked = client.http_client().asked.borrow();
    assert_eq!(asked[0].0, "https://api.jikan.moe/v4/teapot");
    assert_eq!(asked[0].1.path, "teapot");
}

#[test]
fn paths_of_anime() {
    assert_eq!(anime_path(0), "anime/0");
    assert_eq!(anime_path(1), "anime/1");
    assert_eq!(anime_path(9), "anime/9");
    assert_eq!(anime_path(10), "anime/10");
    assert_eq!(anime_path(1000), "anime/1000");
    assert_eq!(anime_path(52991), "anime/52991");
    assert_eq!(anime_path(u32::MAX), "anime/4294967295");
}

#[test]
fn addresses() {
    let client = JikanClient::new("http://localhost:8080/v4".to_string(), ());
    assert_eq!(client.address("anime/1"), "http://localhost:8080/v4/anime/1");
    assert_eq!(client.address(""), "http://localhost:8080/v4/");
}

#[test]
fn reconfiguring() {
    let client = JikanClient::new("http://one".to_string(), 1u8);
    assert_eq!(*client.http_client(), 1);
    let client = client.with_api_url("http://two".to_string());
    assert_eq!(*client.http_client(), 1);
    let client = client.with_http_client(2u8);
    assert_eq!(*client.http_client(), 2);
    assert_eq!(client.clone().api_url(), "http://two");
    assert_eq!(client.api_url(), "http://two");
}

#[test]
fn the_default_client() {
    let client: JikanClient<Catalogue> = JikanClient::default();
    assert_eq!(client.api_url(), "https://api.jikan.moe/v4");
    assert_eq!(DEFAULT_API_URL, "https://api.jikan.moe/v4");
}

#[test]
fn planned_requests() {
    let client = JikanClient::new("http://catalogue".to_string(), ());
    let request = client.anime_request(20).unwrap();
    assert_eq!(request.method, Method::Get);
    assert_eq!(request.path, "anime/20");
    assert_eq!(request.headers.len(), 1);
    assert_eq!(request.headers[0].name, "User-Agent");
    assert_eq!(request.body, None);
    let request = client.request("genres/anime".to_string()).unwrap();
    assert_eq!(request.path, "genres/anime");
    assert_eq!(client.address(&request.path), "http://catalogue/genres/anime");
}

#[test]
fn replies_read_without_a_client() {
    let reply = Ok(Response { status: 200, body: COWBOY_BEBOP.as_bytes().to_vec() });
    assert_eq!(anime_reply(reply).unwrap().title, "Cowboy Bebop");
    let reply = Ok(Response { status: 404, body: NOT_FOUND.as_bytes().to_vec() });
    assert!(matches!(anime_reply(reply), Err(JikanError::API(e)) if e.status == 404));
    let reply = Err(HttpError::Transport("timed out".to_string()));
    assert!(matches!(
        anime_reply(reply),
        Err(JikanError::Http(HttpError::Transport(report))) if report == "timed out"
    ));
    assert!(matches!(
        anime_reply(Err(HttpError::InvalidUrl)),
        Err(JikanError::Http(HttpError::InvalidUrl))
    ));
    let reply = Ok(Response { status: 200, body: b"[1, 2".to_vec() });
    assert!(matches!(
        conclude::<Vec<u64>>(reply),
        Err(JikanError::Json(JsonError::Syntax(_)))
    ));
    let reply = Ok(Response { status: 200, body: b"[1, 2]".to_vec() });
    assert_eq!(conclude::<Vec<u64>>(reply).unwrap(), vec![1, 2]);
}

#[test]
fn the_status_decides_how_a_body_is_read() {
    let res = |status| Response { status, body: b"true".to_vec() };
    assert!(parse_json_response::<bool>(res(200)).unwrap());
    assert!(parse_json_response::<bool>(res(299)).unwrap());
    for status in [100, 199, 300, 404, 999] {
        assert!(matches!(
            parse_json_response::<bool>(res(status)),
            Err(JikanError::Json(JsonError::Shape(_)))
        ));
    }
    assert!(matches!(
        parse_json_response::<u64>(res(200)),
        Err(JikanError::Json(JsonError::Shape(_)))
    ));
}

#[test]
fn classify_keeps_the_report_of_serde_json() {
    let report = serde_json::from_str::<serde_json::Value>("{").unwrap_err();
    let text = report.to_string();
    match classify::<bool>(200, Err(report)) {
        Err(JikanError::Json(JsonError::Syntax(e))) => assert_eq!(e.to_string(), text),
        other => panic!("{:?}", other),
    }
    let value = serde_json::from_str::<serde_json::Value>(NOT_FOUND).unwrap();
    assert!(matches!(classify::<bool>(500, Ok(value)), Err(JikanError::API(e)) if e.status == 404));
}

#[test]
fn messages() {
    let shape = JikanError::Json(JsonError::Shape(Mismatch::here()));
    assert_eq!(shape.message(), "invalid json data");
    assert_eq!(JikanError::Http(HttpError::InvalidUrl).message(), "http error");
    assert_eq!(JikanError::Unknown.message(), "unknown error");
    let refusal = client(Recorder::answering(404, NOT_FOUND)).get_anime_by_id(2).unwrap_err();
    assert_eq!(refusal.message(), "jikan api error");
}

fn shared_between_threads<T: Send + Sync>(_: &T) {}

#[test]
fn calls_do_not_disturb_each_other() {
    shared_between_threads(&JikanClient::new(String::new(), Catalogue));
    let client = JikanClient::new("http://catalogue".to_string(), Catalogue);
    let first = client.get_anime_by_id(1);
    let missing = client.get_anime_by_id(2);
    let second = client.get_anime_by_id(1);
    assert_eq!(first.unwrap(), second.unwrap());
    assert!(matches!(missing, Err(JikanError::API(e)) if e.status == 404));
    let results: Vec<_> = (1..=8u32).map(|id| (id, client.get_anime_by_id(id))).collect();
    for (id, result) in results {
        if id == 1 {
            assert_eq!(result.unwrap().title, "Cowboy Bebop");
        } else {
            assert!(matches!(result, Err(JikanError::API(e)) if e.status == 404));
        }
    }
}
