use lastfm::decode::{read_list, read_nested, Decode};
use lastfm::error::received;
use lastfm::json::text_of;
use lastfm::reply::{classify, decode_body, read_payload};
use lastfm::{
    Album, Artist, Attributes, ClassifiedError, Client, ParseFailure, ServiceError, TopAlbums,
    TransportFailure,
};

fn album_json(rank: usize) -> String {
    format!(
        "{{\"name\":\"Album {rank}\",\"playcount\":\"{plays}\",\"mbid\":\"mbid-{rank}\",\
         \"url\":\"https://www.last.fm/music/a/{rank}\",\
         \"artist\":{{\"name\":\"Artist {rank}\",\"mbid\":\"\",\"url\":\"https://www.last.fm/music/a\"}},\
         \"image\":[{{\"size\":\"small\",\"#text\":\"https://img/{rank}.png\"}}],\
         \"@attr\":{{\"rank\":\"{rank}\"}}}}",
        rank = rank,
        plays = 100 - rank
    )
}

fn top_albums_json(count: usize) -> String {
    let albums: Vec<String> = (1..=count).map(album_json).collect();
    format!(
        "{{\"album\":[{}],\"@attr\":{{\"user\":\"RJ\",\"page\":\"1\",\"perPage\":\"{}\",\
         \"totalPages\":\"7\",\"total\":\"35\"}}}}",
        albums.join(","),
        count
    )
}

fn reply_json(count: usize) -> String {
    format!("{{\"user\":{{\"topalbums\":{}}}}}", top_albums_json(count))
}

fn expected_album(rank: usize) -> Album {
    Album {
        name: format!("Album {}", rank),
        playcount: format!("{}", 100 - rank),
        mbid: format!("mbid-{}", rank),
        url: format!("https://www.last.fm/music/a/{}", rank),
        artist: Artist {
            name: format!("Artist {}", rank),
            mbid: String::new(),
            url: "https://www.last.fm/music/a".to_string(),
        },
    }
}

fn expected_attrs(per_page: &str) -> Attributes {
    Attributes {
        user: "RJ".to_string(),
        page: "1".to_string(),
        per_page: per_page.to_string(),
        total_pages: "7".to_string(),
        total: "35".to_string(),
    }
}

fn value_of(text: &str) -> serde_json::Value {
    serde_json::from_str::<serde_json::Value>(text).unwrap()
}

#[test]
fn top_albums_of_rj_with_limit_five() {
    let client = Client::new("key");
    let result = client.top_albums("rj").with_limit(5).send(Ok(reply_json(5)));
    let page = result.unwrap();
    assert_eq!(page.albums.len(), 5);
    for rank in 1..=5 {
        assert_eq!(page.albums[rank - 1], expected_album(rank));
    }
    assert_eq!(page.attrs, expected_attrs("5"));
}

#[test]
fn user_not_found_is_a_service_error() {
    let client = Client::new("key");
    let body = "{\"error\":6,\"message\":\"User not found\"}".to_string();
    let result = client.top_albums("rj").with_limit(5).send(Ok(body));
    assert_eq!(
        result,
        Err(ClassifiedError::Service(ServiceError {
            code: 6,
            message: "User not found".to_string()
        }))
    );
}

#[test]
fn service_error_wins_over_a_result_in_the_same_body() {
    let body = format!(
        "{{\"error\":29,\"message\":\"Rate limit exceeded\",\"user\":{{\"topalbums\":{}}}}}",
        top_albums_json(2)
    );
    assert!(read_payload::<TopAlbums>(&value_of(&body)).is_some());
    let result = Client::new("key").top_albums("rj").send(Ok(body));
    assert_eq!(
        result,
        Err(ClassifiedError::Service(ServiceError {
            code: 29,
            message: "Rate limit exceeded".to_string()
        }))
    );
}

#[test]
fn result_has_every_field_of_the_body() {
    let result = decode_body::<TopAlbums>(&reply_json(2));
    assert_eq!(
        result,
        Ok(TopAlbums {
            albums: vec![expected_album(1), expected_album(2)],
            attrs: expected_attrs("2"),
        })
    );
}

#[test]
fn empty_album_list_is_a_result() {
    let result = decode_body::<TopAlbums>(&reply_json(0));
    assert_eq!(result, Ok(TopAlbums { albums: vec![], attrs: expected_attrs("0") }));
}

#[test]
fn transport_failure_is_handed_on() {
    let client = Client::new("key");
    let timeout = client.top_albums("rj").send(Err(TransportFailure::Timeout));
    assert_eq!(timeout, Err(ClassifiedError::Transport(TransportFailure::Timeout)));
    let network = client
        .top_albums("rj")
        .send(Err(TransportFailure::Network("connection refused".to_string())));
    assert_eq!(
        network,
        Err(ClassifiedError::Transport(TransportFailure::Network(
            "connection refused".to_string()
        )))
    );
    let status = client.top_albums("rj").send(received(503, "{\"error\":6}".to_string()));
    assert_eq!(status, Err(ClassifiedError::Transport(TransportFailure::Status(503))));
}

#[test]
fn status_decides_between_body_and_failure() {
    assert_eq!(received(200, "a".to_string()), Ok("a".to_string()));
    assert_eq!(received(299, "b".to_string()), Ok("b".to_string()));
    assert_eq!(received(199, "c".to_string()), Err(TransportFailure::Status(199)));
    assert_eq!(received(300, "d".to_string()), Err(TransportFailure::Status(300)));
    assert_eq!(received(404, String::new()), Err(TransportFailure::Status(404)));
    assert_eq!(received(0, String::new()), Err(TransportFailure::Status(0)));
}

#[test]
fn body_of_neither_shape_is_unrecognised() {
    for body in [
        "{}",
        "[]",
        "null",
        "42",
        "\"topalbums\"",
        "{\"user\":{}}",
        "{\"user\":{\"topartists\":{}}}",
        "{\"topalbums\":{\"album\":[],\"@attr\":{}}}",
        "{\"error\":6}",
        "{\"message\":\"User not found\"}",
        "{\"error\":\"6\",\"message\":\"User not found\"}",
        "{\"error\":6.5,\"message\":\"User not found\"}",
        "{\"error\":6.0,\"message\":\"User not found\"}",
        "{\"error\":9223372036854775808,\"message\":\"too large\"}",
        "{\"error\":6,\"message\":null}",
    ] {
        let result = decode_body::<TopAlbums>(body);
        assert_eq!(
            result,
            Err(ClassifiedError::Parsing(ParseFailure::Unrecognised)),
            "body: {}",
            body
        );
    }
}

#[test]
fn result_with_a_wrong_part_is_unrecognised() {
    let no_attrs = "{\"user\":{\"topalbums\":{\"album\":[]}}}";
    let no_albums = "{\"user\":{\"topalbums\":{\"@attr\":{\"user\":\"RJ\",\"page\":\"1\",\
                     \"perPage\":\"5\",\"totalPages\":\"7\",\"total\":\"35\"}}}}";
    let album_not_a_list = reply_json(1).replace("[", "").replace("]", "");
    let number_for_text = reply_json(1).replace("\"page\":\"1\"", "\"page\":1");
    let bad_item = reply_json(2).replace("\"name\":\"Album 2\",", "");
    let bad_artist = reply_json(1).replace("\"name\":\"Artist 1\",", "");
    for body in [
        no_attrs.to_string(),
        no_albums.to_string(),
        album_not_a_list,
        number_for_text,
        bad_item,
        bad_artist,
    ] {
        let result = decode_body::<TopAlbums>(&body);
        assert_eq!(
            result,
            Err(ClassifiedError::Parsing(ParseFailure::Unrecognised)),
            "body: {}",
            body
        );
    }
}

#[test]
fn body_that_is_no_json_is_malformed() {
    for body in ["", "{", "{\"error\":6,", "<html></html>", "{\"error\":6} trailing", "{'a':1}"] {
        match decode_body::<TopAlbums>(body) {
            Err(ClassifiedError::Parsing(ParseFailure::Malformed(diagnostic))) => {
                assert!(!diagnostic.is_empty(), "body: {}", body)
            }
            other => panic!("body {:?} gave {:?}", body, other),
        }
    }
}

#[test]
fn malformed_body_carries_the_parsers_diagnostic() {
    let result = decode_body::<TopAlbums>("{\"error\":6,");
    let expected = serde_json::from_str::<serde_json::Value>("{\"error\":6,")
        .unwrap_err()
        .to_string();
    assert_eq!(result, Err(ClassifiedError::Parsing(ParseFailure::Malformed(expected))));
}

#[test]
fn negative_and_extreme_error_codes_are_read() {
    let low = decode_body::<TopAlbums>("{\"error\":-9223372036854775808,\"message\":\"low\"}");
    assert_eq!(
        low,
        Err(ClassifiedError::Service(ServiceError { code: i64::MIN, message: "low".to_string() }))
    );
    let high = decode_body::<TopAlbums>("{\"error\":9223372036854775807,\"message\":\"\"}");
    assert_eq!(
        high,
        Err(ClassifiedError::Service(ServiceError { code: i64::MAX, message: String::new() }))
    );
}

#[test]
fn service_error_ignores_other_members() {
    let body = "{\"message\":\"Invalid API key\",\"links\":[],\"error\":10}";
    assert_eq!(
        decode_body::<TopAlbums>(body),
        Err(ClassifiedError::Service(ServiceError {
            code: 10,
            message: "Invalid API key".to_string()
        }))
    );
}

#[test]
fn classify_reads_a_value() {
    let error = value_of("{\"error\":6,\"message\":\"User not found\"}");
    assert_eq!(
        classify::<TopAlbums>(&error),
        Err(ClassifiedError::Service(ServiceError {
            code: 6,
            message: "User not found".to_string()
        }))
    );
    let page = value_of(&reply_json(1));
    assert_eq!(
        classify::<TopAlbums>(&page),
        Ok(TopAlbums { albums: vec![expected_album(1)], attrs: expected_attrs("1") })
    );
    let neither = value_of("[1,2,3]");
    assert_eq!(
        classify::<TopAlbums>(&neither),
        Err(ClassifiedError::Parsing(ParseFailure::Unrecognised))
    );
}

#[test]
fn text_of_reads_a_string_member() {
    let value = value_of("{\"name\":\"Abbey Road\",\"plays\":12,\"artist\":{\"name\":\"x\"}}");
    assert_eq!(text_of(&value, "name"), Some("Abbey Road".to_string()));
    assert_eq!(text_of(&value, "plays"), None);
    assert_eq!(text_of(&value, "artist"), None);
    assert_eq!(text_of(&value, "missing"), None);
    assert_eq!(text_of(&value_of("[\"name\"]"), "name"), None);
    assert_eq!(text_of(&value_of("\"name\""), "name"), None);
}

#[test]
fn read_list_keeps_the_order_and_needs_every_item() {
    let artists = value_of(
        "[{\"name\":\"b\",\"mbid\":\"2\",\"url\":\"u2\"},{\"name\":\"a\",\"mbid\":\"1\",\"url\":\"u1\"}]",
    );
    assert_eq!(
        read_list::<Artist>(&artists),
        Some(vec![
            Artist { name: "b".to_string(), mbid: "2".to_string(), url: "u2".to_string() },
            Artist { name: "a".to_string(), mbid: "1".to_string(), url: "u1".to_string() },
        ])
    );
    let one_bad = value_of("[{\"name\":\"b\",\"mbid\":\"2\",\"url\":\"u2\"},{\"name\":\"a\"}]");
    assert_eq!(read_list::<Artist>(&one_bad), None);
    assert_eq!(read_list::<Artist>(&value_of("[]")), Some(vec![]));
    assert_eq!(read_list::<Artist>(&value_of("{}")), None);
}

#[test]
fn read_nested_reads_the_record_under_a_name() {
    let value = value_of("{\"artist\":{\"name\":\"a\",\"mbid\":\"\",\"url\":\"u\"},\"other\":1}");
    assert_eq!(
        read_nested::<Artist>(&value, "artist"),
        Some(Artist { name: "a".to_string(), mbid: String::new(), url: "u".to_string() })
    );
    assert_eq!(read_nested::<Artist>(&value, "other"), None);
    assert_eq!(read_nested::<Artist>(&value, "missing"), None);
}

#[test]
fn records_are_decoded_from_their_own_shape() {
    let attrs = value_of(
        "{\"user\":\"RJ\",\"page\":\"2\",\"perPage\":\"50\",\"totalPages\":\"3\",\"total\":\"120\"}",
    );
    assert_eq!(
        Attributes::decode(&attrs),
        Some(Attributes {
            user: "RJ".to_string(),
            page: "2".to_string(),
            per_page: "50".to_string(),
            total_pages: "3".to_string(),
            total: "120".to_string(),
        })
    );
    assert_eq!(Attributes::decode(&value_of("{\"user\":\"RJ\"}")), None);
    assert_eq!(Album::decode(&value_of(&album_json(3))), Some(expected_album(3)));
    assert_eq!(Album::decode(&value_of("{\"name\":\"x\"}")), None);
    assert_eq!(
        ServiceError::decode(&value_of("{\"error\":4,\"message\":\"m\"}")),
        Some(ServiceError { code: 4, message: "m".to_string() })
    );
    assert_eq!(ServiceError::decode(&value_of("{\"error\":true,\"message\":\"m\"}")), None);
    assert_eq!(TopAlbums::decode(&value_of(&top_albums_json(1))).map(|page| page.albums.len()), Some(1));
}
