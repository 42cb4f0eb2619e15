//! End-to-end tests of the library: request building and response
//! decoding, including the loosely-typed wire shapes.

use fyyd_api::addr::FyydIpAddr;
use fyyd_api::decode::decode_api_version;
use fyyd_api::decode::decode_data;
use fyyd_api::decode::decode_episodes_response;
use fyyd_api::decode::decode_search_response;
use fyyd_api::decode::decode_string_or_u32;
use fyyd_api::decode::encode_api_version;
use fyyd_api::error::Error;
use fyyd_api::json::JsonNumber;
use fyyd_api::json::JsonValue;
use fyyd_api::request::build_episodes_request;
use fyyd_api::request::build_latest_request;
use fyyd_api::request::FyydPodcastSearch;
use fyyd_api::response::FyydApiVersion;
use fyyd_api::response::FyydData;
use fyyd_api::response::StringOrU32;

fn pair(k: &str, v: &str) -> (String, String) {
    (String::from(k), String::from(v))
}

const SEARCH_BODY: &[u8] = br#"{"status":1,"msg":"ok","meta":{"API_INFO":{"API_VERSION":"0.2"}},"data":[{"title":"Rust Talk","id":42,"xmlURL":"https://x/feed","imgURL":"https://x/img","status":1,"status_since":"2020-01-01","slug":"rust-talk","layoutImageURL":"https://x/l","thumbImageURL":"https://x/t","smallImageURL":"https://x/s","microImageURL":"https://x/m","categories":[],"lastpub":"2020-01-01","rank":1,"url_fyyd":"https://fyyd/x","description":"d","subtitle":"s"}]}"#;

#[test]
fn search_scenario_decodes_one_podcast() {
    let resp = decode_search_response(SEARCH_BODY).expect("the scenario body must decode");
    assert_eq!(resp.status, 1);
    assert_eq!(resp.msg, "ok");
    let podcasts = resp.data.expect("the scenario body has one podcast");
    assert_eq!(podcasts.len(), 1);
    assert_eq!(podcasts[0].title, "Rust Talk");
    assert_eq!(podcasts[0].id, 42);
    assert_eq!(podcasts[0].xml_url, "https://x/feed");
    assert_eq!(podcasts[0].categories, Vec::<u16>::new());
    assert_eq!(podcasts[0].guid, None);
    assert_eq!(podcasts[0].episodes, None);
    match &resp.meta.api_info.api_version {
        FyydApiVersion::ApiVersionString(s) => assert_eq!(s, "0.2"),
        FyydApiVersion::ApiVersionNumber(_) => panic!("the version arrived as a string"),
    }
}

#[test]
fn absent_data_with_success_status_is_no_results() {
    let body = br#"{"status":1,"msg":"ok","meta":{"API_INFO":{"API_VERSION":"0.2"}}}"#;
    let resp = decode_search_response(body).expect("an envelope without data must decode");
    assert_eq!(resp.status, 1);
    assert!(resp.data.is_none());
    let resp2 = decode_episodes_response(body).expect("an envelope without data must decode");
    assert!(resp2.data.is_none());
}

#[test]
fn null_data_is_no_results_too() {
    let body = br#"{"status":0,"msg":"no","meta":{"API_INFO":{"API_VERSION":"0.2"}},"data":null}"#;
    let resp = decode_search_response(body).expect("a null data field must decode");
    assert!(resp.data.is_none());
}

#[test]
fn unknown_fields_are_ignored() {
    let body = br#"{"status":1,"msg":"ok","meta":{"API_INFO":{"API_VERSION":"0.2","later":true}},"surprise":[1,2,3]}"#;
    let resp = decode_search_response(body).expect("unknown fields must be ignored");
    assert_eq!(resp.status, 1);
}

#[test]
fn api_version_decodes_from_number_and_string() {
    let body_num = br#"{"status":1,"msg":"ok","meta":{"API_INFO":{"API_VERSION":0.2}}}"#;
    let resp = decode_search_response(body_num).expect("a numeric version must decode");
    match &resp.meta.api_info.api_version {
        FyydApiVersion::ApiVersionNumber(JsonNumber::Float(t)) => assert_eq!(t, "0.2"),
        other => panic!("expected the number reading, got {:?}", other),
    }

    let body_str = br#"{"status":1,"msg":"ok","meta":{"API_INFO":{"API_VERSION":"0.2"}}}"#;
    let resp = decode_search_response(body_str).expect("a string version must decode");
    match &resp.meta.api_info.api_version {
        FyydApiVersion::ApiVersionString(s) => assert_eq!(s, "0.2"),
        other => panic!("expected the string reading, got {:?}", other),
    }

    let body_int = br#"{"status":1,"msg":"ok","meta":{"API_INFO":{"API_VERSION":2}}}"#;
    let resp = decode_search_response(body_int).expect("an integer version must decode");
    match &resp.meta.api_info.api_version {
        FyydApiVersion::ApiVersionNumber(JsonNumber::PosInt(n)) => assert_eq!(*n, 2),
        other => panic!("expected the integer reading, got {:?}", other),
    }
}

#[test]
fn api_version_round_trips() {
    let from_string = decode_api_version(&JsonValue::Str(String::from("0.2")))
        .expect("a string version must decode");
    match encode_api_version(&from_string) {
        JsonValue::Str(s) => assert_eq!(s, "0.2"),
        other => panic!("re-encoding a string version must give a string, got {:?}", other),
    }

    let from_number = decode_api_version(&JsonValue::Num(JsonNumber::Float(String::from("0.2"))))
        .expect("a numeric version must decode");
    match encode_api_version(&from_number) {
        JsonValue::Num(JsonNumber::Float(t)) => assert_eq!(t, "0.2"),
        other => panic!("re-encoding a numeric version must give that number, got {:?}", other),
    }

    assert!(decode_api_version(&JsonValue::Bool(true)).is_none());
    assert!(decode_api_version(&JsonValue::Null).is_none());
}

#[test]
fn episode_count_accepts_string_and_unsigned_only() {
    let as_string = decode_string_or_u32(&JsonValue::Str(String::from("123")))
        .expect("a string count must decode");
    assert_eq!(as_string, StringOrU32::Str(String::from("123")));

    let as_number = decode_string_or_u32(&JsonValue::Num(JsonNumber::PosInt(123)))
        .expect("an unsigned count must decode");
    assert_eq!(as_number, StringOrU32::U32(123));

    assert!(decode_string_or_u32(&JsonValue::Bool(true)).is_none());
    assert!(decode_string_or_u32(&JsonValue::Obj(Vec::new())).is_none());
    assert!(decode_string_or_u32(&JsonValue::Arr(Vec::new())).is_none());
    assert!(decode_string_or_u32(&JsonValue::Num(JsonNumber::NegInt(-1))).is_none());
    assert!(decode_string_or_u32(&JsonValue::Num(JsonNumber::Float(String::from("1.5")))).is_none());
    assert!(decode_string_or_u32(&JsonValue::Num(JsonNumber::PosInt(5_000_000_000))).is_none());
}

#[test]
fn episode_count_third_shape_fails_the_whole_decode() {
    let body = br#"{"status":1,"msg":"ok","meta":{"API_INFO":{"API_VERSION":"0.2"}},"data":[{"title":"T","id":1,"xmlURL":"x","imgURL":"i","status":1,"status_since":"s","slug":"sl","layoutImageURL":"l","thumbImageURL":"t","smallImageURL":"sm","microImageURL":"m","categories":[],"lastpub":"p","rank":1,"url_fyyd":"u","description":"d","subtitle":"st","episode_count":true}]}"#;
    match decode_search_response(body) {
        Err(Error::Deserialization { payload, .. }) => assert_eq!(payload, body.to_vec()),
        other => panic!("a boolean episode_count must fail the decode, got {:?}", other.is_ok()),
    }
}

#[test]
fn episode_count_variants_decode_inside_a_podcast() {
    let body = br#"{"status":1,"msg":"ok","meta":{"API_INFO":{"API_VERSION":"0.2"}},"data":[{"title":"T","id":1,"xmlURL":"x","imgURL":"i","status":1,"status_since":"s","slug":"sl","layoutImageURL":"l","thumbImageURL":"t","smallImageURL":"sm","microImageURL":"m","categories":[],"lastpub":"p","rank":1,"url_fyyd":"u","description":"d","subtitle":"st","episode_count":77}]}"#;
    let resp = decode_search_response(body).expect("an unsigned episode_count must decode");
    let podcasts = resp.data.expect("one podcast");
    assert_eq!(podcasts[0].episode_count, Some(StringOrU32::U32(77)));
}

#[test]
fn default_search_builds_empty_filters_and_page_zero() {
    let request = FyydPodcastSearch::default().build();
    assert_eq!(request.path, "https://api.fyyd.de/0.2/search/podcast");
    assert_eq!(
        request.params,
        vec![
            pair("title", ""),
            pair("url", ""),
            pair("language", ""),
            pair("term", ""),
            pair("page", "0"),
        ]
    );
}

#[test]
fn search_filters_are_sent_in_order() {
    let request = FyydPodcastSearch::default()
        .term(String::from("rust"))
        .language(String::from("en"))
        .page(305)
        .build();
    assert_eq!(
        request.params,
        vec![
            pair("title", ""),
            pair("url", ""),
            pair("language", "en"),
            pair("term", "rust"),
            pair("page", "305"),
        ]
    );
}

#[test]
fn overshot_page_is_passed_through_unchecked() {
    let request = build_episodes_request(7, None, None, Some(65535));
    assert_eq!(request.path, "https://api.fyyd.de/0.2/podcast/episodes");
    assert_eq!(
        request.params,
        vec![
            pair("podcast_id", "7"),
            pair("podcast_slug", ""),
            pair("page", "65535"),
            pair("count", "50"),
        ]
    );
}

#[test]
fn episodes_request_defaults_and_large_ids() {
    let request = build_episodes_request(u64::MAX, Some(String::from("rust-talk")), Some(3), None);
    assert_eq!(
        request.params,
        vec![
            pair("podcast_id", "18446744073709551615"),
            pair("podcast_slug", "rust-talk"),
            pair("page", "0"),
            pair("count", "3"),
        ]
    );
}

#[test]
fn latest_request_omits_absent_since_id() {
    let request = build_latest_request(None, None);
    assert_eq!(request.path, "https://api.fyyd.de/0.2/podcast/latest");
    assert_eq!(request.params, vec![pair("count", "20")]);

    let request = build_latest_request(Some(1000), Some(5));
    assert_eq!(request.params, vec![pair("since_id", "1000"), pair("count", "5")]);
}

#[test]
fn malformed_bytes_report_deserialization_with_the_payload() {
    let body: &[u8] = b"not json at all";
    match decode_search_response(body) {
        Err(Error::Deserialization { cause, payload }) => {
            assert!(!cause.is_empty());
            assert_eq!(payload, body.to_vec());
        },
        _ => panic!("bytes that are not JSON must fail with Deserialization"),
    }
}

#[test]
fn a_missing_required_field_fails_the_decode() {
    // The podcast lacks its title.
    let body = br#"{"status":1,"msg":"ok","meta":{"API_INFO":{"API_VERSION":"0.2"}},"data":[{"id":1,"xmlURL":"x","imgURL":"i","status":1,"status_since":"s","slug":"sl","layoutImageURL":"l","thumbImageURL":"t","smallImageURL":"sm","microImageURL":"m","categories":[],"lastpub":"p","rank":1,"url_fyyd":"u","description":"d","subtitle":"st"}]}"#;
    assert!(decode_search_response(body).is_err());
    // The envelope's status arrives as a string.
    let body = br#"{"status":"1","msg":"ok","meta":{"API_INFO":{"API_VERSION":"0.2"}}}"#;
    assert!(decode_search_response(body).is_err());
    // The metadata lacks its API info block.
    let body = br#"{"status":1,"msg":"ok","meta":{}}"#;
    assert!(decode_search_response(body).is_err());
}

#[test]
fn metadata_blocks_decode_with_paging_and_server() {
    let body = br#"{"status":1,"msg":"ok","meta":{"count":2,"API_INFO":{"API_VERSION":"0.2"},"paging":{"count":2,"page":0,"first_page":0,"last_page":-1,"next_page":null,"prev_page":null},"SERVER":"1.2.3.4","duration":12}}"#;
    let resp = decode_search_response(body).expect("a full metadata block must decode");
    assert_eq!(resp.meta.count, Some(2));
    assert_eq!(resp.meta.duration, Some(12));
    let paging = resp.meta.paging.expect("the paging block is present");
    assert_eq!(paging.count, 2);
    assert_eq!(paging.page, 0);
    assert_eq!(paging.first_page, 0);
    assert_eq!(paging.last_page, -1);
    assert_eq!(paging.next_page, None);
    assert_eq!(paging.prev_page, None);
    let server = resp.meta.server.expect("the server address is present");
    assert_eq!(server.text(), "1.2.3.4");
}

#[test]
fn a_server_field_outside_the_address_alphabet_fails() {
    let body = br#"{"status":1,"msg":"ok","meta":{"API_INFO":{"API_VERSION":"0.2"},"SERVER":"not an address"}}"#;
    assert!(decode_search_response(body).is_err());
    assert!(FyydIpAddr::parse("not an address").is_none());
    assert!(FyydIpAddr::parse("").is_none());
    assert!(FyydIpAddr::parse("2001:db8::1").is_some());
}

#[test]
fn the_address_grammar_is_exact_dotted_decimal() {
    let accepted = FyydIpAddr::parse("255.255.255.255").expect("the largest address parses");
    assert_eq!(accepted.text(), "255.255.255.255");
    assert!(FyydIpAddr::parse("0.0.0.0").is_some());
    assert!(FyydIpAddr::parse("1.22.133.244").is_some());
    // Octets above 255, leading zeros, missing or extra octets, and
    // stray dots are all rejected.
    assert!(FyydIpAddr::parse("999.1.1.1").is_none());
    assert!(FyydIpAddr::parse("256.1.1.1").is_none());
    assert!(FyydIpAddr::parse("01.2.3.4").is_none());
    assert!(FyydIpAddr::parse("1.2.3").is_none());
    assert!(FyydIpAddr::parse("1.2.3.4.5").is_none());
    assert!(FyydIpAddr::parse("1..2.3").is_none());
    assert!(FyydIpAddr::parse(".1.2.3").is_none());
    assert!(FyydIpAddr::parse("1.2.3.").is_none());
    assert!(FyydIpAddr::parse("1.2.3.4a").is_none());
    // Colon-hex text needs a colon and stays inside its alphabet.
    assert!(FyydIpAddr::parse("abcd").is_none());
    assert!(FyydIpAddr::parse("::1").is_some());
    assert!(FyydIpAddr::parse("fe80::zzz").is_none());
}

#[test]
fn episodes_decode_embedded_in_their_podcast() {
    let body = br#"{"status":1,"msg":"ok","meta":{"API_INFO":{"API_VERSION":"0.2"}},"data":{"title":"T","id":9,"xmlURL":"x","imgURL":"i","status":1,"status_since":"s","slug":"sl","layoutImageURL":"l","thumbImageURL":"t","smallImageURL":"sm","microImageURL":"m","categories":[5,7],"lastpub":"p","rank":1,"url_fyyd":"u","description":"d","subtitle":"st","episodes":[{"title":"E1","num_episode":1,"id":100,"guid":"g","url":"e1","podcast_id":9,"duration":30},{"title":"E2","num_episode":2,"id":101,"guid":"h","url":"e2","podcast_id":9}]}}"#;
    let resp = decode_episodes_response(body).expect("a podcast with episodes must decode");
    let podcast = resp.data.expect("one podcast");
    assert_eq!(podcast.id, 9);
    assert_eq!(podcast.categories, vec![5, 7]);
    let episodes = podcast.episodes.expect("two episodes");
    assert_eq!(episodes.len(), 2);
    assert_eq!(episodes[0].title, "E1");
    assert_eq!(episodes[0].num_episode, 1);
    assert_eq!(episodes[0].duration, Some(30));
    assert_eq!(episodes[1].title, "E2");
    assert_eq!(episodes[1].duration, None);
    // One malformed episode fails the whole list.
    let body = br#"{"status":1,"msg":"ok","meta":{"API_INFO":{"API_VERSION":"0.2"}},"data":{"title":"T","id":9,"xmlURL":"x","imgURL":"i","status":1,"status_since":"s","slug":"sl","layoutImageURL":"l","thumbImageURL":"t","smallImageURL":"sm","microImageURL":"m","categories":[],"lastpub":"p","rank":1,"url_fyyd":"u","description":"d","subtitle":"st","episodes":[{"num_episode":1}]}}"#;
    assert!(decode_episodes_response(body).is_err());
}

#[test]
fn the_either_shape_payload_tries_episode_then_feeds() {
    // An empty array is a (empty) list of feeds, not an episode.
    let decoded = decode_data(&JsonValue::Arr(Vec::new())).expect("an empty array decodes");
    assert!(matches!(decoded, FyydData::FyydPodcastFeeds(ref feeds) if feeds.is_empty()));
    // An object must be a full episode.
    assert!(decode_data(&JsonValue::Obj(Vec::new())).is_none());
    assert!(decode_data(&JsonValue::Bool(false)).is_none());
}

#[test]
fn transport_error_variants_carry_their_message() {
    let creation = Error::ClientCreation(String::from("bad configuration"));
    assert!(matches!(creation, Error::ClientCreation(ref m) if m == "bad configuration"));
    let request = Error::Request(String::from("timed out"));
    assert!(matches!(request, Error::Request(ref m) if m == "timed out"));
}
