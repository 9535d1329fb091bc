use std::cell::RefCell;

use jikan_moe::anime::{Anime, Episodes, Reviews};
use jikan_moe::client::{Client, Method, Request, Response, RestClient};
use jikan_moe::error::{ApiError, ResponseError};
use jikan_moe::page::PagedIter;
use jikan_moe::query::{finish_query, query};
use jikan_moe::types::{Pagination, Root};
use jikan_moe::utils::{build_request, deserialize_response};
use serde_json::Value;

#[derive(Debug)]
struct Offline;

/// Answers requests from a queue of canned responses and records them.
struct Canned {
    answers: RefCell<Vec<Result<Response, ApiError<Offline>>>>,
    sent: RefCell<Vec<Request>>,
}

impl Canned {
    fn new(answers: Vec<Result<Response, ApiError<Offline>>>) -> Self {
        Canned { answers: RefCell::new(answers), sent: RefCell::new(Vec::new()) }
    }

    fn urls(&self) -> Vec<String> {
        self.sent.borrow().iter().map(|r| r.url.clone()).collect()
    }
}

fn ok(status: u16, body: &str) -> Result<Response, ApiError<Offline>> {
    Ok(Response { status, body: body.as_bytes().to_vec() })
}

impl RestClient for Canned {
    type Error = Offline;

    fn rest_endpoint(&self, endpoint: &str) -> Result<String, ApiError<Offline>> {
        Ok(format!("https://api.jikan.moe/v4/{}", endpoint.trim_start_matches('/')))
    }
}

impl Client for Canned {
    fn rest(&self, request: Request) -> Result<Response, ApiError<Offline>> {
        self.sent.borrow_mut().push(request);
        self.answers.borrow_mut().remove(0)
    }
}

fn pagination_of(v: &Value) -> Option<Pagination> {
    match v.get("pagination") {
        None | Some(Value::Null) => None,
        Some(p) => Some(Pagination {
            last_visible_page: p["last_visible_page"].as_u64().unwrap_or(0),
            has_next_page: p["has_next_page"].as_bool().unwrap_or(false),
            items: None,
        }),
    }
}

fn decode_ids(v: &Value) -> Result<Root<Vec<u64>>, serde_json::Error> {
    let data: Vec<u64> = serde_json::from_value(v["data"].clone())?;
    Ok(Root { data, pagination: pagination_of(v) })
}

fn decode_title(v: &Value) -> Result<Root<String>, serde_json::Error> {
    let data: String = serde_json::from_value(v["data"]["title"].clone())?;
    Ok(Root { data, pagination: pagination_of(v) })
}

#[test]
fn request_has_verb_url_and_empty_body() {
    let client = Canned::new(vec![]);
    let e = Anime::builder().id(1).build().unwrap();
    let req = build_request::<_, Canned>(&e, &client).unwrap();
    assert_eq!(req.method, Method::Get);
    assert_eq!(req.url, "https://api.jikan.moe/v4/anime/1");
    assert!(req.content_type.is_none());
    assert!(req.body.is_empty());
}

#[test]
fn request_carries_endpoint_parameters() {
    let client = Canned::new(vec![]);
    let e = Reviews::builder().id(1).spoilers(true).build().unwrap();
    let req = build_request::<_, Canned>(&e, &client).unwrap();
    assert_eq!(req.url, "https://api.jikan.moe/v4/anime/1/reviews?spoilers=true");
}

#[test]
fn query_returns_inner_data() {
    let client = Canned::new(vec![ok(200, r#"{"data": {"mal_id": 1, "title": "Cowboy Bebop"}, "pagination": null}"#)]);
    let e = Anime::builder().id(1).build().unwrap();
    let r = query(&e, &client, decode_title, "String").unwrap();
    assert_eq!(r, "Cowboy Bebop");
    assert_eq!(client.urls(), vec!["https://api.jikan.moe/v4/anime/1".to_string()]);
}

#[test]
fn not_found_is_a_status_error_with_its_body() {
    let body = r#"{"status":404,"message":"not found"}"#;
    let client = Canned::new(vec![ok(404, body)]);
    let e = Anime::builder().id(1).build().unwrap();
    match query(&e, &client, decode_title, "String") {
        Err(ApiError::Response { source: ResponseError::HttpStatus { value, status }, url }) => {
            assert_eq!(status, 404);
            assert_eq!(value, serde_json::from_str::<Value>(body).unwrap());
            assert_eq!(url, "https://api.jikan.moe/v4/anime/1");
        },
        other => panic!("unexpected: {:?}", other),
    }
}

#[test]
fn failure_status_wins_over_a_well_formed_body() {
    let client = Canned::new(vec![ok(500, r#"{"data": {"title": "x"}, "pagination": null}"#)]);
    let e = Anime::builder().id(1).build().unwrap();
    match query(&e, &client, decode_title, "String") {
        Err(ApiError::Response { source: ResponseError::HttpStatus { status, .. }, .. }) => {
            assert_eq!(status, 500)
        },
        other => panic!("unexpected: {:?}", other),
    }
}

#[test]
fn shape_error_carries_the_url_and_type() {
    let client = Canned::new(vec![ok(200, r#"{"data": {"title": 5}}"#)]);
    let e = Anime::builder().id(3).build().unwrap();
    match query(&e, &client, decode_title, "String") {
        Err(ApiError::Response { source: ResponseError::DataType { expected_type, .. }, url }) => {
            assert_eq!(expected_type, "String");
            assert_eq!(url, "https://api.jikan.moe/v4/anime/3");
        },
        other => panic!("unexpected: {:?}", other),
    }
}

#[test]
fn body_that_is_not_json_is_a_parse_error() {
    let client = Canned::new(vec![ok(404, "<html>")]);
    let e = Anime::builder().id(1).build().unwrap();
    match query(&e, &client, decode_title, "String") {
        Err(ApiError::Response { source: ResponseError::Parse(_), .. }) => {},
        other => panic!("unexpected: {:?}", other),
    }
}

#[test]
fn transport_error_passes_through() {
    let client = Canned::new(vec![Err(ApiError::client(Offline))]);
    let e = Anime::builder().id(1).build().unwrap();
    match query(&e, &client, decode_title, "String") {
        Err(ApiError::Client(Offline)) => {},
        other => panic!("unexpected: {:?}", other),
    }
}

#[test]
fn finish_query_attaches_the_url() {
    let rsp = ok(200, "[1]");
    match finish_query(String::from("https://x/y"), rsp, decode_ids, "Vec<u64>") {
        Err(ApiError::Response { source: ResponseError::DataType { .. }, url }) => {
            assert_eq!(url, "https://x/y")
        },
        other => panic!("unexpected: {:?}", other),
    }
}

#[test]
fn deserialize_keeps_pagination() {
    let rsp = Response {
        status: 200,
        body: br#"{"data":[4],"pagination":{"last_visible_page":3,"has_next_page":true}}"#.to_vec(),
    };
    let root = deserialize_response(rsp, decode_ids, "Vec<u64>").unwrap();
    assert_eq!(root.data, vec![4]);
    assert!(root.pagination.unwrap().has_next_page);
}

#[test]
fn pages_are_yielded_in_order_then_end() {
    let client = Canned::new(vec![
        ok(200, r#"{"data":[1,2],"pagination":{"last_visible_page":2,"has_next_page":true}}"#),
        ok(200, r#"{"data":[3],"pagination":{"last_visible_page":2,"has_next_page":false}}"#),
    ]);
    let e = Episodes::builder().id(1).build().unwrap();
    let mut it: PagedIter<'_, Episodes, Canned, u64> = PagedIter::new(&e, &client);
    let mut got = Vec::new();
    let mut calls = 0;
    loop {
        calls += 1;
        match it.next(decode_ids, "Vec<u64>") {
            Some(Ok(x)) => got.push(x),
            Some(Err(err)) => panic!("unexpected: {:?}", err),
            None => break,
        }
    }
    assert_eq!(got, vec![1, 2, 3]);
    assert_eq!(calls, 4);
    assert_eq!(
        client.urls(),
        vec![
            "https://api.jikan.moe/v4/anime/1/episodes?page=1".to_string(),
            "https://api.jikan.moe/v4/anime/1/episodes?page=2".to_string()
        ]
    );
    assert!(it.next(decode_ids, "Vec<u64>").is_none());
    assert_eq!(client.urls().len(), 2);
}

#[test]
fn empty_page_ends_at_once() {
    let client = Canned::new(vec![ok(200, r#"{"data":[],"pagination":{"last_visible_page":1,"has_next_page":false}}"#)]);
    let e = Episodes::builder().id(1).build().unwrap();
    let mut it: PagedIter<'_, Episodes, Canned, u64> = PagedIter::new(&e, &client);
    assert!(it.next(decode_ids, "Vec<u64>").is_none());
    assert!(it.next(decode_ids, "Vec<u64>").is_none());
    assert_eq!(client.urls().len(), 1);
}

#[test]
fn missing_pagination_counts_as_last_page() {
    let client = Canned::new(vec![ok(200, r#"{"data":[9]}"#)]);
    let e = Episodes::builder().id(2).build().unwrap();
    let mut it: PagedIter<'_, Episodes, Canned, u64> = PagedIter::new(&e, &client);
    assert_eq!(it.next(decode_ids, "Vec<u64>").unwrap().unwrap(), 9);
    assert!(it.next(decode_ids, "Vec<u64>").is_none());
    assert_eq!(client.urls().len(), 1);
}

#[test]
fn failed_fetch_is_retried_on_the_same_page() {
    let client = Canned::new(vec![
        Err(ApiError::client(Offline)),
        ok(200, r#"{"data":[5],"pagination":{"last_visible_page":1,"has_next_page":false}}"#),
    ]);
    let e = Reviews::builder().id(1).preliminary(true).build().unwrap();
    let mut it: PagedIter<'_, Reviews, Canned, u64> = PagedIter::new(&e, &client);
    assert!(matches!(it.next(decode_ids, "Vec<u64>"), Some(Err(ApiError::Client(Offline)))));
    assert_eq!(it.next(decode_ids, "Vec<u64>").unwrap().unwrap(), 5);
    assert!(it.next(decode_ids, "Vec<u64>").is_none());
    assert_eq!(
        client.urls(),
        vec![
            "https://api.jikan.moe/v4/anime/1/reviews?preliminary=true&page=1".to_string(),
            "https://api.jikan.moe/v4/anime/1/reviews?preliminary=true&page=1".to_string()
        ]
    );
}

#[test]
fn stepwise_paging_matches_next() {
    let client = Canned::new(vec![]);
    let e = Episodes::builder().id(1).build().unwrap();
    let mut it: PagedIter<'_, Episodes, Canned, u64> = PagedIter::new(&e, &client);
    assert!(it.needs_fetch());
    assert_eq!(it.state().page, 1);
    let first = it.accept_page(vec![7, 8], Pagination { last_visible_page: 1, has_next_page: false, items: None });
    assert_eq!(first, Some(7));
    assert_eq!(it.state().page, 2);
    assert!(!it.needs_fetch());
    assert_eq!(it.pop_buffered(), Some(8));
    assert_eq!(it.pop_buffered(), None);
    assert!(!it.needs_fetch());
}

#[test]
fn empty_page_that_announces_more_is_fetched_past() {
    let client = Canned::new(vec![
        ok(200, r#"{"data":[],"pagination":{"last_visible_page":2,"has_next_page":true}}"#),
        ok(200, r#"{"data":[6],"pagination":{"last_visible_page":2,"has_next_page":false}}"#),
    ]);
    let e = Episodes::builder().id(1).build().unwrap();
    let mut it: PagedIter<'_, Episodes, Canned, u64> = PagedIter::new(&e, &client);
    assert!(it.next(decode_ids, "Vec<u64>").is_none());
    assert_eq!(it.next(decode_ids, "Vec<u64>").unwrap().unwrap(), 6);
    assert!(it.next(decode_ids, "Vec<u64>").is_none());
    assert_eq!(client.urls().len(), 2);
}

#[test]
fn error_constructors() {
    assert!(matches!(ApiError::<Offline>::client(Offline), ApiError::Client(Offline)));
    let source = ResponseError::Parse(serde_json::from_str::<Value>("{").unwrap_err());
    match ApiError::<Offline>::from_http_response(source, String::from("https://x")) {
        ApiError::Response { source: ResponseError::Parse(_), url } => assert_eq!(url, "https://x"),
        other => panic!("unexpected: {:?}", other),
    }
}

#[test]
fn declared_body_sets_content_type() {
    let client = Canned::new(vec![]);
    let mut params = jikan_moe::query_params::QueryParams::new();
    params.append_pair("q", "x y");
    let e = jikan_moe::endpoint::RawEndpoint {
        method: Method::Post,
        path: String::from("/anime"),
        params,
        body: Some(("application/json", b"[1]".to_vec())),
    };
    let req = build_request::<_, Canned>(&e, &client).unwrap();
    assert_eq!(req.method, Method::Post);
    assert_eq!(req.url, "https://api.jikan.moe/v4/anime?q=x+y");
    assert_eq!(req.content_type, Some("application/json"));
    assert_eq!(req.body, b"[1]".to_vec());
}
