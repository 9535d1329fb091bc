use jikan_moe::anime::{
    Anime, AnimeFull, AnimeOrderBy, AnimeRating, AnimeType, BuilderError, Characters, Episode,
    Episodes, Forum, ForumFilter, News, Reviews, UserUpdates, VideosEpisodes,
};
use jikan_moe::client::{resolve_endpoint, status_is_success, Method};
use jikan_moe::error::ApiError;
use jikan_moe::endpoint::{Endpoint, RawEndpoint};
use jikan_moe::page::unwrap_pagination;
use jikan_moe::query_params::QueryParams;
use jikan_moe::types::{AnimeStatus, Pagination};

#[test]
fn anime_path_holds_the_id() {
    let e = Anime::builder().id(1).build().unwrap();
    assert_eq!(e.endpoint(), "/anime/1");
    assert_eq!(e.method(), Method::Get);
}

#[test]
fn sub_resource_paths() {
    assert_eq!(AnimeFull::builder().id(52991).build().unwrap().endpoint(), "/anime/52991/full");
    assert_eq!(Characters::builder().id(1).build().unwrap().endpoint(), "/anime/1/characters");
    assert_eq!(Episodes::builder().id(20).build().unwrap().endpoint(), "/anime/20/episodes");
    assert_eq!(News::builder().id(0).build().unwrap().endpoint(), "/anime/0/news");
    assert_eq!(UserUpdates::builder().id(5).build().unwrap().endpoint(), "/anime/5/userupdates");
    assert_eq!(
        VideosEpisodes::builder().id(9).build().unwrap().endpoint(),
        "/anime/9/videos/episodes"
    );
}

#[test]
fn largest_id_is_written_in_full() {
    let e = Characters::builder().id(u32::MAX).build().unwrap();
    assert_eq!(e.endpoint(), "/anime/4294967295/characters");
}

#[test]
fn episode_path_holds_both_ids() {
    let e = Episode::builder().id(21).episode(1071).build().unwrap();
    assert_eq!(e.endpoint(), "/anime/21/episodes/1071");
}

#[test]
fn builder_without_id_fails() {
    assert_eq!(Characters::builder().build(), Err(BuilderError::UninitializedField("id")));
    assert_eq!(
        Episode::builder().id(3).build(),
        Err(BuilderError::UninitializedField("episode"))
    );
    assert_eq!(Episode::builder().episode(3).build(), Err(BuilderError::UninitializedField("id")));
}

#[test]
fn endpoints_without_options_send_no_parameters() {
    let e = Characters::builder().id(1).build().unwrap();
    let q = e.query_params().unwrap();
    assert_eq!(q.finish(), "");
    assert!(e.body().unwrap().is_none());
}

#[test]
fn absent_review_flags_are_omitted() {
    let e = Reviews::builder().id(1).build().unwrap();
    assert_eq!(e.query_params().unwrap().finish(), "");
    let e = Reviews::builder().id(1).spoilers(true).build().unwrap();
    assert_eq!(e.query_params().unwrap().finish(), "spoilers=true");
    let e = Reviews::builder().id(1).preliminary(false).build().unwrap();
    assert_eq!(e.query_params().unwrap().finish(), "preliminary=false");
}

#[test]
fn present_review_flags_use_their_keys_in_order() {
    let e = Reviews::builder().id(1).spoilers(false).preliminary(true).build().unwrap();
    assert_eq!(e.query_params().unwrap().finish(), "preliminary=true&spoilers=false");
}

#[test]
fn review_query_reads_back_to_the_same_values() {
    let e = Reviews::builder().id(7).preliminary(true).spoilers(false).build().unwrap();
    let text = e.query_params().unwrap().finish();
    let pairs: Vec<(String, String)> = form_urlencoded::parse(text.as_bytes()).into_owned().collect();
    assert_eq!(
        pairs,
        vec![
            ("preliminary".to_string(), "true".to_string()),
            ("spoilers".to_string(), "false".to_string())
        ]
    );
}

#[test]
fn forum_filter_parameter() {
    let e = Forum::builder().id(1).build().unwrap();
    assert_eq!(e.query_params().unwrap().finish(), "");
    let e = Forum::builder().id(1).filter(ForumFilter::Episode).build().unwrap();
    assert_eq!(e.endpoint(), "/anime/1/forum");
    assert_eq!(e.query_params().unwrap().finish(), "filter=episode");
}

#[test]
fn pairs_are_form_encoded() {
    let mut q = QueryParams::new();
    q.append_pair("q", "a b&c=d");
    q.append_pair("letter", "\u{e9}");
    assert_eq!(q.finish(), "q=a+b%26c%3Dd&letter=%C3%A9");
}

#[test]
fn cleared_parameters_are_empty() {
    let mut q = QueryParams::new();
    q.append_pair("a", "1");
    q.clear();
    assert_eq!(q.finish(), "");
}

#[test]
fn merged_parameters_keep_their_order() {
    let mut a = QueryParams::new();
    a.append_pair("spoilers", "true");
    let mut b = QueryParams::new();
    b.append_pair("page", "2");
    let merged = QueryParams::with(a, &b);
    assert_eq!(merged.finish(), "spoilers=true&page=2");
}

#[test]
fn query_string_is_attached_only_when_not_empty() {
    let mut url = String::from("https://api.jikan.moe/v4/anime/1/forum");
    QueryParams::new().apply_to(&mut url).unwrap();
    assert_eq!(url, "https://api.jikan.moe/v4/anime/1/forum");
    let mut q = QueryParams::new();
    q.append_pair("filter", "all");
    q.apply_to(&mut url).unwrap();
    assert_eq!(url, "https://api.jikan.moe/v4/anime/1/forum?filter=all");
}

#[test]
fn query_string_replaces_an_existing_query() {
    let mut url = String::from("https://h.example/a?x=1#top");
    let mut q = QueryParams::new();
    q.append_pair("p", "1");
    q.apply_to(&mut url).unwrap();
    assert_eq!(url, "https://h.example/a?p=1#top");
}

#[test]
fn query_on_a_malformed_url_is_a_parse_error() {
    let mut url = String::from("no scheme here");
    let mut q = QueryParams::new();
    q.append_pair("p", "1");
    assert!(q.apply_to(&mut url).is_err());
    assert_eq!(url, "no scheme here");
    QueryParams::new().apply_to(&mut url).unwrap();
    assert_eq!(url, "no scheme here");
}

#[test]
fn raw_endpoint_hands_back_its_parts() {
    let mut params = QueryParams::new();
    params.append_pair("limit", "5");
    let e = RawEndpoint {
        method: Method::Post,
        path: String::from("/anime"),
        params,
        body: Some(("application/json", b"{}".to_vec())),
    };
    assert_eq!(e.method(), Method::Post);
    assert_eq!(e.endpoint(), "/anime");
    assert_eq!(e.query_params().unwrap().finish(), "limit=5");
    assert_eq!(e.body().unwrap(), Some(("application/json", b"{}".to_vec())));
}

#[test]
fn absent_pagination_means_no_next_page() {
    let p = unwrap_pagination(None);
    assert!(!p.has_next_page);
    let given = Pagination { last_visible_page: 4, has_next_page: true, items: None };
    assert_eq!(unwrap_pagination(Some(given)), given);
}

#[test]
fn search_values_are_snake_case() {
    assert_eq!(AnimeType::TvSpecial.as_str(), "tv_special");
    assert_eq!(AnimeOrderBy::MalId.as_str(), "mal_id");
    assert_eq!(AnimeRating::PG13.as_str(), "p_g13");
    assert_eq!(AnimeRating::Rx.as_str(), "rx");
}

#[test]
fn response_enum_names() {
    assert_eq!(AnimeStatus::Airing.wire_name(), "Currently Airing");
    assert_eq!(jikan_moe::types::AnimeType::Tv.wire_name(), "TV");
}

#[test]
fn success_statuses() {
    assert!(status_is_success(200));
    assert!(status_is_success(299));
    assert!(!status_is_success(199));
    assert!(!status_is_success(300));
    assert!(!status_is_success(404));
}

#[test]
fn default_pagination_has_no_next_page() {
    let p = Pagination::default();
    assert!(!p.has_next_page);
    assert_eq!(p.last_visible_page, 0);
    assert!(p.items.is_none());
}

#[test]
fn endpoint_path_extends_the_base_path() {
    let r: Result<String, ApiError<()>> =
        resolve_endpoint("https://api.jikan.moe/v4/", "/anime/1/characters");
    assert_eq!(r.unwrap(), "https://api.jikan.moe/v4/anime/1/characters");
    let r: Result<String, ApiError<()>> =
        resolve_endpoint("https://api.jikan.moe/v4/", "//anime/2");
    assert_eq!(r.unwrap(), "https://api.jikan.moe/v4/anime/2");
}

#[test]
fn malformed_base_is_a_parse_error() {
    let r: Result<String, ApiError<()>> = resolve_endpoint("not a url", "/anime/1");
    assert!(matches!(r, Err(ApiError::Parse(_))));
}

#[test]
fn verbs_as_text() {
    assert_eq!(Method::Get.as_str(), "GET");
    assert_eq!(Method::Delete.as_str(), "DELETE");
}
