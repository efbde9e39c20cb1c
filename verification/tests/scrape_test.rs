use sophon_cli::cli::db::{page_status_value, result_row, result_rows, scrape_site_numbers};
use sophon_cli::cli::scrape::{
    append_bounded_chunk, batch_scrape_urls, clamp_millis, collect_urls_from_response,
    content_length_exceeds_cap, content_type_label, is_allowed_content_type,
    is_allowed_content_type_header, is_fetchable_url, is_web_scheme, order_pages, page_skip_reason, parse_u64,
    urls_from_response, MAX_SCRAPE_BODY_BYTES,
};
use sophon_cli::domain::{
    ImageResult, NewsResult, SearchBatchResponse, SearchResponse, SearchResult, VideoResult,
    WebResult,
};

#[test]
fn content_filter_allows_text_and_structured_text() {
    assert!(is_allowed_content_type("text/html; charset=utf-8"));
    assert!(is_allowed_content_type("application/json"));
    assert!(is_allowed_content_type("application/activity+json"));
    assert!(is_allowed_content_type("application/rss+xml"));
}

#[test]
fn content_filter_rejects_binary_and_missing_types() {
    assert!(!is_allowed_content_type("image/png"));
    assert!(!is_allowed_content_type("application/octet-stream"));
    assert!(!is_allowed_content_type_header(None));
}

#[test]
fn content_length_over_cap_is_rejected() {
    let value = (MAX_SCRAPE_BODY_BYTES as u64 + 1).to_string();
    assert!(content_length_exceeds_cap(Some(&value)));
}

#[test]
fn only_http_urls_are_fetchable() {
    assert!(is_fetchable_url("https://example.com"));
    assert!(is_fetchable_url("http://example.com"));
    assert!(!is_fetchable_url("file:///etc/passwd"));
    assert!(!is_fetchable_url("not a url"));
}

#[test]
fn content_type_is_read_case_and_space_insensitively() {
    assert!(is_allowed_content_type("  TEXT/Plain ;q=1"));
    assert!(is_allowed_content_type("Application/XHTML+XML"));
    assert!(is_allowed_content_type("application/xml"));
    assert!(!is_allowed_content_type(""));
    assert!(!is_allowed_content_type("json"));
    assert!(is_allowed_content_type_header(Some("text/css")));
    assert!(is_fetchable_url("HTTPS://Example.com/x"));
}

#[test]
fn content_length_parsing_follows_u64_rules() {
    assert_eq!(parse_u64("524288"), Some(524288));
    assert_eq!(parse_u64("+7"), Some(7));
    assert_eq!(parse_u64("18446744073709551615"), Some(u64::MAX));
    assert_eq!(parse_u64("18446744073709551616"), None);
    assert_eq!(parse_u64(""), None);
    assert_eq!(parse_u64("+"), None);
    assert_eq!(parse_u64("-1"), None);
    assert_eq!(parse_u64(" 1"), None);
    assert_eq!(parse_u64("12a"), None);
    for s in ["0", "42", "+9", "99999999999999999999", "1_0"] {
        assert_eq!(parse_u64(s), s.parse::<u64>().ok());
    }
    assert!(!content_length_exceeds_cap(Some("524288")));
    assert!(!content_length_exceeds_cap(Some("many")));
    assert!(!content_length_exceeds_cap(None));
}

#[test]
fn skip_reasons_name_the_content_type_or_the_cap() {
    assert_eq!(
        page_skip_reason(Some("image/png"), None).as_deref(),
        Some("<fetch skipped: unsupported content type image/png>")
    );
    assert_eq!(
        page_skip_reason(None, Some("10")).as_deref(),
        Some("<fetch skipped: unsupported content type missing>")
    );
    assert_eq!(
        page_skip_reason(Some("text/html"), Some("600000")).as_deref(),
        Some("<fetch skipped: response exceeds 524288 bytes>")
    );
    assert_eq!(page_skip_reason(Some("text/html"), Some("10")), None);
    assert_eq!(content_type_label(None), "missing");
    assert_eq!(content_type_label(Some("a/b")), "a/b");
}

#[test]
fn bounded_body_truncates_with_marker() {
    let marker = b"\n<scrape body truncated>";
    let limit = MAX_SCRAPE_BODY_BYTES - marker.len();
    let mut body = vec![1u8; limit - 2];
    assert!(!append_bounded_chunk(&mut body, &[2, 2]));
    assert_eq!(body.len(), limit);
    assert!(append_bounded_chunk(&mut body, &[3]));
    assert_eq!(body.len(), MAX_SCRAPE_BODY_BYTES);
    assert!(body.ends_with(marker));

    let mut small = vec![9u8];
    assert!(!append_bounded_chunk(&mut small, &[8, 7]));
    assert_eq!(small, vec![9, 8, 7]);
    let mut near = vec![0u8; limit - 1];
    assert!(append_bounded_chunk(&mut near, &[5, 6, 7]));
    assert_eq!(near.len(), MAX_SCRAPE_BODY_BYTES);
    assert_eq!(near[limit - 1], 5);
}

#[test]
fn pages_are_put_back_in_fetch_order() {
    let page = |u: &str| (u.to_string(), Some(200u16), String::new());
    let ordered = order_pages(vec![
        (2, page("c")),
        (usize::MAX, page("lost1")),
        (0, page("a")),
        (usize::MAX, page("lost2")),
        (1, page("b")),
    ]);
    let urls: Vec<&str> = ordered.iter().map(|p| p.0.as_str()).collect();
    assert_eq!(urls, vec!["a", "b", "c", "lost1", "lost2"]);
    assert!(order_pages(vec![]).is_empty());
    assert_eq!(clamp_millis(12), 12);
    assert_eq!(clamp_millis(u128::MAX), u64::MAX);
}

fn web(url: &str) -> SearchResult {
    SearchResult::Web(WebResult {
        title: "t".to_string(),
        url: url.to_string(),
        snippet: None,
        display_url: None,
    })
}

fn response(provider: &str, urls: &[&str]) -> SearchResponse {
    SearchResponse {
        query: "q".to_string(),
        provider: provider.to_string(),
        results: urls.iter().map(|u| web(u)).collect(),
        total_estimated: None,
        next_page: None,
    }
}

#[test]
fn scrape_urls_are_fetchable_limited_and_in_order() {
    let r = response(
        "brave",
        &["https://a.example", "mailto:x@y", "http://b.example", "https://c.example"],
    );
    assert_eq!(
        urls_from_response(&r),
        vec!["https://a.example", "http://b.example", "https://c.example"]
    );
    assert_eq!(
        collect_urls_from_response(&r, 2),
        vec!["https://a.example", "http://b.example"]
    );
    assert!(collect_urls_from_response(&r, 0).is_empty());
    assert_eq!(collect_urls_from_response(&r, 10).len(), 3);
}

#[test]
fn batch_scrape_urls_are_distinct_across_providers() {
    let batch = SearchBatchResponse {
        query: "q".to_string(),
        responses: vec![
            response("brave", &["https://a.example", "https://b.example"]),
            response("exa", &["https://b.example", "ftp://c.example", "https://d.example"]),
        ],
        failures: vec![],
    };
    assert_eq!(
        batch_scrape_urls(&batch, 10),
        vec!["https://a.example", "https://b.example", "https://d.example"]
    );
    assert_eq!(
        batch_scrape_urls(&batch, 2),
        vec!["https://a.example", "https://b.example"]
    );
    assert!(batch_scrape_urls(&batch, 0).is_empty());
}

#[test]
fn result_rows_keep_the_columns_of_each_kind() {
    let news = SearchResult::News(NewsResult {
        title: "n".to_string(),
        url: "u".to_string(),
        snippet: Some("s".to_string()),
        source: Some("src".to_string()),
        published_at: Some("1d".to_string()),
    });
    let row = result_row(&news);
    assert_eq!(row.result_type, "news");
    assert_eq!(row.source.as_deref(), Some("src"));
    assert_eq!(row.published_at.as_deref(), Some("1d"));
    assert_eq!(row.thumbnail_url, None);

    let image = SearchResult::Image(ImageResult {
        title: "i".to_string(),
        url: "u".to_string(),
        thumbnail_url: Some("th".to_string()),
        source: None,
    });
    assert_eq!(result_row(&image).result_type, "image");
    assert_eq!(result_row(&image).thumbnail_url.as_deref(), Some("th"));
    let video = SearchResult::Video(VideoResult {
        title: "v".to_string(),
        url: "u".to_string(),
        thumbnail_url: None,
        duration: Some("10:00".to_string()),
        published_at: None,
    });
    assert_eq!(result_row(&video).duration.as_deref(), Some("10:00"));
    assert_eq!(result_row(&web("w")).result_type, "web");

    let rows = result_rows(&SearchResponse {
        query: "q".to_string(),
        provider: "p".to_string(),
        results: vec![web("1"), news, video],
        total_estimated: None,
        next_page: None,
    });
    let kinds: Vec<&str> = rows.iter().map(|r| r.result_type.as_str()).collect();
    assert_eq!(kinds, vec!["web", "news", "video"]);
    assert_eq!(scrape_site_numbers(100, 5), (100, 5));
    assert_eq!(page_status_value(Some(404)), Some(404));
    assert_eq!(page_status_value(None), None);
}

#[test]
fn only_web_schemes_are_fetched() {
    assert!(is_web_scheme(&Some("http".to_string())));
    assert!(is_web_scheme(&Some("https".to_string())));
    assert!(!is_web_scheme(&Some("ftp".to_string())));
    assert!(!is_web_scheme(&Some("HTTP".to_string())));
    assert!(!is_web_scheme(&None));
    assert!(is_fetchable_url("HTTPS://Example.com/a"));
    assert!(!is_fetchable_url("mailto:someone@example.com"));
}

#[test]
fn single_response_scrape_fetches_each_link_once() {
    let r = response(
        "brave",
        &["https://a.example", "https://a.example", "ftp://x", "https://b.example", "https://a.example"],
    );
    assert_eq!(
        collect_urls_from_response(&r, 2),
        vec!["https://a.example", "https://b.example"]
    );
    assert_eq!(
        collect_urls_from_response(&r, 10),
        vec!["https://a.example", "https://b.example"]
    );
    assert_eq!(collect_urls_from_response(&r, 1), vec!["https://a.example"]);
}
