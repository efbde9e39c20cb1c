use sophon_cli::domain::{
    ProviderCapabilities, SafeSearch, SearchError, SearchProvider, SearchQuery, SearchResult,
    SearchType, TimeRange,
};
use sophon_cli::providers::brave::client::BraveProvider;
use sophon_cli::providers::brave::config::BraveConfig;
use sophon_cli::providers::brave::dto::{
    BraveImageResult, BraveImagesResponse, BraveNewsResponse, BraveNewsResult, BraveNewsResults,
    BraveQuery, BraveThumbnail, BraveVideoResult, BraveVideosResponse, BraveVideosResults,
    BraveWebResponse, BraveWebResult, BraveWebResults,
};
use sophon_cli::providers::brave::mapper::{
    map_images_response, map_news_response, map_videos_response, map_web_response,
};
use sophon_cli::providers::config::EnvVarError;
use sophon_cli::providers::exa::client::{
    published_date_window, published_date_window_at, published_date_window_for, ExaProvider,
};
use sophon_cli::providers::exa::config::ExaConfig;
use sophon_cli::providers::exa::dto::{ExaResult, ExaSearchResponse};
use sophon_cli::providers::exa::mapper::{
    cap_snippet_chars, join_highlights, map_news_response as exa_map_news_response,
    map_web_response as exa_map_web_response,
};

#[test]
fn test_map_web_response() {
    let dto = BraveWebResponse {
        query: Some(BraveQuery {
            original: Some("rust".to_string()),
        }),
        web: Some(BraveWebResults {
            results: Some(vec![BraveWebResult {
                title: Some("Rust Lang".to_string()),
                url: Some("https://rust-lang.org".to_string()),
                description: Some("The Rust language".to_string()),
                display_url: Some("rust-lang.org".to_string()),
            }]),
            total: Some(42),
        }),
    };
    let resp = map_web_response(dto);
    assert_eq!(resp.query, "rust");
    assert_eq!(resp.provider, "brave");
    assert_eq!(resp.total_estimated, Some(42));
    assert_eq!(resp.results.len(), 1);
    match &resp.results[0] {
        SearchResult::Web(r) => {
            assert_eq!(r.title, "Rust Lang");
            assert_eq!(r.url, "https://rust-lang.org");
            assert_eq!(r.snippet, Some("The Rust language".to_string()));
            assert_eq!(r.display_url, Some("rust-lang.org".to_string()));
        }
        _ => panic!("expected Web result"),
    }
}

#[test]
fn test_map_news_response() {
    let dto = BraveNewsResponse {
        query: Some(BraveQuery {
            original: Some("rust".to_string()),
        }),
        news: Some(BraveNewsResults {
            results: Some(vec![BraveNewsResult {
                title: Some("Rust News".to_string()),
                url: Some("https://example.com/news".to_string()),
                description: Some("Latest in Rust".to_string()),
                source: Some("Example News".to_string()),
                age: Some("2h".to_string()),
            }]),
        }),
    };
    let resp = map_news_response(dto);
    assert_eq!(resp.query, "rust");
    assert_eq!(resp.results.len(), 1);
    match &resp.results[0] {
        SearchResult::News(r) => {
            assert_eq!(r.title, "Rust News");
            assert_eq!(r.source, Some("Example News".to_string()));
            assert_eq!(r.published_at, Some("2h".to_string()));
        }
        _ => panic!("expected News result"),
    }
}

#[test]
fn test_map_images_response() {
    let dto = BraveImagesResponse {
        query: Some(BraveQuery {
            original: Some("rust logo".to_string()),
        }),
        image_results: Some(vec![BraveImageResult {
            title: Some("Rust Logo".to_string()),
            url: Some("https://example.com/img.png".to_string()),
            thumbnail: Some(BraveThumbnail {
                src: Some("https://example.com/thumb.png".to_string()),
            }),
            source: Some("Example".to_string()),
        }]),
    };
    let resp = map_images_response(dto);
    assert_eq!(resp.query, "rust logo");
    assert_eq!(resp.results.len(), 1);
    match &resp.results[0] {
        SearchResult::Image(r) => {
            assert_eq!(r.title, "Rust Logo");
            assert_eq!(
                r.thumbnail_url,
                Some("https://example.com/thumb.png".to_string())
            );
        }
        _ => panic!("expected Image result"),
    }
}

#[test]
fn test_map_videos_response() {
    let dto = BraveVideosResponse {
        query: Some(BraveQuery {
            original: Some("rust tutorial".to_string()),
        }),
        videos: Some(BraveVideosResults {
            results: Some(vec![BraveVideoResult {
                title: Some("Learn Rust".to_string()),
                url: Some("https://example.com/video".to_string()),
                thumbnail: Some(BraveThumbnail {
                    src: Some("https://example.com/vthumb.png".to_string()),
                }),
                duration: Some("10:00".to_string()),
                age: Some("1d".to_string()),
            }]),
        }),
    };
    let resp = map_videos_response(dto);
    assert_eq!(resp.query, "rust tutorial");
    assert_eq!(resp.results.len(), 1);
    match &resp.results[0] {
        SearchResult::Video(r) => {
            assert_eq!(r.title, "Learn Rust");
            assert_eq!(r.duration, Some("10:00".to_string()));
            assert_eq!(r.published_at, Some("1d".to_string()));
        }
        _ => panic!("expected Video result"),
    }
}

#[test]
fn brave_mappers_default_missing_fields() {
    let resp = map_web_response(BraveWebResponse {
        query: None,
        web: Some(BraveWebResults {
            results: Some(vec![
                BraveWebResult {
                    title: None,
                    url: None,
                    description: None,
                    display_url: None,
                },
                BraveWebResult {
                    title: Some("second".to_string()),
                    url: None,
                    description: None,
                    display_url: None,
                },
            ]),
            total: None,
        }),
    });
    assert_eq!(resp.query, "");
    assert_eq!(resp.total_estimated, None);
    assert_eq!(resp.next_page, None);
    assert_eq!(resp.results.len(), 2);
    match &resp.results[1] {
        SearchResult::Web(r) => {
            assert_eq!(r.title, "second");
            assert_eq!(r.url, "");
        }
        _ => panic!("expected Web result"),
    }

    let empty = map_videos_response(BraveVideosResponse {
        query: None,
        videos: None,
    });
    assert!(empty.results.is_empty());
    let no_thumb = map_images_response(BraveImagesResponse {
        query: None,
        image_results: Some(vec![BraveImageResult {
            title: None,
            url: None,
            thumbnail: Some(BraveThumbnail { src: None }),
            source: None,
        }]),
    });
    match &no_thumb.results[0] {
        SearchResult::Image(r) => assert_eq!(r.thumbnail_url, None),
        _ => panic!("expected Image result"),
    }
}

fn query(text: &str, search_type: SearchType) -> SearchQuery {
    SearchQuery {
        text: text.to_string(),
        search_type,
        limit: None,
        offset: None,
        safe_search: None,
        country: None,
        language: None,
        time_range: None,
    }
}

fn brave() -> BraveProvider<()> {
    BraveProvider::new(
        (),
        BraveConfig {
            api_key: "test-key".to_string(),
            base_url: "https://api.search.brave.com/res/v1".to_string(),
        },
    )
}

fn pairs(v: &[(&str, &str)]) -> Vec<(String, String)> {
    v.iter().map(|(k, v)| (k.to_string(), v.to_string())).collect()
}

#[test]
fn brave_request_carries_query_options() {
    let provider = brave();
    let mut q = query("rust", SearchType::Web);
    q.limit = Some(10);
    q.safe_search = Some(SafeSearch::Moderate);
    let request = provider.build_request(&q);
    assert_eq!(request.url, "https://api.search.brave.com/res/v1/web/search");
    assert_eq!(
        request.headers,
        pairs(&[("Accept", "application/json"), ("X-Subscription-Token", "test-key")])
    );
    assert_eq!(
        request.params,
        pairs(&[("q", "rust"), ("count", "10"), ("safesearch", "moderate")])
    );

    let mut all = query("ai", SearchType::Videos);
    all.limit = Some(3);
    all.offset = Some(20);
    all.safe_search = Some(SafeSearch::Off);
    all.country = Some("US".to_string());
    all.language = Some("en".to_string());
    all.time_range = Some(TimeRange::Month);
    let request = provider.build_request(&all);
    assert_eq!(request.url, "https://api.search.brave.com/res/v1/videos/search");
    assert_eq!(
        request.params,
        pairs(&[
            ("q", "ai"),
            ("count", "3"),
            ("offset", "20"),
            ("safesearch", "off"),
            ("country", "US"),
            ("search_lang", "en"),
            ("freshness", "month"),
        ])
    );
    assert_eq!(
        provider.build_request(&query("x", SearchType::News)).url,
        "https://api.search.brave.com/res/v1/news/search"
    );
    assert_eq!(
        provider.build_request(&query("x", SearchType::Images)).url,
        "https://api.search.brave.com/res/v1/images/search"
    );
}

#[test]
fn providers_report_identity_and_capabilities() {
    let b = brave();
    assert_eq!(b.id(), "brave");
    assert!(b.capabilities().images && b.capabilities().videos && !b.capabilities().pagination);
    let e = exa();
    assert_eq!(e.id(), "exa");
    assert_eq!(
        e.capabilities(),
        ProviderCapabilities {
            web: true,
            news: true,
            images: false,
            videos: false,
            pagination: false,
            safe_search: true,
            time_range_filter: true,
        }
    );
    assert_eq!(
        ProviderCapabilities::default(),
        ProviderCapabilities {
            web: false,
            news: false,
            images: false,
            videos: false,
            pagination: false,
            safe_search: false,
            time_range_filter: false,
        }
    );
}

#[test]
fn configs_treat_blank_keys_as_unconfigured() {
    assert!(matches!(
        BraveConfig::from_env(Ok("   ".to_string())),
        Err(EnvVarError::NotPresent)
    ));
    assert!(matches!(
        ExaConfig::from_env(Ok("".to_string())),
        Err(EnvVarError::NotPresent)
    ));
    assert!(matches!(
        ExaConfig::from_env(Err(EnvVarError::NotUnicode)),
        Err(EnvVarError::NotUnicode)
    ));
    let brave = BraveConfig::from_env(Ok("test-brave-key".to_string())).unwrap();
    assert_eq!(brave.api_key, "test-brave-key");
    assert_eq!(brave.base_url, "https://api.search.brave.com/res/v1");
    let exa = ExaConfig::from_env(Ok(" k ".to_string())).unwrap();
    assert_eq!(exa.api_key, " k ");
    assert_eq!(exa.base_url, "https://api.exa.ai");
}

fn exa() -> ExaProvider<()> {
    ExaProvider::new(
        (),
        ExaConfig {
            api_key: "test-key".to_string(),
            base_url: "https://api.exa.ai".to_string(),
        },
    )
}

#[test]
fn exa_request_posts_expected_payload() {
    let provider = exa();
    let q = SearchQuery {
        text: "ai news".to_string(),
        search_type: SearchType::News,
        limit: Some(3),
        offset: None,
        safe_search: Some(SafeSearch::Strict),
        country: Some("US".to_string()),
        language: None,
        time_range: Some(TimeRange::Week),
    };
    let request = provider.build_request(&q).unwrap();
    assert_eq!(provider.search_url(), "https://api.exa.ai/search");
    assert_eq!(provider.search_headers(), pairs(&[("x-api-key", "test-key")]));
    assert_eq!(request.query, "ai news");
    assert_eq!(request.search_type, "auto");
    assert_eq!(request.num_results, Some(3));
    assert_eq!(request.category.as_deref(), Some("news"));
    assert_eq!(request.user_location.as_deref(), Some("US"));
    assert_eq!(request.moderation, Some(true));
    assert!(request.contents.text.is_none());
    let highlights = request.contents.highlights.as_ref().unwrap();
    assert_eq!(highlights.max_characters, 1200);
    assert_eq!(highlights.query.as_deref(), Some("ai news"));
    assert_eq!(request.contents.summary.as_ref().unwrap().query, "ai news");
    assert!(request.start_published_date.as_deref().unwrap().contains('T'));
    assert!(request.end_published_date.as_deref().unwrap().contains('T'));

    let plain = provider.build_request(&query("rust", SearchType::Web)).unwrap();
    assert_eq!(plain.category, None);
    assert_eq!(plain.moderation, None);
    assert_eq!(plain.start_published_date, None);
    assert_eq!(plain.end_published_date, None);
    let mut off = query("rust", SearchType::Web);
    off.safe_search = Some(SafeSearch::Off);
    assert_eq!(provider.build_request(&off).unwrap().moderation, Some(false));
}

#[test]
fn test_exa_provider_rejects_unsupported_query_fields() {
    let provider = exa();
    let mut offset = query("offset", SearchType::Web);
    offset.offset = Some(10);
    let mut language = query("language", SearchType::News);
    language.language = Some("en".to_string());
    let cases = vec![
        (query("images", SearchType::Images), "exa provider does not support image search"),
        (query("videos", SearchType::Videos), "exa provider does not support video search"),
        (offset, "exa provider does not support offset"),
        (language, "exa provider does not support language selection"),
    ];
    for (q, message) in cases {
        match provider.build_request(&q) {
            Err(SearchError::InvalidQuery(m)) => assert_eq!(m, message),
            other => panic!("expected InvalidQuery, got {other:?}"),
        }
    }
}

#[test]
fn published_date_window_is_exact_for_a_given_clock() {
    let (start, end) = published_date_window_at(TimeRange::Day, 86_400, 0);
    assert_eq!(start.as_deref(), Some("1970-01-01T00:00:00+00:00"));
    assert_eq!(end.as_deref(), Some("1970-01-02T00:00:00+00:00"));
    let (start, end) = published_date_window_at(TimeRange::Week, 1_000_000_000, 500_000_000);
    assert_eq!(start.as_deref(), Some("2001-09-02T01:46:40.500+00:00"));
    assert_eq!(end.as_deref(), Some("2001-09-09T01:46:40.500+00:00"));
    assert_eq!(published_date_window_at(TimeRange::Year, i64::MIN, 0), (None, None));
    assert_eq!(published_date_window(None), Some((None, None)));
    let (start, end) = published_date_window(Some(TimeRange::Month)).expect("the clock reads");
    assert!(start.unwrap().contains('T') && end.unwrap().contains('T'));
    let (start, end) = published_date_window_at(TimeRange::Year, 0, 999_999_999);
    assert_eq!(start.as_deref(), Some("1969-01-01T00:00:00.999999999+00:00"));
    assert_eq!(end.as_deref(), Some("1970-01-01T00:00:00.999999999+00:00"));
    let (start, end) = published_date_window_at(TimeRange::Day, 8_210_266_876_799, 0);
    assert_eq!(start.as_deref(), Some("+262142-12-30T23:59:59+00:00"));
    assert_eq!(end.as_deref(), Some("+262142-12-31T23:59:59+00:00"));
    assert_eq!(published_date_window_at(TimeRange::Day, 8_210_266_876_800, 0), (None, None));
}

#[test]
fn published_date_window_follows_the_clock_reading() {
    assert_eq!(published_date_window_for(TimeRange::Week, None), None);
    assert_eq!(
        published_date_window_for(TimeRange::Day, Some((86_400, 0))),
        Some((
            Some("1970-01-01T00:00:00+00:00".to_string()),
            Some("1970-01-02T00:00:00+00:00".to_string()),
        ))
    );
    assert_eq!(published_date_window_for(TimeRange::Year, Some((i64::MIN, 0))), None);
    assert_eq!(
        published_date_window_for(TimeRange::Day, Some((8_210_266_876_800, 0))),
        None
    );
}

fn sample_result() -> ExaResult {
    ExaResult {
        title: Some("Example headline".to_string()),
        url: Some("https://example.com/news".to_string()),
        published_date: Some("2026-04-15T00:00:00.000Z".to_string()),
        author: Some("Example Reporter".to_string()),
        highlights: vec![],
        text: None,
        summary: Some("Short summary".to_string()),
    }
}

#[test]
fn test_map_news_response_prefers_summary_and_preserves_author() {
    let dto = ExaSearchResponse {
        request_id: Some("req_123".to_string()),
        search_type: Some("auto".to_string()),
        results: vec![ExaResult {
            highlights: vec!["Longer body text".to_string()],
            text: Some("IGNORED FULL TEXT".to_string()),
            ..sample_result()
        }],
    };

    let response = exa_map_news_response("ai news", dto);

    assert_eq!(response.query, "ai news");
    assert_eq!(response.provider, "exa");
    assert_eq!(response.total_estimated, None);
    assert_eq!(response.next_page, None);
    assert_eq!(response.results.len(), 1);
    match &response.results[0] {
        SearchResult::News(result) => {
            assert_eq!(result.title, "Example headline");
            assert_eq!(result.url, "https://example.com/news");
            assert_eq!(result.snippet.as_deref(), Some("Short summary"));
            assert_eq!(result.source.as_deref(), Some("Example Reporter"));
            assert_eq!(
                result.published_at.as_deref(),
                Some("2026-04-15T00:00:00.000Z")
            );
        }
        other => panic!("expected news result, got {other:?}"),
    }
}

#[test]
fn test_map_prefers_summary_over_highlights() {
    let dto = ExaSearchResponse {
        request_id: None,
        search_type: None,
        results: vec![ExaResult {
            summary: Some("Summary wins".to_string()),
            highlights: vec!["Highlight A".to_string(), "Highlight B".to_string()],
            text: Some("x".repeat(50_000)),
            ..sample_result()
        }],
    };
    let response = exa_map_news_response("q", dto);
    match &response.results[0] {
        SearchResult::News(r) => assert_eq!(r.snippet.as_deref(), Some("Summary wins")),
        other => panic!("{other:?}"),
    }
}

#[test]
fn test_map_whitespace_summary_falls_through_to_highlights() {
    let dto = ExaSearchResponse {
        request_id: None,
        search_type: None,
        results: vec![ExaResult {
            summary: Some("   \t  ".to_string()),
            highlights: vec!["Only this".to_string()],
            text: Some("x".repeat(10_000)),
            ..sample_result()
        }],
    };
    let response = exa_map_news_response("q", dto);
    match &response.results[0] {
        SearchResult::News(r) => assert_eq!(r.snippet.as_deref(), Some("Only this")),
        other => panic!("{other:?}"),
    }
}

#[test]
fn test_map_highlights_joined_and_capped() {
    let a = "a".repeat(350);
    let b = "b".repeat(350);
    let dto = ExaSearchResponse {
        request_id: None,
        search_type: None,
        results: vec![ExaResult {
            summary: None,
            highlights: vec![a, b],
            text: Some("SHOULD NOT APPEAR".to_string()),
            ..sample_result()
        }],
    };
    let response = exa_map_news_response("q", dto);
    match &response.results[0] {
        SearchResult::News(r) => {
            let s = r.snippet.as_ref().unwrap();
            assert!(!s.contains("SHOULD NOT APPEAR"));
            assert!(s.chars().count() <= 500);
            assert!(s.ends_with('\u{2026}'));
        }
        other => panic!("{other:?}"),
    }
}

#[test]
fn test_map_no_concise_fields_returns_none_despite_huge_text() {
    let dto = ExaSearchResponse {
        request_id: None,
        search_type: None,
        results: vec![ExaResult {
            summary: None,
            highlights: vec![],
            text: Some("x".repeat(100_000)),
            ..sample_result()
        }],
    };
    let response = exa_map_news_response("q", dto);
    match &response.results[0] {
        SearchResult::News(r) => assert!(r.snippet.is_none()),
        other => panic!("{other:?}"),
    }
}

#[test]
fn exa_web_mapping_and_highlight_joining() {
    let dto = ExaSearchResponse {
        request_id: None,
        search_type: None,
        results: vec![ExaResult {
            summary: None,
            highlights: vec!["  one ".to_string(), "   ".to_string(), "two".to_string()],
            ..sample_result()
        }],
    };
    let response = exa_map_web_response("q", dto);
    match &response.results[0] {
        SearchResult::Web(r) => {
            assert_eq!(r.snippet.as_deref(), Some("one \u{2026} two"));
            assert_eq!(r.display_url, None);
            assert_eq!(r.title, "Example headline");
        }
        other => panic!("{other:?}"),
    }
    assert_eq!(
        join_highlights(&vec![" a ".to_string(), "".to_string(), "b".to_string()]),
        "a \u{2026} b"
    );
    assert_eq!(join_highlights(&vec!["  ".to_string()]), "");
    let chars: Vec<char> = "abcdef".chars().collect();
    assert_eq!(cap_snippet_chars(&chars, 6), "abcdef");
    assert_eq!(cap_snippet_chars(&chars, 4), "abc\u{2026}");
    assert_eq!(cap_snippet_chars(&chars, 0), "\u{2026}");
}

#[test]
fn exa_response_mapping_follows_the_query_kind() {
    let dto = ExaSearchResponse {
        request_id: None,
        search_type: None,
        results: vec![sample_result()],
    };
    let web = ExaProvider::<()>::map_search_response(&query("q", SearchType::Web), dto.clone());
    assert!(matches!(web.results[0], SearchResult::Web(_)));
    let news = ExaProvider::<()>::map_search_response(&query("q", SearchType::News), dto);
    assert!(matches!(news.results[0], SearchResult::News(_)));
    assert_eq!(news.query, "q");
}
