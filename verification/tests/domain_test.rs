use sophon_cli::app::fanout_search_service::FanoutSearchService;
use sophon_cli::app::search_service::SearchService;
use sophon_cli::domain::{
    ProviderSearchFailure, SearchBatchResponse, SearchError, SearchQuery, SearchResponse,
    SearchType,
};
use sophon_cli::transport::http::{classify_status, failure_error, status_error, StatusClass};

#[test]
fn search_batch_response_can_hold_success_and_failure() {
    let response = SearchResponse {
        query: "rust".to_string(),
        provider: "brave".to_string(),
        results: vec![],
        total_estimated: None,
        next_page: None,
    };
    let failure = ProviderSearchFailure {
        provider: "exa".to_string(),
        error: SearchError::InvalidQuery("unsupported".to_string()),
    };
    let batch = SearchBatchResponse {
        query: "rust".to_string(),
        responses: vec![response],
        failures: vec![failure],
    };

    assert_eq!(batch.query, "rust");
    assert_eq!(batch.responses[0].provider, "brave");
    assert_eq!(batch.failures[0].provider, "exa");
    assert_eq!(
        batch.failures[0].error.to_string(),
        "invalid query: unsupported"
    );
}

#[test]
fn every_search_error_has_its_message() {
    let cases = vec![
        (SearchError::InvalidQuery("q".to_string()), "invalid query: q"),
        (SearchError::Config("c".to_string()), "provider configuration error: c"),
        (SearchError::Auth, "authentication failed"),
        (SearchError::RateLimited, "rate limited"),
        (SearchError::Transport("t".to_string()), "transport error: t"),
        (SearchError::Decode("d".to_string()), "provider returned invalid data: d"),
        (SearchError::Provider("p".to_string()), "provider error: p"),
    ];
    for (error, message) in cases {
        assert_eq!(error.to_string(), message);
    }
}

fn query() -> SearchQuery {
    SearchQuery {
        text: "distributed systems".to_string(),
        search_type: SearchType::Web,
        limit: Some(10),
        offset: None,
        safe_search: None,
        country: None,
        language: None,
        time_range: None,
    }
}

fn response(provider: &str, total: Option<u64>) -> SearchResponse {
    SearchResponse {
        query: "provider supplied query".to_string(),
        provider: provider.to_string(),
        results: vec![],
        total_estimated: total,
        next_page: None,
    }
}

#[test]
fn fanout_gathers_in_provider_order_without_short_circuiting() {
    let outcomes = vec![
        ("brave".to_string(), Ok(response("brave", Some(100)))),
        (
            "broken".to_string(),
            Err(SearchError::Provider("temporary outage".to_string())),
        ),
        ("exa".to_string(), Ok(response("exa", Some(50)))),
    ];
    let batch = FanoutSearchService::<()>::gather(query(), outcomes);

    assert_eq!(batch.query, "distributed systems");
    assert_eq!(batch.responses.len(), 2);
    assert_eq!(batch.responses[0].provider, "brave");
    assert_eq!(batch.responses[0].total_estimated, Some(100));
    assert_eq!(batch.responses[1].provider, "exa");
    assert_eq!(batch.failures.len(), 1);
    assert_eq!(batch.failures[0].provider, "broken");
    assert_eq!(
        batch.failures[0].error.to_string(),
        "provider error: temporary outage"
    );
}

#[test]
fn services_keep_their_providers() {
    let service = SearchService::new("mock");
    assert_eq!(*service.provider(), "mock");
    let fanout = FanoutSearchService::new(vec!["alpha", "beta", "gamma"]);
    assert_eq!(fanout.providers(), &vec!["alpha", "beta", "gamma"]);
    let empty = FanoutSearchService::<()>::gather(query(), vec![]);
    assert!(empty.responses.is_empty() && empty.failures.is_empty());
}

#[test]
fn http_statuses_decide_the_error() {
    assert_eq!(classify_status(200), StatusClass::Success);
    assert_eq!(classify_status(204), StatusClass::Success);
    assert_eq!(classify_status(401), StatusClass::Unauthorized);
    assert_eq!(classify_status(403), StatusClass::Unauthorized);
    assert_eq!(classify_status(429), StatusClass::RateLimited);
    assert_eq!(classify_status(500), StatusClass::Failure);
    assert_eq!(classify_status(302), StatusClass::Failure);
    assert_eq!(status_error(401, "x"), SearchError::Auth);
    assert_eq!(status_error(429, "x"), SearchError::RateLimited);
    assert_eq!(
        status_error(404, "missing"),
        SearchError::Provider("HTTP 404 Not Found: missing".to_string())
    );
    assert_eq!(
        status_error(599, ""),
        SearchError::Provider("HTTP 599 <unknown status code>: ".to_string())
    );
}

#[test]
fn failed_answers_carry_status_text_and_body() {
    assert_eq!(
        failure_error("502 Bad Gateway", "upstream down"),
        SearchError::Provider("HTTP 502 Bad Gateway: upstream down".to_string())
    );
    assert_eq!(
        failure_error("", ""),
        SearchError::Provider("HTTP : ".to_string())
    );
}
