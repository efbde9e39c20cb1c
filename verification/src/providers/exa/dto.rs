//! The Exa search API's request and answer, field by field.
use vstd::prelude::*;

verus! {

#[derive(Debug, Clone, PartialEq, Eq)]
pub struct ExaSearchRequest {
    pub query: String,
    pub search_type: String,
    pub num_results: Option<usize>,
    pub category: Option<String>,
    pub user_location: Option<String>,
    pub start_published_date: Option<String>,
    pub end_published_date: Option<String>,
    pub moderation: Option<bool>,
    pub contents: ExaContentsRequest,
}

#[derive(Debug, Clone, PartialEq, Eq)]
pub struct ExaContentsRequest {
    pub text: Option<bool>,
    pub highlights: Option<ExaHighlightsRequest>,
    pub summary: Option<ExaSummaryRequest>,
}

#[derive(Debug, Clone, PartialEq, Eq)]
pub struct ExaHighlightsRequest {
    pub max_characters: u32,
    pub query: Option<String>,
}

/// Request-time `contents.summary` object with its query.
#[derive(Debug, Clone, PartialEq, Eq)]
pub struct ExaSummaryRequest {
    pub query: String,
}

#[derive(Debug, Clone, PartialEq, Eq)]
pub struct ExaSearchResponse {
    pub request_id: Option<String>,
    pub search_type: Option<String>,
    pub results: Vec<ExaResult>,
}

#[derive(Debug, Clone, PartialEq, Eq)]
pub struct ExaResult {
    pub title: Option<String>,
    pub url: Option<String>,
    pub published_date: Option<String>,
    pub author: Option<String>,
    pub highlights: Vec<String>,
    pub text: Option<String>,
    pub summary: Option<String>,
}

} // verus!
