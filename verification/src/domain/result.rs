use vstd::prelude::*;

use crate::domain::error::SearchError;
use crate::text::opt_view;

verus! {

/// An opaque provider token for the next page of results.
#[derive(Debug, Clone, PartialEq, Eq)]
pub struct PageToken(pub String);

/// The results one provider returned for one query.
#[derive(Debug, Clone, PartialEq)]
pub struct SearchResponse {
    pub query: String,
    pub provider: String,
    pub results: Vec<SearchResult>,
    pub total_estimated: Option<u64>,
    pub next_page: Option<PageToken>,
}

/// The outcome of querying several providers with one query.
#[derive(Debug)]
pub struct SearchBatchResponse {
    pub query: String,
    pub responses: Vec<SearchResponse>,
    pub failures: Vec<ProviderSearchFailure>,
}

/// A provider that failed during a fan-out search, with its error.
#[derive(Debug)]
pub struct ProviderSearchFailure {
    pub provider: String,
    pub error: SearchError,
}

/// One normalized search result.
#[derive(Debug, Clone, PartialEq)]
pub enum SearchResult {
    Web(WebResult),
    News(NewsResult),
    Image(ImageResult),
    Video(VideoResult),
}

#[derive(Debug, Clone, PartialEq)]
pub struct WebResult {
    pub title: String,
    pub url: String,
    pub snippet: Option<String>,
    pub display_url: Option<String>,
}

#[derive(Debug, Clone, PartialEq)]
pub struct NewsResult {
    pub title: String,
    pub url: String,
    pub snippet: Option<String>,
    pub source: Option<String>,
    pub published_at: Option<String>,
}

#[derive(Debug, Clone, PartialEq)]
pub struct ImageResult {
    pub title: String,
    pub url: String,
    pub thumbnail_url: Option<String>,
    pub source: Option<String>,
}

#[derive(Debug, Clone, PartialEq)]
pub struct VideoResult {
    pub title: String,
    pub url: String,
    pub thumbnail_url: Option<String>,
    pub duration: Option<String>,
    pub published_at: Option<String>,
}

// ---------------------------------------------------------------------
// Mathematical models
// ---------------------------------------------------------------------

#[verifier::ext_equal]
pub struct WebResultView {
    pub title: Seq<char>,
    pub url: Seq<char>,
    pub snippet: Option<Seq<char>>,
    pub display_url: Option<Seq<char>>,
}

#[verifier::ext_equal]
pub struct NewsResultView {
    pub title: Seq<char>,
    pub url: Seq<char>,
    pub snippet: Option<Seq<char>>,
    pub source: Option<Seq<char>>,
    pub published_at: Option<Seq<char>>,
}

#[verifier::ext_equal]
pub struct ImageResultView {
    pub title: Seq<char>,
    pub url: Seq<char>,
    pub thumbnail_url: Option<Seq<char>>,
    pub source: Option<Seq<char>>,
}

#[verifier::ext_equal]
pub struct VideoResultView {
    pub title: Seq<char>,
    pub url: Seq<char>,
    pub thumbnail_url: Option<Seq<char>>,
    pub duration: Option<Seq<char>>,
    pub published_at: Option<Seq<char>>,
}

#[verifier::ext_equal]
pub enum SearchResultView {
    Web(WebResultView),
    News(NewsResultView),
    Image(ImageResultView),
    Video(VideoResultView),
}

#[verifier::ext_equal]
pub struct SearchResponseView {
    pub query: Seq<char>,
    pub provider: Seq<char>,
    pub results: Seq<SearchResultView>,
    pub total_estimated: Option<u64>,
    pub next_page: Option<Seq<char>>,
}

impl View for WebResult {
    type V = WebResultView;

    open spec fn view(&self) -> WebResultView {
        WebResultView {
            title: self.title@,
            url: self.url@,
            snippet: opt_view(self.snippet),
            display_url: opt_view(self.display_url),
        }
    }
}

impl View for NewsResult {
    type V = NewsResultView;

    open spec fn view(&self) -> NewsResultView {
        NewsResultView {
            title: self.title@,
            url: self.url@,
            snippet: opt_view(self.snippet),
            source: opt_view(self.source),
            published_at: opt_view(self.published_at),
        }
    }
}

impl View for ImageResult {
    type V = ImageResultView;

    open spec fn view(&self) -> ImageResultView {
        ImageResultView {
            title: self.title@,
            url: self.url@,
            thumbnail_url: opt_view(self.thumbnail_url),
            source: opt_view(self.source),
        }
    }
}

impl View for VideoResult {
    type V = VideoResultView;

    open spec fn view(&self) -> VideoResultView {
        VideoResultView {
            title: self.title@,
            url: self.url@,
            thumbnail_url: opt_view(self.thumbnail_url),
            duration: opt_view(self.duration),
            published_at: opt_view(self.published_at),
        }
    }
}

impl View for SearchResult {
    type V = SearchResultView;

    open spec fn view(&self) -> SearchResultView {
        match self {
            SearchResult::Web(r) => SearchResultView::Web(r@),
            SearchResult::News(r) => SearchResultView::News(r@),
            SearchResult::Image(r) => SearchResultView::Image(r@),
            SearchResult::Video(r) => SearchResultView::Video(r@),
        }
    }
}

impl SearchResultView {
    /// The link of the result, whatever its kind.
    pub open spec fn url(self) -> Seq<char> {
        match self {
            SearchResultView::Web(r) => r.url,
            SearchResultView::News(r) => r.url,
            SearchResultView::Image(r) => r.url,
            SearchResultView::Video(r) => r.url,
        }
    }
}

/// The models of a list of results.
pub open spec fn result_views(results: Seq<SearchResult>) -> Seq<SearchResultView> {
    results.map_values(|r: SearchResult| r@)
}

impl View for SearchResponse {
    type V = SearchResponseView;

    open spec fn view(&self) -> SearchResponseView {
        SearchResponseView {
            query: self.query@,
            provider: self.provider@,
            results: result_views(self.results@),
            total_estimated: self.total_estimated,
            next_page: match self.next_page {
                Some(t) => Some(t.0@),
                None => None,
            },
        }
    }
}

impl SearchResult {
    /// The link of the result, whatever its kind.
    pub fn url(&self) -> (r: &String)
        ensures
            r@ == self@.url(),
    {
        match self {
            SearchResult::Web(r) => &r.url,
            SearchResult::News(r) => &r.url,
            SearchResult::Image(r) => &r.url,
            SearchResult::Video(r) => &r.url,
        }
    }
}

} // verus!
