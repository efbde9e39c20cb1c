//! What a search run stores: one row per result. Writing the rows to SQLite
//! is done by the application.
use vstd::prelude::*;

use crate::domain::result::{result_views, SearchResultView};
use crate::domain::{SearchResponse, SearchResult};
use crate::text::{clone_opt, opt_view};

verus! {

/// The columns of one stored search result.
#[derive(Debug, Clone, PartialEq, Eq)]
pub struct SearchResultRow {
    pub result_type: String,
    pub title: String,
    pub url: String,
    pub snippet: Option<String>,
    pub source: Option<String>,
    pub published_at: Option<String>,
    pub thumbnail_url: Option<String>,
    pub duration: Option<String>,
    pub display_url: Option<String>,
}

#[verifier::ext_equal]
pub struct SearchResultRowView {
    pub result_type: Seq<char>,
    pub title: Seq<char>,
    pub url: Seq<char>,
    pub snippet: Option<Seq<char>>,
    pub source: Option<Seq<char>>,
    pub published_at: Option<Seq<char>>,
    pub thumbnail_url: Option<Seq<char>>,
    pub duration: Option<Seq<char>>,
    pub display_url: Option<Seq<char>>,
}

impl View for SearchResultRow {
    type V = SearchResultRowView;

    open spec fn view(&self) -> SearchResultRowView {
        SearchResultRowView {
            result_type: self.result_type@,
            title: self.title@,
            url: self.url@,
            snippet: opt_view(self.snippet),
            source: opt_view(self.source),
            published_at: opt_view(self.published_at),
            thumbnail_url: opt_view(self.thumbnail_url),
            duration: opt_view(self.duration),
            display_url: opt_view(self.display_url),
        }
    }
}

/// The row stored for a result: its kind and the columns that kind has;
/// the others are empty.
pub open spec fn spec_result_row(r: SearchResultView) -> SearchResultRowView {
    match r {
        SearchResultView::Web(w) => SearchResultRowView {
            result_type: "web"@,
            title: w.title,
            url: w.url,
            snippet: w.snippet,
            source: None,
            published_at: None,
            thumbnail_url: None,
            duration: None,
            display_url: w.display_url,
        },
        SearchResultView::News(w) => SearchResultRowView {
            result_type: "news"@,
            title: w.title,
            url: w.url,
            snippet: w.snippet,
            source: w.source,
            published_at: w.published_at,
            thumbnail_url: None,
            duration: None,
            display_url: None,
        },
        SearchResultView::Image(w) => SearchResultRowView {
            result_type: "image"@,
            title: w.title,
            url: w.url,
            snippet: None,
            source: w.source,
            published_at: None,
            thumbnail_url: w.thumbnail_url,
            duration: None,
            display_url: None,
        },
        SearchResultView::Video(w) => SearchResultRowView {
            result_type: "video"@,
            title: w.title,
            url: w.url,
            snippet: None,
            source: None,
            published_at: w.published_at,
            thumbnail_url: w.thumbnail_url,
            duration: w.duration,
            display_url: None,
        },
    }
}

/// The row stored for a result.
pub fn result_row(result: &SearchResult) -> (r: SearchResultRow)
    ensures
        r@ == spec_result_row(result@),
{
    let row = match result {
        SearchResult::Web(w) => SearchResultRow {
            result_type: String::from_str("web"),
            title: w.title.clone(),
            url: w.url.clone(),
            snippet: clone_opt(&w.snippet),
            source: None,
            published_at: None,
            thumbnail_url: None,
            duration: None,
            display_url: clone_opt(&w.display_url),
        },
        SearchResult::News(w) => SearchResultRow {
            result_type: String::from_str("news"),
            title: w.title.clone(),
            url: w.url.clone(),
            snippet: clone_opt(&w.snippet),
            source: clone_opt(&w.source),
            published_at: clone_opt(&w.published_at),
            thumbnail_url: None,
            duration: None,
            display_url: None,
        },
        SearchResult::Image(w) => SearchResultRow {
            result_type: String::from_str("image"),
            title: w.title.clone(),
            url: w.url.clone(),
            snippet: None,
            source: clone_opt(&w.source),
            published_at: None,
            thumbnail_url: clone_opt(&w.thumbnail_url),
            duration: None,
            display_url: None,
        },
        SearchResult::Video(w) => SearchResultRow {
            result_type: String::from_str("video"),
            title: w.title.clone(),
            url: w.url.clone(),
            snippet: None,
            source: None,
            published_at: clone_opt(&w.published_at),
            thumbnail_url: clone_opt(&w.thumbnail_url),
            duration: clone_opt(&w.duration),
            display_url: None,
        },
    };
    assert(row@ =~= spec_result_row(result@));
    row
}

/// The rows stored for a response: one per result, in order.
pub fn result_rows(response: &SearchResponse) -> (r: Vec<SearchResultRow>)
    ensures
        r@.map_values(|row: SearchResultRow| row@) == result_views(response.results@).map_values(
            |v: SearchResultView| spec_result_row(v),
        ),
{
    let ghost rs = result_views(response.results@).map_values(
        |v: SearchResultView| spec_result_row(v),
    );
    let mut rows: Vec<SearchResultRow> = Vec::new();
    let mut i: usize = 0;
    while i < response.results.len()
        invariant
            i <= response.results@.len(),
            rs == result_views(response.results@).map_values(
                |v: SearchResultView| spec_result_row(v),
            ),
            rows@.map_values(|row: SearchResultRow| row@) == rs.take(i as int),
        decreases response.results@.len() - i,
    {
        let ghost before = rows@.map_values(|row: SearchResultRow| row@);
        let row = result_row(&response.results[i]);
        rows.push(row);
        assert(rs[i as int] == spec_result_row(response.results@[i as int]@));
        assert(rows@.map_values(|row: SearchResultRow| row@) =~= before.push(rows@.last()@));
        assert(rows@.map_values(|row: SearchResultRow| row@) =~= rs.take(i + 1));
        i = i + 1;
    }
    assert(rs.take(rs.len() as int) =~= rs);
    rows
}

/// The numeric columns of a stored scrape: elapsed milliseconds and page
/// limit, as SQLite integers (`as i64`).
pub fn scrape_site_numbers(duration_ms: u64, page_limit: usize) -> (r: (i64, i64))
    ensures
        r.0 == duration_ms as i64,
        r.1 == page_limit as i64,
{
    (duration_ms as i64, page_limit as i64)
}

/// The status column of a stored page.
pub fn page_status_value(status: Option<u16>) -> (r: Option<i64>)
    ensures
        r == match status {
            Some(s) => Some(s as i64),
            None => None::<i64>,
        },
{
    match status {
        Some(s) => Some(s as i64),
        None => None,
    }
}

} // verus!
