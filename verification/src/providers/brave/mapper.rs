//! Brave Search answers mapped into the shared result model.
use vstd::prelude::*;

use super::dto::{
    BraveImageResult, BraveImagesResponse, BraveNewsResponse, BraveNewsResult, BraveNewsResults,
    BraveQuery, BraveThumbnail, BraveVideoResult, BraveVideosResponse, BraveVideosResults,
    BraveWebResponse, BraveWebResult, BraveWebResults,
};
use crate::domain::result::{
    result_views, ImageResultView, NewsResultView, SearchResponseView, SearchResultView,
    VideoResultView, WebResultView,
};
use crate::domain::{ImageResult, NewsResult, SearchResponse, SearchResult, VideoResult, WebResult};
use crate::text::{opt_seq, opt_view, or_empty, string_or_default, vec_or_empty};

verus! {

/// The query Brave echoes back, or nothing.
pub open spec fn brave_query_text(q: Option<BraveQuery>) -> Seq<char> {
    match q {
        Some(q) => or_empty(q.original),
        None => Seq::empty(),
    }
}

/// The thumbnail link of a Brave image or video, if any.
pub open spec fn thumbnail_src(t: Option<BraveThumbnail>) -> Option<Seq<char>> {
    match t {
        Some(t) => opt_view(t.src),
        None => None,
    }
}

pub open spec fn web_result_view(r: BraveWebResult) -> SearchResultView {
    SearchResultView::Web(
        WebResultView {
            title: or_empty(r.title),
            url: or_empty(r.url),
            snippet: opt_view(r.description),
            display_url: opt_view(r.display_url),
        },
    )
}

pub open spec fn news_result_view(r: BraveNewsResult) -> SearchResultView {
    SearchResultView::News(
        NewsResultView {
            title: or_empty(r.title),
            url: or_empty(r.url),
            snippet: opt_view(r.description),
            source: opt_view(r.source),
            published_at: opt_view(r.age),
        },
    )
}

pub open spec fn image_result_view(r: BraveImageResult) -> SearchResultView {
    SearchResultView::Image(
        ImageResultView {
            title: or_empty(r.title),
            url: or_empty(r.url),
            thumbnail_url: thumbnail_src(r.thumbnail),
            source: opt_view(r.source),
        },
    )
}

pub open spec fn video_result_view(r: BraveVideoResult) -> SearchResultView {
    SearchResultView::Video(
        VideoResultView {
            title: or_empty(r.title),
            url: or_empty(r.url),
            thumbnail_url: thumbnail_src(r.thumbnail),
            duration: opt_view(r.duration),
            published_at: opt_view(r.age),
        },
    )
}

/// A Brave web answer as a search response: every result, in order.
pub open spec fn spec_map_web_response(dto: BraveWebResponse) -> SearchResponseView {
    let results = match dto.web {
        Some(w) => opt_seq(w.results),
        None => Seq::empty(),
    };
    SearchResponseView {
        query: brave_query_text(dto.query),
        provider: "brave"@,
        results: results.map_values(|r: BraveWebResult| web_result_view(r)),
        total_estimated: match dto.web {
            Some(w) => w.total,
            None => None,
        },
        next_page: None,
    }
}

/// A Brave news answer as a search response: every result, in order.
pub open spec fn spec_map_news_response(dto: BraveNewsResponse) -> SearchResponseView {
    let results = match dto.news {
        Some(n) => opt_seq(n.results),
        None => Seq::empty(),
    };
    SearchResponseView {
        query: brave_query_text(dto.query),
        provider: "brave"@,
        results: results.map_values(|r: BraveNewsResult| news_result_view(r)),
        total_estimated: None,
        next_page: None,
    }
}

/// A Brave image answer as a search response: every result, in order.
pub open spec fn spec_map_images_response(dto: BraveImagesResponse) -> SearchResponseView {
    SearchResponseView {
        query: brave_query_text(dto.query),
        provider: "brave"@,
        results: opt_seq(dto.image_results).map_values(|r: BraveImageResult| image_result_view(r)),
        total_estimated: None,
        next_page: None,
    }
}

/// A Brave video answer as a search response: every result, in order.
pub open spec fn spec_map_videos_response(dto: BraveVideosResponse) -> SearchResponseView {
    let results = match dto.videos {
        Some(v) => opt_seq(v.results),
        None => Seq::empty(),
    };
    SearchResponseView {
        query: brave_query_text(dto.query),
        provider: "brave"@,
        results: results.map_values(|r: BraveVideoResult| video_result_view(r)),
        total_estimated: None,
        next_page: None,
    }
}

fn query_string(q: Option<BraveQuery>) -> (r: String)
    ensures
        r@ == brave_query_text(q),
{
    match q {
        Some(q) => string_or_default(q.original),
        None => String::new(),
    }
}

fn thumbnail_string(t: Option<BraveThumbnail>) -> (r: Option<String>)
    ensures
        opt_view(r) == thumbnail_src(t),
{
    match t {
        Some(t) => t.src,
        None => None,
    }
}

pub fn map_web_response(dto: BraveWebResponse) -> (r: SearchResponse)
    ensures
        r@ == spec_map_web_response(dto),
{
    let ghost spec = spec_map_web_response(dto);
    let BraveWebResponse { query, web } = dto;
    let query_text = query_string(query);
    let (total_estimated, results) = match web {
        Some(w) => {
            let BraveWebResults { results, total } = w;
            (total, vec_or_empty(results))
        },
        None => (None, Vec::new()),
    };
    let ghost src = results@;
    let mut out: Vec<SearchResult> = Vec::new();
    for r in it: results.into_iter()
        invariant
            it.seq() == src,
            result_views(out@) == src.take(it.index() as int).map_values(
                |r: BraveWebResult| web_result_view(r),
            ),
    {
        let ghost i = it.index() as int;
        let ghost item = r;
        let ghost prev = out@;
        let BraveWebResult { title, url, description, display_url } = r;
        out.push(
            SearchResult::Web(
                WebResult {
                    title: string_or_default(title),
                    url: string_or_default(url),
                    snippet: description,
                    display_url,
                },
            ),
        );
        proof {
            assert(result_views(out@) =~= result_views(prev).push(out@.last()@));
            assert(src.take(i + 1) =~= src.take(i).push(item));
            assert(result_views(out@) =~= src.take(i + 1).map_values(
                |r: BraveWebResult| web_result_view(r),
            ));
        }
    }
    assert(src.take(src.len() as int) =~= src);
    let r = SearchResponse {
        query: query_text,
        provider: String::from_str("brave"),
        total_estimated,
        next_page: None,
        results: out,
    };
    assert(r@ =~= spec);
    r
}

pub fn map_news_response(dto: BraveNewsResponse) -> (r: SearchResponse)
    ensures
        r@ == spec_map_news_response(dto),
{
    let ghost spec = spec_map_news_response(dto);
    let BraveNewsResponse { query, news } = dto;
    let query_text = query_string(query);
    let results = match news {
        Some(n) => {
            let BraveNewsResults { results } = n;
            vec_or_empty(results)
        },
        None => Vec::new(),
    };
    let ghost src = results@;
    let mut out: Vec<SearchResult> = Vec::new();
    for r in it: results.into_iter()
        invariant
            it.seq() == src,
            result_views(out@) == src.take(it.index() as int).map_values(
                |r: BraveNewsResult| news_result_view(r),
            ),
    {
        let ghost i = it.index() as int;
        let ghost item = r;
        let ghost prev = out@;
        let BraveNewsResult { title, url, description, source, age } = r;
        out.push(
            SearchResult::News(
                NewsResult {
                    title: string_or_default(title),
                    url: string_or_default(url),
                    snippet: description,
                    source,
                    published_at: age,
                },
            ),
        );
        proof {
            assert(result_views(out@) =~= result_views(prev).push(out@.last()@));
            assert(src.take(i + 1) =~= src.take(i).push(item));
            assert(result_views(out@) =~= src.take(i + 1).map_values(
                |r: BraveNewsResult| news_result_view(r),
            ));
        }
    }
    assert(src.take(src.len() as int) =~= src);
    let r = SearchResponse {
        query: query_text,
        provider: String::from_str("brave"),
        total_estimated: None,
        next_page: None,
        results: out,
    };
    assert(r@ =~= spec);
    r
}

pub fn map_images_response(dto: BraveImagesResponse) -> (r: SearchResponse)
    ensures
        r@ == spec_map_images_response(dto),
{
    let ghost spec = spec_map_images_response(dto);
    let BraveImagesResponse { query, image_results } = dto;
    let query_text = query_string(query);
    let results = vec_or_empty(image_results);
    let ghost src = results@;
    let mut out: Vec<SearchResult> = Vec::new();
    for r in it: results.into_iter()
        invariant
            it.seq() == src,
            result_views(out@) == src.take(it.index() as int).map_values(
                |r: BraveImageResult| image_result_view(r),
            ),
    {
        let ghost i = it.index() as int;
        let ghost item = r;
        let ghost prev = out@;
        let BraveImageResult { title, url, thumbnail, source } = r;
        out.push(
            SearchResult::Image(
                ImageResult {
                    title: string_or_default(title),
                    url: string_or_default(url),
                    thumbnail_url: thumbnail_string(thumbnail),
                    source,
                },
            ),
        );
        proof {
            assert(result_views(out@) =~= result_views(prev).push(out@.last()@));
            assert(src.take(i + 1) =~= src.take(i).push(item));
            assert(result_views(out@) =~= src.take(i + 1).map_values(
                |r: BraveImageResult| image_result_view(r),
            ));
        }
    }
    assert(src.take(src.len() as int) =~= src);
    let r = SearchResponse {
        query: query_text,
        provider: String::from_str("brave"),
        total_estimated: None,
        next_page: None,
        results: out,
    };
    assert(r@ =~= spec);
    r
}

pub fn map_videos_response(dto: BraveVideosResponse) -> (r: SearchResponse)
    ensures
        r@ == spec_map_videos_response(dto),
{
    let ghost spec = spec_map_videos_response(dto);
    let BraveVideosResponse { query, videos } = dto;
    let query_text = query_string(query);
    let results = match videos {
        Some(v) => {
            let BraveVideosResults { results } = v;
            vec_or_empty(results)
        },
        None => Vec::new(),
    };
    let ghost src = results@;
    let mut out: Vec<SearchResult> = Vec::new();
    for r in it: results.into_iter()
        invariant
            it.seq() == src,
            result_views(out@) == src.take(it.index() as int).map_values(
                |r: BraveVideoResult| video_result_view(r),
            ),
    {
        let ghost i = it.index() as int;
        let ghost item = r;
        let ghost prev = out@;
        let BraveVideoResult { title, url, thumbnail, duration, age } = r;
        out.push(
            SearchResult::Video(
                VideoResult {
                    title: string_or_default(title),
                    url: string_or_default(url),
                    thumbnail_url: thumbnail_string(thumbnail),
                    duration,
                    published_at: age,
                },
            ),
        );
        proof {
            assert(result_views(out@) =~= result_views(prev).push(out@.last()@));
            assert(src.take(i + 1) =~= src.take(i).push(item));
            assert(result_views(out@) =~= src.take(i + 1).map_values(
                |r: BraveVideoResult| video_result_view(r),
            ));
        }
    }
    assert(src.take(src.len() as int) =~= src);
    let r = SearchResponse {
        query: query_text,
        provider: String::from_str("brave"),
        total_estimated: None,
        next_page: None,
        results: out,
    };
    assert(r@ =~= spec);
    r
}

} // verus!

verus! {

/// Every Brave news result becomes, in the same place, a news result with
/// its title and link (empty when missing), its description as the snippet,
/// its source, and its age as the publication time.
pub proof fn lemma_brave_news_results_keep_their_fields(dto: BraveNewsResponse)
    ensures
        ({
            let rs = match dto.news {
                Some(n) => opt_seq(n.results),
                None => Seq::empty(),
            };
            let out = spec_map_news_response(dto);
            &&& out.provider == "brave"@
            &&& out.query == brave_query_text(dto.query)
            &&& out.results.len() == rs.len()
            &&& forall|i: int|
                0 <= i < rs.len() ==> #[trigger] out.results[i] == SearchResultView::News(
                    NewsResultView {
                        title: or_empty(rs[i].title),
                        url: or_empty(rs[i].url),
                        snippet: opt_view(rs[i].description),
                        source: opt_view(rs[i].source),
                        published_at: opt_view(rs[i].age),
                    },
                )
        }),
{
}

/// Every Brave web result becomes, in the same place, a web result with its
/// title and link (empty when missing), its description as the snippet and
/// its display link.
pub proof fn lemma_brave_web_results_keep_their_fields(dto: BraveWebResponse)
    ensures
        ({
            let rs = match dto.web {
                Some(w) => opt_seq(w.results),
                None => Seq::empty(),
            };
            let out = spec_map_web_response(dto);
            &&& out.provider == "brave"@
            &&& out.query == brave_query_text(dto.query)
            &&& out.total_estimated == (match dto.web {
                Some(w) => w.total,
                None => None,
            })
            &&& out.results.len() == rs.len()
            &&& forall|i: int|
                0 <= i < rs.len() ==> #[trigger] out.results[i] == SearchResultView::Web(
                    WebResultView {
                        title: or_empty(rs[i].title),
                        url: or_empty(rs[i].url),
                        snippet: opt_view(rs[i].description),
                        display_url: opt_view(rs[i].display_url),
                    },
                )
        }),
{
}

/// Every Brave image result becomes, in the same place, an image result with
/// its title and link (empty when missing), its thumbnail's link and its
/// source.
pub proof fn lemma_brave_image_results_keep_their_fields(dto: BraveImagesResponse)
    ensures
        ({
            let rs = opt_seq(dto.image_results);
            let out = spec_map_images_response(dto);
            &&& out.provider == "brave"@
            &&& out.results.len() == rs.len()
            &&& forall|i: int|
                0 <= i < rs.len() ==> #[trigger] out.results[i] == SearchResultView::Image(
                    ImageResultView {
                        title: or_empty(rs[i].title),
                        url: or_empty(rs[i].url),
                        thumbnail_url: match rs[i].thumbnail {
                            Some(t) => opt_view(t.src),
                            None => None,
                        },
                        source: opt_view(rs[i].source),
                    },
                )
        }),
{
}

/// Every Brave video result becomes, in the same place, a video result with
/// its title and link (empty when missing), its thumbnail's link, its
/// duration, and its age as the publication time.
pub proof fn lemma_brave_video_results_keep_their_fields(dto: BraveVideosResponse)
    ensures
        ({
            let rs = match dto.videos {
                Some(v) => opt_seq(v.results),
                None => Seq::empty(),
            };
            let out = spec_map_videos_response(dto);
            &&& out.provider == "brave"@
            &&& out.results.len() == rs.len()
            &&& forall|i: int|
                0 <= i < rs.len() ==> #[trigger] out.results[i] == SearchResultView::Video(
                    VideoResultView {
                        title: or_empty(rs[i].title),
                        url: or_empty(rs[i].url),
                        thumbnail_url: match rs[i].thumbnail {
                            Some(t) => opt_view(t.src),
                            None => None,
                        },
                        duration: opt_view(rs[i].duration),
                        published_at: opt_view(rs[i].age),
                    },
                )
        }),
{
}

} // verus!
