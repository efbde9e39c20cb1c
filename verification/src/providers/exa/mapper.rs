//! Exa answers mapped into the shared result model, with a short snippet
//! preferred from the summary, else from the highlights.
use vstd::prelude::*;

use crate::domain::result::{
    result_views, NewsResultView, SearchResponseView, SearchResultView, WebResultView,
};
use crate::domain::{NewsResult, SearchResponse, SearchResult, WebResult};
use crate::providers::exa::dto::{ExaResult, ExaSearchResponse};
use crate::text::{
    chars_of, join, opt_view, or_empty, push_char, seq_join, string_from_chars, string_or_default,
    trim, trim_chars, views,
};

verus! {

/// Maximum characters of a snippet shown in the command line.
pub const SNIPPET_DISPLAY_MAX_CHARS: usize = 500;

/// The ellipsis that ends a shortened snippet.
pub open spec fn ellipsis() -> char {
    '\u{2026}'
}

/// What separates joined highlights.
pub open spec fn highlight_join() -> Seq<char> {
    seq![' ', ellipsis(), ' ']
}

/// `s` cut to at most `max` characters, the last being an ellipsis when cut.
pub open spec fn cap_chars(s: Seq<char>, max: nat) -> Seq<char> {
    if s.len() <= max {
        s
    } else {
        s.take(if max >= 1 { max - 1 } else { 0 }).push(ellipsis())
    }
}

/// The trimmed highlights that are not blank, in order.
pub open spec fn kept_highlights(hs: Seq<String>) -> Seq<Seq<char>>
    decreases hs.len(),
{
    if hs.len() == 0 {
        Seq::empty()
    } else {
        let prev = kept_highlights(hs.drop_last());
        if trim(hs.last()@).len() > 0 {
            prev.push(trim(hs.last()@))
        } else {
            prev
        }
    }
}

/// The highlights joined into one text.
pub open spec fn joined_highlights(hs: Seq<String>) -> Seq<char> {
    seq_join(kept_highlights(hs), highlight_join())
}

/// The snippet shown for a result: its summary when that is not blank, else
/// its joined highlights when those are not empty, each capped; never the
/// full page text.
pub open spec fn spec_preferred_snippet(r: ExaResult) -> Option<Seq<char>> {
    let summary = match r.summary {
        Some(s) => trim(s@),
        None => Seq::empty(),
    };
    if summary.len() > 0 {
        Some(cap_chars(summary, SNIPPET_DISPLAY_MAX_CHARS as nat))
    } else if joined_highlights(r.highlights@).len() > 0 {
        Some(cap_chars(joined_highlights(r.highlights@), SNIPPET_DISPLAY_MAX_CHARS as nat))
    } else {
        None
    }
}

/// The kind of result an Exa answer is mapped to.
#[derive(Clone, Copy, PartialEq, Eq, Structural)]
enum ExaResultKind {
    Web,
    News,
}

pub open spec fn exa_web_result_view(r: ExaResult) -> SearchResultView {
    SearchResultView::Web(
        WebResultView {
            title: or_empty(r.title),
            url: or_empty(r.url),
            snippet: spec_preferred_snippet(r),
            display_url: None,
        },
    )
}

pub open spec fn exa_news_result_view(r: ExaResult) -> SearchResultView {
    SearchResultView::News(
        NewsResultView {
            title: or_empty(r.title),
            url: or_empty(r.url),
            snippet: spec_preferred_snippet(r),
            source: opt_view(r.author),
            published_at: opt_view(r.published_date),
        },
    )
}

/// An Exa answer as web results for `query`: every result, in order.
pub open spec fn spec_map_exa_web(query: Seq<char>, dto: ExaSearchResponse) -> SearchResponseView {
    SearchResponseView {
        query,
        provider: "exa"@,
        results: dto.results@.map_values(|r: ExaResult| exa_web_result_view(r)),
        total_estimated: None,
        next_page: None,
    }
}

/// An Exa answer as news results for `query`: every result, in order.
pub open spec fn spec_map_exa_news(query: Seq<char>, dto: ExaSearchResponse) -> SearchResponseView {
    SearchResponseView {
        query,
        provider: "exa"@,
        results: dto.results@.map_values(|r: ExaResult| exa_news_result_view(r)),
        total_estimated: None,
        next_page: None,
    }
}

pub fn map_web_response(query: &str, dto: ExaSearchResponse) -> (r: SearchResponse)
    ensures
        r@ == spec_map_exa_web(query@, dto),
{
    map_response(query, dto, ExaResultKind::Web)
}

pub fn map_news_response(query: &str, dto: ExaSearchResponse) -> (r: SearchResponse)
    ensures
        r@ == spec_map_exa_news(query@, dto),
{
    map_response(query, dto, ExaResultKind::News)
}

fn map_response(query: &str, dto: ExaSearchResponse, kind: ExaResultKind) -> (r: SearchResponse)
    ensures
        kind == ExaResultKind::Web ==> r@ == spec_map_exa_web(query@, dto),
        kind == ExaResultKind::News ==> r@ == spec_map_exa_news(query@, dto),
{
    let ghost web = spec_map_exa_web(query@, dto);
    let ghost news = spec_map_exa_news(query@, dto);
    let ExaSearchResponse { request_id: _, search_type: _, results } = dto;
    let ghost src = results@;
    let mut out: Vec<SearchResult> = Vec::new();
    for result in it: results.into_iter()
        invariant
            it.seq() == src,
            kind == ExaResultKind::Web ==> result_views(out@) == src.take(
                it.index() as int,
            ).map_values(|r: ExaResult| exa_web_result_view(r)),
            kind == ExaResultKind::News ==> result_views(out@) == src.take(
                it.index() as int,
            ).map_values(|r: ExaResult| exa_news_result_view(r)),
    {
        let ghost i = it.index() as int;
        let ghost item = result;
        let ghost prev = out@;
        let snippet = preferred_snippet(&result);
        let ExaResult { title, url, published_date, author, highlights: _, text: _, summary: _ } =
            result;
        let mapped = match kind {
            ExaResultKind::Web => SearchResult::Web(
                WebResult {
                    title: string_or_default(title),
                    url: string_or_default(url),
                    snippet,
                    display_url: None,
                },
            ),
            ExaResultKind::News => SearchResult::News(
                NewsResult {
                    title: string_or_default(title),
                    url: string_or_default(url),
                    snippet,
                    source: author,
                    published_at: published_date,
                },
            ),
        };
        out.push(mapped);
        proof {
            assert(result_views(out@) =~= result_views(prev).push(out@.last()@));
            assert(src.take(i + 1) =~= src.take(i).push(item));
            if kind == ExaResultKind::Web {
                assert(result_views(out@) =~= src.take(i + 1).map_values(
                    |r: ExaResult| exa_web_result_view(r),
                ));
            } else {
                assert(result_views(out@) =~= src.take(i + 1).map_values(
                    |r: ExaResult| exa_news_result_view(r),
                ));
            }
        }
    }
    assert(src.take(src.len() as int) =~= src);
    let r = SearchResponse {
        query: String::from_str(query),
        provider: String::from_str("exa"),
        total_estimated: None,
        next_page: None,
        results: out,
    };
    proof {
        if kind == ExaResultKind::Web {
            assert(r@ =~= web);
        } else {
            assert(r@ =~= news);
        }
    }
    r
}

/// The snippet shown for a result.
pub fn preferred_snippet(result: &ExaResult) -> (r: Option<String>)
    ensures
        opt_view(r) == spec_preferred_snippet(*result),
{
    let summary = match &result.summary {
        Some(s) => trim_chars(s.as_str()),
        None => Vec::new(),
    };
    if summary.len() > 0 {
        return Some(cap_snippet_chars(&summary, SNIPPET_DISPLAY_MAX_CHARS));
    }
    let joined = join_highlights(&result.highlights);
    let joined_chars = chars_of(joined.as_str());
    if joined_chars.len() == 0 {
        return None;
    }
    Some(cap_snippet_chars(&joined_chars, SNIPPET_DISPLAY_MAX_CHARS))
}

/// The trimmed, non-blank highlights joined by ` … `.
pub fn join_highlights(highlights: &Vec<String>) -> (r: String)
    ensures
        r@ == joined_highlights(highlights@),
{
    let mut kept: Vec<String> = Vec::new();
    let mut i: usize = 0;
    while i < highlights.len()
        invariant
            i <= highlights@.len(),
            views(kept@) == kept_highlights(highlights@.take(i as int)),
        decreases highlights@.len() - i,
    {
        assert(highlights@.take(i + 1).drop_last() =~= highlights@.take(i as int));
        let t = trim_chars(highlights[i].as_str());
        if t.len() > 0 {
            let ghost prev = kept@;
            kept.push(string_from_chars(&t, 0, t.len()));
            assert(views(kept@) =~= views(prev).push(kept@.last()@));
            assert(t@.subrange(0, t@.len() as int) =~= t@);
        }
        i = i + 1;
    }
    assert(highlights@.take(highlights@.len() as int) =~= highlights@);
    let mut sep = String::from_str(" ");
    push_char(&mut sep, '\u{2026}');
    push_char(&mut sep, ' ');
    assert(sep@ =~= highlight_join()) by {
        reveal_strlit(" ");
    }
    join(&kept, sep.as_str())
}

/// `s` cut to at most `max` characters, the last being an ellipsis when cut.
pub fn cap_snippet_chars(s: &Vec<char>, max: usize) -> (r: String)
    ensures
        r@ == cap_chars(s@, max as nat),
{
    if s.len() <= max {
        return string_from_chars(s, 0, s.len());
    }
    let keep = if max >= 1 {
        max - 1
    } else {
        0
    };
    let mut out = string_from_chars(s, 0, keep);
    push_char(&mut out, '\u{2026}');
    assert(s@.subrange(0, keep as int) =~= s@.take(keep as int));
    out
}

/// A capped snippet never exceeds the cap, once the cap allows the ellipsis.
pub proof fn lemma_cap_chars_bounded(s: Seq<char>, max: nat)
    requires
        max >= 1,
    ensures
        cap_chars(s, max).len() <= max,
        s.len() > max ==> cap_chars(s, max).last() == ellipsis(),
        s.len() <= max ==> cap_chars(s, max) == s,
{
}

/// The snippet of a result is never longer than the display cap.
pub proof fn lemma_snippet_within_cap(r: ExaResult)
    ensures
        spec_preferred_snippet(r) matches Some(s) ==> s.len() <= SNIPPET_DISPLAY_MAX_CHARS,
{
}

} // verus!

verus! {

/// Every Exa result becomes, in the same place, a news result with its title
/// and link (empty when missing), its author as the source, its publication
/// date, and its preferred snippet.
pub proof fn lemma_exa_news_results_keep_their_fields(query: Seq<char>, dto: ExaSearchResponse)
    ensures
        ({
            let rs = dto.results@;
            let out = spec_map_exa_news(query, dto);
            &&& out.provider == "exa"@
            &&& out.query == query
            &&& out.results.len() == rs.len()
            &&& forall|i: int|
                0 <= i < rs.len() ==> #[trigger] out.results[i] == SearchResultView::News(
                    NewsResultView {
                        title: or_empty(rs[i].title),
                        url: or_empty(rs[i].url),
                        snippet: spec_preferred_snippet(rs[i]),
                        source: opt_view(rs[i].author),
                        published_at: opt_view(rs[i].published_date),
                    },
                )
        }),
{
}

/// Every Exa result becomes, in the same place, a web result with its title
/// and link (empty when missing), its preferred snippet and no display link.
pub proof fn lemma_exa_web_results_keep_their_fields(query: Seq<char>, dto: ExaSearchResponse)
    ensures
        ({
            let rs = dto.results@;
            let out = spec_map_exa_web(query, dto);
            &&& out.provider == "exa"@
            &&& out.query == query
            &&& out.results.len() == rs.len()
            &&& forall|i: int|
                0 <= i < rs.len() ==> #[trigger] out.results[i] == SearchResultView::Web(
                    WebResultView {
                        title: or_empty(rs[i].title),
                        url: or_empty(rs[i].url),
                        snippet: spec_preferred_snippet(rs[i]),
                        display_url: None,
                    },
                )
        }),
{
}

/// A short, non-blank summary is shown as it is, trimmed; a blank summary
/// with no non-blank highlight shows nothing; the full page text never
/// matters.
pub proof fn lemma_snippet_prefers_the_summary(r: ExaResult, other_text: Option<String>)
    ensures
        (r.summary matches Some(s) && 0 < trim(s@).len() <= SNIPPET_DISPLAY_MAX_CHARS)
            ==> spec_preferred_snippet(r) == Some(trim(r.summary->Some_0@)),
        (match r.summary {
            Some(s) => trim(s@).len() == 0,
            None => true,
        }) && kept_highlights(r.highlights@).len() == 0 ==> spec_preferred_snippet(r) is None,
        spec_preferred_snippet(ExaResult { text: other_text, ..r }) == spec_preferred_snippet(r),
{
    if kept_highlights(r.highlights@).len() == 0 {
        assert(joined_highlights(r.highlights@) =~= Seq::<char>::empty()) by {
            reveal_with_fuel(seq_join, 2);
        }
    }
}

} // verus!
