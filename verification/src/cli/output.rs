//! The text the command line prints for search results and scraped pages.
use vstd::prelude::*;

use crate::cli::scrape::{ElapsedTime, ScrapedPage, ScrapedSite};
use crate::domain::result::{result_views, SearchResponseView, SearchResultView};
use crate::domain::{ProviderSearchFailure, SearchBatchResponse, SearchResponse, SearchResult};
use crate::text::{
    cat, cat3, chars_of, decimal, join, lines_of, push_all, string_from_chars, text_lines, trim,
    trim_chars, unlines, usize_string, views,
};

verus! {

// ---------------------------------------------------------------------
// One provider's results
// ---------------------------------------------------------------------

/// The snippet line of a result, when the snippet is not blank.
pub open spec fn snippet_lines(snippet: Option<Seq<char>>) -> Seq<Seq<char>> {
    match snippet {
        Some(s) => if trim(s).len() > 0 {
            seq!["   "@ + trim(s)]
        } else {
            Seq::empty()
        },
        None => Seq::empty(),
    }
}

/// The lines of the result at position `i` (numbered from one), ending
/// with a blank line.
pub open spec fn result_lines(i: nat, r: SearchResultView) -> Seq<Seq<char>> {
    let n = decimal(i + 1);
    match r {
        SearchResultView::Web(w) => seq![n + ". ["@ + w.title + "]"@, "   URL: "@ + w.url]
            + snippet_lines(w.snippet) + seq![Seq::empty()],
        SearchResultView::News(w) => seq![n + ". [NEWS] "@ + w.title, "   URL: "@ + w.url]
            + match w.source {
            Some(s) => seq!["   Source: "@ + s],
            None => Seq::empty(),
        } + snippet_lines(w.snippet) + seq![Seq::empty()],
        SearchResultView::Image(w) => seq![
            n + ". [IMAGE] "@ + w.title,
            "   URL: "@ + w.url,
            Seq::empty(),
        ],
        SearchResultView::Video(w) => seq![
            n + ". [VIDEO] "@ + w.title,
            "   URL: "@ + w.url,
            Seq::empty(),
        ],
    }
}

/// The lines of all results, in order.
pub open spec fn results_lines(rs: Seq<SearchResultView>) -> Seq<Seq<char>>
    decreases rs.len(),
{
    if rs.len() == 0 {
        Seq::empty()
    } else {
        results_lines(rs.drop_last()) + result_lines((rs.len() - 1) as nat, rs.last())
    }
}

/// One `- url` line for every result whose link is not blank, in order.
pub open spec fn url_list_lines(rs: Seq<SearchResultView>) -> Seq<Seq<char>>
    decreases rs.len(),
{
    if rs.len() == 0 {
        Seq::empty()
    } else {
        let prev = url_list_lines(rs.drop_last());
        if trim(rs.last().url()).len() > 0 {
            prev.push("- "@ + rs.last().url())
        } else {
            prev
        }
    }
}

/// The `- url` line of a result.
pub open spec fn url_line(r: SearchResultView) -> Seq<char> {
    "- "@ + r.url()
}

/// The `URLs:` list names, in result order, exactly the results whose link is
/// not blank.
pub proof fn lemma_url_list_is_the_non_blank_links(rs: Seq<SearchResultView>)
    ensures
        url_list_lines(rs) == rs.filter(|r: SearchResultView| trim(r.url()).len() > 0).map_values(
            |r: SearchResultView| url_line(r),
        ),
    decreases rs.len(),
{
    reveal(Seq::filter);
    if rs.len() > 0 {
        lemma_url_list_is_the_non_blank_links(rs.drop_last());
        let prev = rs.drop_last().filter(|r: SearchResultView| trim(r.url()).len() > 0);
        let last = rs.last();
        if trim(last.url()).len() > 0 {
            assert(prev.push(last).map_values(|r: SearchResultView| url_line(r)) =~= prev.map_values(
                |r: SearchResultView| url_line(r),
            ).push(url_line(last)));
        }
    }
}

/// The trailing block that collects the result links, when there is one.
pub open spec fn url_block(rs: Seq<SearchResultView>) -> Seq<Seq<char>> {
    if url_list_lines(rs).len() == 0 {
        Seq::empty()
    } else {
        seq!["URLs:"@] + url_list_lines(rs)
    }
}

/// The lines printed for one provider's response.
pub open spec fn render_text_lines(r: SearchResponseView) -> Seq<Seq<char>> {
    seq![
        "Provider: "@ + r.provider,
        "Query: "@ + r.query,
        "Results: "@ + decimal(r.results.len()),
        Seq::empty(),
    ] + results_lines(r.results) + url_block(r.results)
}

/// The text printed for one provider's response.
pub open spec fn spec_render_text(r: SearchResponseView) -> Seq<char> {
    unlines(render_text_lines(r))
}

fn snippet_lines_exec(snippet: &Option<String>) -> (r: Vec<String>)
    ensures
        views(r@) == snippet_lines(crate::text::opt_view(*snippet)),
{
    let mut out: Vec<String> = Vec::new();
    if let Some(s) = snippet {
        let t = trim_chars(s.as_str());
        if t.len() > 0 {
            let body = string_from_chars(&t, 0, t.len());
            out.push(cat("   ", body.as_str()));
            assert(t@.subrange(0, t@.len() as int) =~= t@);
        }
    }
    assert(views(out@) =~= snippet_lines(crate::text::opt_view(*snippet)));
    out
}

fn result_lines_exec(i: usize, result: &SearchResult) -> (r: Vec<String>)
    requires
        i < usize::MAX,
    ensures
        views(r@) == result_lines(i as nat, result@),
{
    let n = usize_string(i + 1);
    let mut out: Vec<String> = Vec::new();
    match result {
        SearchResult::Web(r) => {
            let mut first = cat3(n.as_str(), ". [", r.title.as_str());
            first.append("]");
            out.push(first);
            out.push(cat("   URL: ", r.url.as_str()));
            let ghost head = views(out@);
            assert(head =~= seq![n@ + ". ["@ + r.title@ + "]"@, "   URL: "@ + r.url@]);
            push_all(&mut out, snippet_lines_exec(&r.snippet));
            let ghost mid = views(out@);
            out.push(String::new());
            assert(views(out@) =~= mid.push(Seq::empty()));
            assert(views(out@) =~= result_lines(i as nat, result@));
        },
        SearchResult::News(r) => {
            out.push(cat3(n.as_str(), ". [NEWS] ", r.title.as_str()));
            out.push(cat("   URL: ", r.url.as_str()));
            let ghost head = views(out@);
            assert(head =~= seq![n@ + ". [NEWS] "@ + r.title@, "   URL: "@ + r.url@]);
            let mut source: Vec<String> = Vec::new();
            if let Some(s) = &r.source {
                source.push(cat("   Source: ", s.as_str()));
            }
            assert(views(source@) =~= match crate::text::opt_view(r.source) {
                Some(s) => seq!["   Source: "@ + s],
                None => Seq::<Seq<char>>::empty(),
            });
            push_all(&mut out, source);
            push_all(&mut out, snippet_lines_exec(&r.snippet));
            let ghost mid = views(out@);
            out.push(String::new());
            assert(views(out@) =~= mid.push(Seq::empty()));
            assert(views(out@) =~= result_lines(i as nat, result@));
        },
        SearchResult::Image(r) => {
            out.push(cat3(n.as_str(), ". [IMAGE] ", r.title.as_str()));
            out.push(cat("   URL: ", r.url.as_str()));
            out.push(String::new());
            assert(views(out@) =~= result_lines(i as nat, result@));
        },
        SearchResult::Video(r) => {
            out.push(cat3(n.as_str(), ". [VIDEO] ", r.title.as_str()));
            out.push(cat("   URL: ", r.url.as_str()));
            out.push(String::new());
            assert(views(out@) =~= result_lines(i as nat, result@));
        },
    }
    out
}

/// The text printed for one provider's response: a header, each result in
/// order with its link, and a trailing list of every non-blank link.
pub fn render_text(response: &SearchResponse) -> (r: String)
    ensures
        r@ == spec_render_text(response@),
{
    let ghost rs = result_views(response.results@);
    let mut lines: Vec<String> = Vec::new();
    lines.push(cat("Provider: ", response.provider.as_str()));
    lines.push(cat("Query: ", response.query.as_str()));
    lines.push(cat("Results: ", usize_string(response.results.len()).as_str()));
    lines.push(String::new());
    let ghost header = views(lines@);
    assert(header =~= seq![
        "Provider: "@ + response@.provider,
        "Query: "@ + response@.query,
        "Results: "@ + decimal(rs.len()),
        Seq::<char>::empty(),
    ]);
    assert(rs.take(0) =~= Seq::<SearchResultView>::empty());
    let mut i: usize = 0;
    while i < response.results.len()
        invariant
            i <= response.results@.len(),
            rs == result_views(response.results@),
            views(lines@) == header + results_lines(rs.take(i as int)),
        decreases response.results@.len() - i,
    {
        let block = result_lines_exec(i, &response.results[i]);
        let ghost before = views(lines@);
        push_all(&mut lines, block);
        proof {
            assert(rs.take(i + 1).drop_last() =~= rs.take(i as int));
            assert(rs.take(i + 1).last() == response.results@[i as int]@);
            assert(views(lines@) =~= header + results_lines(rs.take(i + 1)));
        }
        i = i + 1;
    }
    assert(rs.take(rs.len() as int) =~= rs);

    let mut urls: Vec<String> = Vec::new();
    let mut j: usize = 0;
    while j < response.results.len()
        invariant
            j <= response.results@.len(),
            rs == result_views(response.results@),
            views(urls@) == url_list_lines(rs.take(j as int)),
        decreases response.results@.len() - j,
    {
        let url = response.results[j].url();
        let t = trim_chars(url.as_str());
        let ghost before = views(urls@);
        if t.len() > 0 {
            urls.push(cat("- ", url.as_str()));
        }
        proof {
            assert(rs.take(j + 1).drop_last() =~= rs.take(j as int));
            assert(rs.take(j + 1).last() == response.results@[j as int]@);
            assert(views(urls@) =~= url_list_lines(rs.take(j + 1)));
        }
        j = j + 1;
    }
    assert(rs.take(rs.len() as int) =~= rs);
    let ghost body = views(lines@);
    assert(body == header + results_lines(rs));
    let ghost url_lines = views(urls@);
    if urls.len() > 0 {
        lines.push(String::from_str("URLs:"));
        assert(views(lines@) =~= body.push("URLs:"@));
        push_all(&mut lines, urls);
        assert(views(lines@) =~= body + (seq!["URLs:"@] + url_lines));
    } else {
        assert(url_lines =~= Seq::<Seq<char>>::empty());
    }
    assert(views(lines@) =~= body + url_block(rs));
    assert(views(lines@) =~= render_text_lines(response@));
    join(&lines, "\n")
}

// ---------------------------------------------------------------------
// Fan-out results
// ---------------------------------------------------------------------

/// The lines printed for each successful provider, in order.
pub open spec fn fanout_response_lines(rs: Seq<SearchResponse>) -> Seq<Seq<char>>
    decreases rs.len(),
{
    if rs.len() == 0 {
        Seq::empty()
    } else {
        fanout_response_lines(rs.drop_last()) + seq![
            "== "@ + rs.last().provider@ + " =="@,
            spec_render_text(rs.last()@),
            Seq::empty(),
        ]
    }
}

/// One line for each failed provider, in order.
pub open spec fn failure_lines(fs: Seq<ProviderSearchFailure>) -> Seq<Seq<char>>
    decreases fs.len(),
{
    if fs.len() == 0 {
        Seq::empty()
    } else {
        failure_lines(fs.drop_last()).push(
            "- "@ + fs.last().provider@ + ": "@ + fs.last().error.message(),
        )
    }
}

/// The lines printed for a fan-out search.
pub open spec fn render_fanout_lines(b: SearchBatchResponse) -> Seq<Seq<char>> {
    seq![
        "Query: "@ + b.query@,
        "Providers succeeded: "@ + decimal(b.responses@.len()),
        "Providers failed: "@ + decimal(b.failures@.len()),
        Seq::empty(),
    ] + fanout_response_lines(b.responses@) + if b.failures@.len() == 0 {
        Seq::empty()
    } else {
        seq!["== Failures =="@] + failure_lines(b.failures@)
    }
}

/// The text printed for a fan-out search: counts, each successful provider's
/// results in provider order, then each failure with its provider.
pub fn render_fanout_text(response: &SearchBatchResponse) -> (r: String)
    ensures
        r@ == unlines(render_fanout_lines(*response)),
{
    let mut lines: Vec<String> = Vec::new();
    lines.push(cat("Query: ", response.query.as_str()));
    lines.push(cat("Providers succeeded: ", usize_string(response.responses.len()).as_str()));
    lines.push(cat("Providers failed: ", usize_string(response.failures.len()).as_str()));
    lines.push(String::new());
    let ghost header = views(lines@);
    let ghost rs = response.responses@;
    assert(rs.take(0) =~= Seq::<SearchResponse>::empty());
    let mut i: usize = 0;
    while i < response.responses.len()
        invariant
            i <= rs.len(),
            rs == response.responses@,
            views(lines@) == header + fanout_response_lines(rs.take(i as int)),
        decreases rs.len() - i,
    {
        let provider_response = &response.responses[i];
        let mut block: Vec<String> = Vec::new();
        block.push(cat3("== ", provider_response.provider.as_str(), " =="));
        block.push(render_text(provider_response));
        block.push(String::new());
        push_all(&mut lines, block);
        proof {
            assert(rs.take(i + 1).drop_last() =~= rs.take(i as int));
            assert(views(lines@) =~= header + fanout_response_lines(rs.take(i + 1)));
        }
        i = i + 1;
    }
    assert(rs.take(rs.len() as int) =~= rs);
    let ghost body = views(lines@);
    if response.failures.len() > 0 {
        let ghost fs = response.failures@;
        lines.push(String::from_str("== Failures =="));
        let ghost with_title = views(lines@);
        assert(fs.take(0) =~= Seq::<ProviderSearchFailure>::empty());
        let mut k: usize = 0;
        while k < response.failures.len()
            invariant
                k <= fs.len(),
                fs == response.failures@,
                views(lines@) == with_title + failure_lines(fs.take(k as int)),
            decreases fs.len() - k,
        {
            let failure = &response.failures[k];
            let ghost before = views(lines@);
            let mut line = cat3("- ", failure.provider.as_str(), ": ");
            line.append(failure.error.to_string().as_str());
            lines.push(line);
            proof {
                assert(fs.take(k + 1).drop_last() =~= fs.take(k as int));
                assert(fs.take(k + 1).last() == fs[k as int]);
                assert(views(lines@) =~= before.push(lines@.last()@));
                assert(views(lines@) =~= with_title + failure_lines(fs.take(k + 1)));
            }
            k = k + 1;
        }
        assert(fs.take(fs.len() as int) =~= fs);
        assert(views(lines@) =~= body + (seq!["== Failures =="@] + failure_lines(fs)));
    }
    assert(views(lines@) =~= render_fanout_lines(*response));
    join(&lines, "\n")
}

// ---------------------------------------------------------------------
// Scraped pages
// ---------------------------------------------------------------------

/// How many characters of a page's content are shown.
pub const SCRAPED_CONTENT_PREVIEW_CHARS: usize = 2000;

/// What `{:?}` prints for a `std::time::Duration` of `secs` seconds and
/// `nanos` nanoseconds.
pub uninterp spec fn duration_debug_text(secs: int, nanos: int) -> Seq<char>;

/// Formats `std::time::Duration::new(secs, nanos)` with `{:?}`. The contract
/// claims only that the text is a function of the two numbers (named
/// `duration_debug_text`); the unit and precision rules of the format are not
/// stated.
#[verifier::external_body]
fn duration_debug(secs: u64, nanos: u32) -> (r: String)
    requires
        nanos < 1_000_000_000,
    ensures
        r@ == duration_debug_text(secs as int, nanos as int),
{
    format!("{:?}", std::time::Duration::new(secs, nanos))
}

/// The excerpt shown of a page: its trimmed content, cut after the preview
/// length with a marker saying so.
pub open spec fn spec_preview(content: Seq<char>) -> Seq<char> {
    let t = trim(content);
    if t.len() <= SCRAPED_CONTENT_PREVIEW_CHARS {
        t
    } else {
        t.take(SCRAPED_CONTENT_PREVIEW_CHARS as int) + "\n    ... [content truncated]"@
    }
}

/// The excerpt shown of a page's content.
pub fn preview_content(content: &str) -> (r: String)
    ensures
        r@ == spec_preview(content@),
{
    let t = trim_chars(content);
    if t.len() <= SCRAPED_CONTENT_PREVIEW_CHARS {
        assert(t@.subrange(0, t@.len() as int) =~= t@);
        return string_from_chars(&t, 0, t.len());
    }
    let mut preview = string_from_chars(&t, 0, SCRAPED_CONTENT_PREVIEW_CHARS);
    assert(t@.subrange(0, SCRAPED_CONTENT_PREVIEW_CHARS as int) =~= t@.take(
        SCRAPED_CONTENT_PREVIEW_CHARS as int,
    ));
    preview.append("\n    ... [content truncated]");
    preview
}

/// Every line indented by four spaces.
pub open spec fn indent_lines(ls: Seq<Seq<char>>) -> Seq<Seq<char>> {
    ls.map_values(|l: Seq<char>| "    "@ + l)
}

/// The lines shown for the page at position `j` (numbered from one).
pub open spec fn page_lines(j: nat, p: ScrapedPage) -> Seq<Seq<char>> {
    seq![
        "  Page "@ + decimal(j + 1) + ": "@ + p.url@,
        "  Status: "@ + decimal(p.status_code as nat),
        "  Content excerpt:"@,
    ] + indent_lines(text_lines(spec_preview(p.content@)))
}

/// The lines shown for all pages, in order.
pub open spec fn pages_lines(ps: Seq<ScrapedPage>) -> Seq<Seq<char>>
    decreases ps.len(),
{
    if ps.len() == 0 {
        Seq::empty()
    } else {
        pages_lines(ps.drop_last()) + page_lines((ps.len() - 1) as nat, ps.last())
    }
}

/// One line per visited URL.
pub open spec fn visited_lines(vs: Seq<String>) -> Seq<Seq<char>> {
    vs.map_values(|u: String| "  - "@ + u@)
}

/// The lines shown for one scraped seed, ending with a blank line.
pub open spec fn site_lines(s: ScrapedSite) -> Seq<Seq<char>> {
    site_lines_timed(s, duration_debug_text(s.duration.spec_secs() as int, s.duration.spec_nanos() as int))
}

/// The lines shown for one seed, given the text of its duration.
pub open spec fn site_lines_timed(s: ScrapedSite, time: Seq<char>) -> Seq<Seq<char>> {
    seq![
        "Seed: "@ + s.seed_url@,
        "Time: "@ + time,
        "Page limit per seed: "@ + decimal(s.page_limit as nat),
    ] + match s.error {
        Some(e) => seq!["Error: "@ + e@],
        None => seq!["Extracted content pages: "@ + decimal(s.pages@.len())] + pages_lines(
            s.pages@,
        ) + seq![
            Seq::empty(),
            "Crawl telemetry - visited URLs: "@ + decimal(s.visited_urls@.len()),
        ] + visited_lines(s.visited_urls@),
    } + seq![Seq::empty()]
}

/// The lines shown for all scraped seeds, in order.
pub open spec fn sites_lines(ss: Seq<ScrapedSite>) -> Seq<Seq<char>>
    decreases ss.len(),
{
    if ss.len() == 0 {
        Seq::empty()
    } else {
        sites_lines(ss.drop_last()) + site_lines(ss.last())
    }
}

/// The lines printed for the scraped pages.
pub open spec fn render_scraped_lines(ss: Seq<ScrapedSite>) -> Seq<Seq<char>> {
    seq!["== Scraped pages =="@, Seq::empty()] + sites_lines(ss)
}

fn page_lines_exec(j: usize, page: &ScrapedPage) -> (r: Vec<String>)
    requires
        j < usize::MAX,
    ensures
        views(r@) == page_lines(j as nat, *page),
{
    let mut out: Vec<String> = Vec::new();
    let mut first = cat3("  Page ", usize_string(j + 1).as_str(), ": ");
    first.append(page.url.as_str());
    out.push(first);
    out.push(cat("  Status: ", crate::text::decimal_string(page.status_code as u64).as_str()));
    out.push(String::from_str("  Content excerpt:"));
    let ghost head = views(out@);
    let preview = preview_content(page.content.as_str());
    let preview_chars = chars_of(preview.as_str());
    let lines = lines_of(&preview_chars);
    let ghost ls = lines@.map_values(|l: Vec<char>| l@);
    let mut k: usize = 0;
    while k < lines.len()
        invariant
            k <= lines@.len(),
            ls == lines@.map_values(|l: Vec<char>| l@),
            views(out@) == head + indent_lines(ls.take(k as int)),
        decreases lines@.len() - k,
    {
        let line = string_from_chars(&lines[k], 0, lines[k].len());
        assert(lines@[k as int]@.subrange(0, lines@[k as int]@.len() as int) =~= lines@[k as int]@);
        let ghost before = views(out@);
        out.push(cat("    ", line.as_str()));
        assert(views(out@) =~= before.push(out@.last()@));
        assert(indent_lines(ls.take(k + 1)) =~= indent_lines(ls.take(k as int)).push(
            "    "@ + ls[k as int],
        ));
        k = k + 1;
    }
    assert(ls.take(ls.len() as int) =~= ls);
    assert(views(out@) =~= page_lines(j as nat, *page));
    out
}

fn site_lines_exec(site: &ScrapedSite) -> (r: Vec<String>)
    ensures
        views(r@) == site_lines(*site),
{
    let time = duration_debug(site.duration.secs(), site.duration.subsec_nanos());
    render_site_lines(site, time.as_str())
}

/// The lines shown for one seed, given the text of its duration.
pub fn render_site_lines(site: &ScrapedSite, time: &str) -> (r: Vec<String>)
    ensures
        views(r@) == site_lines_timed(*site, time@),
{
    let mut out: Vec<String> = Vec::new();
    out.push(cat("Seed: ", site.seed_url.as_str()));
    out.push(cat("Time: ", time));
    out.push(cat("Page limit per seed: ", usize_string(site.page_limit).as_str()));
    let ghost head = views(out@);
    assert(head =~= seq![
        "Seed: "@ + site.seed_url@,
        "Time: "@ + time@,
        "Page limit per seed: "@ + decimal(site.page_limit as nat),
    ]);
    match &site.error {
        Some(err) => {
            out.push(cat("Error: ", err.as_str()));
            assert(views(out@) =~= head + seq!["Error: "@ + err@]);
        },
        None => {
            out.push(cat("Extracted content pages: ", usize_string(site.pages.len()).as_str()));
            let ghost with_count = views(out@);
            let ghost ps = site.pages@;
            assert(ps.take(0) =~= Seq::<ScrapedPage>::empty());
            let mut j: usize = 0;
            while j < site.pages.len()
                invariant
                    j <= ps.len(),
                    ps == site.pages@,
                    views(out@) == with_count + pages_lines(ps.take(j as int)),
                decreases ps.len() - j,
            {
                let block = page_lines_exec(j, &site.pages[j]);
                push_all(&mut out, block);
                assert(ps.take(j + 1).drop_last() =~= ps.take(j as int));
                assert(views(out@) =~= with_count + pages_lines(ps.take(j + 1)));
                j = j + 1;
            }
            assert(ps.take(ps.len() as int) =~= ps);
            let ghost with_pages = views(out@);
            out.push(String::new());
            out.push(
                cat(
                    "Crawl telemetry - visited URLs: ",
                    usize_string(site.visited_urls.len()).as_str(),
                ),
            );
            let ghost with_telemetry = views(out@);
            assert(with_telemetry =~= with_pages + seq![
                Seq::<char>::empty(),
                "Crawl telemetry - visited URLs: "@ + decimal(site.visited_urls@.len()),
            ]);
            let ghost vs = site.visited_urls@;
            let mut k: usize = 0;
            while k < site.visited_urls.len()
                invariant
                    k <= vs.len(),
                    vs == site.visited_urls@,
                    views(out@) == with_telemetry + visited_lines(vs.take(k as int)),
                decreases vs.len() - k,
            {
                let ghost before = views(out@);
                out.push(cat("  - ", site.visited_urls[k].as_str()));
                assert(views(out@) =~= before.push(out@.last()@));
                assert(visited_lines(vs.take(k + 1)) =~= visited_lines(vs.take(k as int)).push(
                    "  - "@ + vs[k as int]@,
                ));
                k = k + 1;
            }
            assert(vs.take(vs.len() as int) =~= vs);
            assert(views(out@) =~= head + (seq![
                "Extracted content pages: "@ + decimal(site.pages@.len()),
            ] + pages_lines(site.pages@) + seq![
                Seq::<char>::empty(),
                "Crawl telemetry - visited URLs: "@ + decimal(site.visited_urls@.len()),
            ] + visited_lines(site.visited_urls@)));
        },
    }
    let ghost body = views(out@);
    out.push(String::new());
    assert(views(out@) =~= body.push(Seq::empty()));
    assert(views(out@) =~= site_lines_timed(*site, time@));
    out
}

/// The text printed for scraped pages: for each seed its timing and limit,
/// then its error, or its pages with their excerpts and the URLs visited.
pub fn render_scraped_sites(sites: &[ScrapedSite]) -> (r: String)
    ensures
        r@ == unlines(render_scraped_lines(sites@)),
{
    let mut lines: Vec<String> = Vec::new();
    lines.push(String::from_str("== Scraped pages =="));
    lines.push(String::new());
    let ghost header = views(lines@);
    let ghost ss = sites@;
    assert(ss.take(0) =~= Seq::<ScrapedSite>::empty());
    let mut i: usize = 0;
    while i < sites.len()
        invariant
            i <= ss.len(),
            ss == sites@,
            views(lines@) == header + sites_lines(ss.take(i as int)),
        decreases ss.len() - i,
    {
        let block = site_lines_exec(&sites[i]);
        push_all(&mut lines, block);
        assert(ss.take(i + 1).drop_last() =~= ss.take(i as int));
        assert(views(lines@) =~= header + sites_lines(ss.take(i + 1)));
        i = i + 1;
    }
    assert(ss.take(ss.len() as int) =~= ss);
    assert(views(lines@) =~= render_scraped_lines(sites@));
    join(&lines, "\n")
}

} // verus!

verus! {

/// The heading line of the result at position `i` (numbered from one): its
/// number, its kind for news, images and videos, and its title.
pub open spec fn heading_line(i: nat, r: SearchResultView) -> Seq<char> {
    match r {
        SearchResultView::Web(w) => decimal(i + 1) + ". ["@ + w.title + "]"@,
        SearchResultView::News(w) => decimal(i + 1) + ". [NEWS] "@ + w.title,
        SearchResultView::Image(w) => decimal(i + 1) + ". [IMAGE] "@ + w.title,
        SearchResultView::Video(w) => decimal(i + 1) + ". [VIDEO] "@ + w.title,
    }
}

/// Where the block of the result at position `i` starts among the lines of
/// all results: its lines stand there one after another.
proof fn lemma_result_block_position(rs: Seq<SearchResultView>, i: int) -> (j: int)
    requires
        0 <= i < rs.len(),
    ensures
        0 <= j,
        j + result_lines(i as nat, rs[i]).len() <= results_lines(rs).len(),
        forall|k: int|
            0 <= k < result_lines(i as nat, rs[i]).len() ==> results_lines(rs)[j + k]
                == #[trigger] result_lines(i as nat, rs[i])[k],
    decreases rs.len(),
{
    let prev = results_lines(rs.drop_last());
    let last = result_lines((rs.len() - 1) as nat, rs.last());
    assert(results_lines(rs) == prev + last);
    if i < rs.len() - 1 {
        let j = lemma_result_block_position(rs.drop_last(), i);
        assert(rs.drop_last()[i] == rs[i]);
        j
    } else {
        prev.len() as int
    }
}

/// Every result is printed as its heading line followed directly by the line
/// `   URL: ` and its link, whatever its kind.
pub proof fn lemma_every_result_is_printed_with_its_link(r: SearchResponseView, i: int)
    requires
        0 <= i < r.results.len(),
    ensures
        exists|j: int|
            #![trigger render_text_lines(r)[j]]
            0 <= j && j + 1 < render_text_lines(r).len() && render_text_lines(r)[j] == heading_line(
                i as nat,
                r.results[i],
            ) && render_text_lines(r)[j + 1] == "   URL: "@ + r.results[i].url(),
{
    let rs = r.results;
    let j = lemma_result_block_position(rs, i);
    let header = seq![
        "Provider: "@ + r.provider,
        "Query: "@ + r.query,
        "Results: "@ + decimal(rs.len()),
        Seq::<char>::empty(),
    ];
    let lines = render_text_lines(r);
    assert(lines == header + results_lines(rs) + url_block(rs));
    let b = result_lines(i as nat, rs[i]);
    assert(b.len() >= 2 && b[0] == heading_line(i as nat, rs[i]) && b[1] == "   URL: "@
        + rs[i].url());
    assert(lines[4 + j] == results_lines(rs)[j + 0]);
    assert(lines[4 + j + 1] == results_lines(rs)[j + 1]);
    assert(lines[4 + j] == heading_line(i as nat, rs[i]));
}

/// The text of a response opens with its provider, its query and its number
/// of results, then a blank line.
pub proof fn lemma_render_text_header(r: SearchResponseView)
    ensures
        render_text_lines(r).len() >= 4,
        render_text_lines(r)[0] == "Provider: "@ + r.provider,
        render_text_lines(r)[1] == "Query: "@ + r.query,
        render_text_lines(r)[2] == "Results: "@ + decimal(r.results.len()),
        render_text_lines(r)[3] == Seq::<char>::empty(),
{
}

} // verus!
