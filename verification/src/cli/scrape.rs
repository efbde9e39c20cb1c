//! What the `--scrape` option fetches and how its pages are judged. The
//! fetching itself is asynchronous I/O made by the application.
use vstd::prelude::*;
use vstd::string::StringSliceAdditionalSpecFns;

use crate::domain::result::{result_views, SearchResultView};
use crate::domain::{SearchBatchResponse, SearchResponse};
use crate::text::{cat3, decimal, usize_string, chars_of, ends_with, chars_equal_str, has_prefix, has_suffix, opt_view, starts_with, trim, trim_chars, views};

verus! {

// ---------------------------------------------------------------------
// Which URLs are fetched
// ---------------------------------------------------------------------

/// The scheme of `url` as `reqwest::Url` parses it (lower-cased, without the
/// `:`), or `None` when it does not parse.
pub uninterp spec fn url_scheme(url: Seq<char>) -> Option<Seq<char>>;

/// Parses `url` with `reqwest::Url::parse` and returns `Url::scheme`. The
/// contract claims only that the result is a function of the text (named
/// `url_scheme`), `None` exactly when parsing fails.
#[verifier::external_body]
fn parse_url_scheme(url: &str) -> (r: Option<String>)
    ensures
        opt_view(r) == url_scheme(url@),
{
    match reqwest::Url::parse(url) {
        Ok(parsed) => Some(parsed.scheme().to_string()),
        Err(_) => None,
    }
}

/// Whether a parsed scheme is one that is fetched: `http` or `https`.
pub open spec fn spec_web_scheme(scheme: Option<Seq<char>>) -> bool {
    scheme == Some("http"@) || scheme == Some("https"@)
}

/// Whether a link can be fetched: it parses, with scheme `http` or `https`.
pub open spec fn spec_fetchable(url: Seq<char>) -> bool {
    spec_web_scheme(url_scheme(url))
}

/// Whether a parsed scheme (`None` where the link did not parse) is fetched.
pub fn is_web_scheme(scheme: &Option<String>) -> (r: bool)
    ensures
        r == spec_web_scheme(opt_view(*scheme)),
{
    match scheme {
        Some(scheme) => crate::text::str_eq(scheme.as_str(), "http") || crate::text::str_eq(
            scheme.as_str(),
            "https",
        ),
        None => false,
    }
}

/// Whether a link can be fetched.
pub fn is_fetchable_url(url: &str) -> (r: bool)
    ensures
        r == spec_fetchable(url@),
{
    let scheme = parse_url_scheme(url);
    is_web_scheme(&scheme)
}

/// The fetchable links of some results, in order.
pub open spec fn fetchable_urls(rs: Seq<SearchResultView>) -> Seq<Seq<char>>
    decreases rs.len(),
{
    if rs.len() == 0 {
        Seq::empty()
    } else {
        let prev = fetchable_urls(rs.drop_last());
        if spec_fetchable(rs.last().url()) {
            prev.push(rs.last().url())
        } else {
            prev
        }
    }
}

/// The fetchable links of a response, in result order.
pub fn urls_from_response(response: &SearchResponse) -> (r: Vec<String>)
    ensures
        views(r@) == fetchable_urls(result_views(response.results@)),
{
    let ghost rs = result_views(response.results@);
    let mut urls: Vec<String> = Vec::new();
    let mut i: usize = 0;
    while i < response.results.len()
        invariant
            i <= response.results@.len(),
            rs == result_views(response.results@),
            views(urls@) == fetchable_urls(rs.take(i as int)),
        decreases response.results@.len() - i,
    {
        let url = response.results[i].url();
        let ghost before = views(urls@);
        if is_fetchable_url(url.as_str()) {
            urls.push(url.clone());
        }
        proof {
            assert(rs.take(i + 1).drop_last() =~= rs.take(i as int));
            assert(rs.take(i + 1).last() == response.results@[i as int]@);
            assert(views(urls@) =~= fetchable_urls(rs.take(i + 1)));
        }
        i = i + 1;
    }
    assert(rs.take(rs.len() as int) =~= rs);
    urls
}

/// At most `limit` items of `s`, from the front.
pub open spec fn take_at_most<T>(s: Seq<T>, limit: nat) -> Seq<T> {
    if s.len() <= limit {
        s
    } else {
        s.take(limit as int)
    }
}

// ---------------------------------------------------------------------
// Distinct links across a batch
// ---------------------------------------------------------------------

/// `s` with every repeated item dropped after its first occurrence.
pub open spec fn dedup(s: Seq<Seq<char>>) -> Seq<Seq<char>>
    decreases s.len(),
{
    if s.len() == 0 {
        Seq::empty()
    } else {
        let prev = dedup(s.drop_last());
        if prev.contains(s.last()) {
            prev
        } else {
            prev.push(s.last())
        }
    }
}

/// The fetchable links of all responses, response after response.
pub open spec fn batch_urls(rs: Seq<SearchResponse>) -> Seq<Seq<char>>
    decreases rs.len(),
{
    if rs.len() == 0 {
        Seq::empty()
    } else {
        batch_urls(rs.drop_last()) + fetchable_urls(result_views(rs.last().results@))
    }
}

/// The links a fan-out scrape fetches: the first `page_limit` distinct
/// fetchable links of the successful responses, in order.
pub open spec fn spec_batch_scrape_urls(b: SearchBatchResponse, page_limit: nat) -> Seq<
    Seq<char>,
> {
    take_at_most(dedup(batch_urls(b.responses@)), page_limit)
}

/// Deduplicating a prefix gives a prefix of the deduplicated whole.
pub proof fn lemma_dedup_prefix(s: Seq<Seq<char>>, n: int)
    requires
        0 <= n <= s.len(),
    ensures
        dedup(s.take(n)).len() <= dedup(s).len(),
        dedup(s).take(dedup(s.take(n)).len() as int) == dedup(s.take(n)),
    decreases s.len(),
{
    if n == s.len() {
        assert(s.take(n) =~= s);
        assert(dedup(s).take(dedup(s).len() as int) =~= dedup(s));
    } else {
        assert(s.take(n) =~= s.drop_last().take(n));
        lemma_dedup_prefix(s.drop_last(), n);
        let a = dedup(s.take(n));
        let b = dedup(s.drop_last());
        assert(dedup(s).take(a.len() as int) =~= b.take(a.len() as int));
    }
}

/// A deduplicated list holds each item once.
pub proof fn lemma_dedup_distinct(s: Seq<Seq<char>>)
    ensures
        forall|i: int, j: int|
            0 <= i < j < dedup(s).len() ==> dedup(s)[i] != dedup(s)[j],
        forall|i: int| 0 <= i < dedup(s).len() ==> s.contains(#[trigger] dedup(s)[i]),
    decreases s.len(),
{
    if s.len() > 0 {
        lemma_dedup_distinct(s.drop_last());
        let prev = dedup(s.drop_last());
        assert forall|i: int| 0 <= i < dedup(s).len() implies s.contains(#[trigger] dedup(s)[i]) by {
            if i < prev.len() {
                assert(s.drop_last().contains(prev[i]));
                let w = choose|w: int| 0 <= w < s.drop_last().len() && s.drop_last()[w] == prev[i];
                assert(s[w] == prev[i]);
            } else {
                assert(s[s.len() - 1] == s.last());
            }
        }
        assert forall|i: int, j: int|
            0 <= i < j < dedup(s).len() implies dedup(s)[i] != dedup(s)[j] by {
            if j == prev.len() && !prev.contains(s.last()) {
                assert(dedup(s)[j] == s.last());
                assert(dedup(s)[i] == prev[i]);
            }
        }
    }
}

/// The first `page_limit` distinct links of `all`, in order.
fn distinct_prefix(all: &Vec<String>, page_limit: usize) -> (r: Vec<String>)
    ensures
        views(r@) == take_at_most(dedup(views(all@)), page_limit as nat),
{
    let ghost flat = views(all@);
    if page_limit == 0 {
        let out: Vec<String> = Vec::new();
        assert(views(out@) =~= take_at_most(dedup(flat), 0));
        return out;
    }
    let mut out: Vec<String> = Vec::new();
    let mut k: usize = 0;
    assert(flat.take(0) =~= Seq::<Seq<char>>::empty());
    while k < all.len()
        invariant
            0 < page_limit,
            k <= all@.len(),
            flat == views(all@),
            views(out@) == dedup(flat.take(k as int)),
            out@.len() < page_limit,
        decreases all@.len() - k,
    {
        let u = &all[k];
        let mut seen = false;
        let mut j: usize = 0;
        while j < out.len()
            invariant
                j <= out@.len(),
                seen == exists|m: int| 0 <= m < j && out@[m]@ == u@,
            decreases out@.len() - j,
        {
            if out[j] == *u {
                seen = true;
            }
            j = j + 1;
        }
        proof {
            assert(flat.take(k + 1).drop_last() =~= flat.take(k as int));
            assert(flat.take(k + 1).last() == u@);
            if seen {
                let m = choose|m: int| 0 <= m < out@.len() && out@[m]@ == u@;
                assert(views(out@)[m] == u@);
                assert(views(out@).contains(u@));
            } else {
                assert forall|m: int| 0 <= m < views(out@).len() implies views(out@)[m] != u@ by {
                    assert(views(out@)[m] == out@[m]@);
                }
            }
        }
        if !seen {
            let ghost before = views(out@);
            out.push(u.clone());
            assert(views(out@) =~= before.push(u@));
        }
        assert(views(out@) == dedup(flat.take(k + 1)));
        k = k + 1;
        if out.len() >= page_limit {
            proof {
                lemma_dedup_prefix(flat, k as int);
                assert(dedup(flat).take(page_limit as int) == views(out@));
                assert(take_at_most(dedup(flat), page_limit as nat) =~= views(out@));
            }
            return out;
        }
    }
    assert(flat.take(flat.len() as int) =~= flat);
    out
}


/// The links a fan-out scrape fetches: distinct fetchable links of the
/// successful responses in order, at most `page_limit` of them.
pub fn batch_scrape_urls(batch: &SearchBatchResponse, page_limit: usize) -> (r: Vec<String>)
    ensures
        views(r@) == spec_batch_scrape_urls(*batch, page_limit as nat),
{
    let ghost rs = batch.responses@;
    let mut all: Vec<String> = Vec::new();
    let mut i: usize = 0;
    assert(rs.take(0) =~= Seq::<SearchResponse>::empty());
    while i < batch.responses.len()
        invariant
            i <= rs.len(),
            rs == batch.responses@,
            views(all@) == batch_urls(rs.take(i as int)),
        decreases rs.len() - i,
    {
        let more = urls_from_response(&batch.responses[i]);
        crate::text::push_all(&mut all, more);
        assert(rs.take(i + 1).drop_last() =~= rs.take(i as int));
        assert(views(all@) =~= batch_urls(rs.take(i + 1)));
        i = i + 1;
    }
    assert(rs.take(rs.len() as int) =~= rs);
    distinct_prefix(&all, page_limit)
}

/// The links a single-provider scrape fetches: the first `page_limit`
/// distinct fetchable result links, in result order.
pub fn collect_urls_from_response(response: &SearchResponse, page_limit: usize) -> (r: Vec<String>)
    ensures
        views(r@) == take_at_most(
            dedup(fetchable_urls(result_views(response.results@))),
            page_limit as nat,
        ),
{
    let urls = urls_from_response(response);
    distinct_prefix(&urls, page_limit)
}

// ---------------------------------------------------------------------
// Which answers are read
// ---------------------------------------------------------------------

/// Most bytes of a page body that are kept.
pub const MAX_SCRAPE_BODY_BYTES: usize = 524288;

/// `s` up to its first `;` (all of it when there is none).
pub open spec fn before_semicolon(s: Seq<char>) -> Seq<char>
    decreases s.len(),
{
    if s.len() == 0 {
        s
    } else if s[0] == ';' {
        Seq::empty()
    } else {
        seq![s[0]] + before_semicolon(s.drop_first())
    }
}

/// `c` with ASCII upper case mapped to lower case.
pub open spec fn ascii_lower_char(c: char) -> char {
    if 'A' <= c <= 'Z' {
        ((c as u32) + 32) as char
    } else {
        c
    }
}

/// `s` with ASCII upper case mapped to lower case (`str::to_ascii_lowercase`).
pub open spec fn ascii_lower(s: Seq<char>) -> Seq<char> {
    s.map_values(|c: char| ascii_lower_char(c))
}

/// The media type of a `Content-Type` value: before any parameter, trimmed,
/// lower-cased.
pub open spec fn media_type(content_type: Seq<char>) -> Seq<char> {
    ascii_lower(trim(before_semicolon(content_type)))
}

/// Text and structured-text media types are read; others are skipped.
pub open spec fn spec_allowed_content_type(content_type: Seq<char>) -> bool {
    let m = media_type(content_type);
    ||| has_prefix(m, "text/"@)
    ||| m == "application/json"@
    ||| m == "application/xml"@
    ||| m == "application/xhtml+xml"@
    ||| has_suffix(m, "+json"@)
    ||| has_suffix(m, "+xml"@)
}

fn to_ascii_lower(c: char) -> (r: char)
    ensures
        r == ascii_lower_char(c),
{
    if 'A' <= c && c <= 'Z' {
        let u = (c as u32) + 32;
        assert(0x61 <= u <= 0x7a);
        (u as u8) as char
    } else {
        c
    }
}

/// The media type of a `Content-Type` value.
pub fn media_type_of(content_type: &str) -> (r: Vec<char>)
    ensures
        r@ == media_type(content_type@),
{
    let chars = chars_of(content_type);
    let mut end: usize = 0;
    assert(chars@.take(0) =~= Seq::<char>::empty());
    assert(chars@.skip(0) =~= chars@);
    while end < chars.len() && chars[end] != ';'
        invariant
            end <= chars@.len(),
            before_semicolon(chars@) == chars@.take(end as int) + before_semicolon(
                chars@.skip(end as int),
            ),
        decreases chars@.len() - end,
    {
        assert(chars@.skip(end as int).drop_first() =~= chars@.skip(end + 1));
        assert(chars@.take(end + 1) =~= chars@.take(end as int) + seq![chars@[end as int]]);
        end = end + 1;
    }
    proof {
        assert(chars@.take(0) =~= Seq::<char>::empty());
        if end < chars@.len() {
            assert(chars@.skip(end as int)[0] == ';');
        } else {
            assert(chars@.skip(end as int) =~= Seq::<char>::empty());
        }
        assert(before_semicolon(chars@) =~= chars@.take(end as int));
    }
    let head = crate::text::string_from_chars(&chars, 0, end);
    assert(chars@.subrange(0, end as int) =~= chars@.take(end as int));
    let trimmed = trim_chars(head.as_str());
    let mut out: Vec<char> = Vec::new();
    let mut i: usize = 0;
    while i < trimmed.len()
        invariant
            i <= trimmed@.len(),
            out@ == ascii_lower(trimmed@.take(i as int)),
        decreases trimmed@.len() - i,
    {
        out.push(to_ascii_lower(trimmed[i]));
        assert(ascii_lower(trimmed@.take(i + 1)) =~= ascii_lower(trimmed@.take(i as int)).push(
            ascii_lower_char(trimmed@[i as int]),
        ));
        i = i + 1;
    }
    assert(trimmed@.take(trimmed@.len() as int) =~= trimmed@);
    out
}

/// Whether a page of this `Content-Type` is read.
pub fn is_allowed_content_type(content_type: &str) -> (r: bool)
    ensures
        r == spec_allowed_content_type(content_type@),
{
    let m = media_type_of(content_type);
    starts_with(&m, "text/") || chars_equal_str(&m, "application/json") || chars_equal_str(
        &m,
        "application/xml",
    ) || chars_equal_str(&m, "application/xhtml+xml") || ends_with(&m, "+json") || ends_with(
        &m,
        "+xml",
    )
}

/// Whether a page with this optional `Content-Type` header is read: one
/// without the header is skipped.
pub open spec fn spec_allowed_header(content_type: Option<&str>) -> bool {
    match content_type {
        Some(t) => spec_allowed_content_type(t@),
        None => false,
    }
}

/// Whether a page with this optional `Content-Type` header is read.
pub fn is_allowed_content_type_header(content_type: Option<&str>) -> (r: bool)
    ensures
        r == spec_allowed_header(content_type),
{
    match content_type {
        Some(t) => is_allowed_content_type(t),
        None => false,
    }
}

/// The value of a decimal digit character.
pub open spec fn digit_value(c: char) -> nat {
    ((c as u32) - ('0' as u32)) as nat
}

pub open spec fn is_digit(c: char) -> bool {
    '0' <= c <= '9'
}

/// The number written by a string of decimal digits.
pub open spec fn digits_value(ds: Seq<char>) -> nat
    decreases ds.len(),
{
    if ds.len() == 0 {
        0
    } else {
        digits_value(ds.drop_last()) * 10 + digit_value(ds.last())
    }
}

/// `s` without one leading `+`.
pub open spec fn sign_stripped(s: Seq<char>) -> Seq<char> {
    if s.len() > 0 && s[0] == '+' {
        s.drop_first()
    } else {
        s
    }
}

/// Every character is a decimal digit.
pub open spec fn all_digits(ds: Seq<char>) -> bool {
    forall|i: int| 0 <= i < ds.len() ==> is_digit(#[trigger] ds[i])
}

/// What `str::parse::<u64>` accepts: an optional `+`, then one or more
/// decimal digits writing a number that fits.
pub open spec fn spec_parse_u64(s: Seq<char>) -> Option<nat> {
    let ds = sign_stripped(s);
    if ds.len() > 0 && all_digits(ds) && digits_value(ds) <= u64::MAX {
        Some(digits_value(ds))
    } else {
        None
    }
}

proof fn lemma_digits_value_grows(ds: Seq<char>, k: int)
    requires
        0 <= k <= ds.len(),
        forall|i: int| 0 <= i < ds.len() ==> is_digit(#[trigger] ds[i]),
    ensures
        digits_value(ds.take(k)) <= digits_value(ds),
    decreases ds.len(),
{
    if k < ds.len() {
        assert(ds.take(k) =~= ds.drop_last().take(k));
        lemma_digits_value_grows(ds.drop_last(), k);
    } else {
        assert(ds.take(k) =~= ds);
    }
}

/// The number a string writes, as `str::parse::<u64>` reads it.
pub fn parse_u64(s: &str) -> (r: Option<u64>)
    ensures
        r matches Some(n) ==> spec_parse_u64(s@) == Some(n as nat),
        r is None ==> spec_parse_u64(s@) is None,
{
    let chars = chars_of(s);
    let start: usize = if chars.len() > 0 && chars[0] == '+' {
        1
    } else {
        0
    };
    let ghost ds = sign_stripped(s@);
    assert(ds =~= chars@.skip(start as int));
    if start == chars.len() {
        assert(ds.len() == 0);
        return None;
    }
    let mut value: u64 = 0;
    let mut i: usize = start;
    assert(ds.take(0) =~= Seq::<char>::empty());
    while i < chars.len()
        invariant
            start <= i <= chars@.len(),
            ds == chars@.skip(start as int),
            ds == sign_stripped(s@),
            value == digits_value(ds.take(i - start)),
            forall|k: int| 0 <= k < i - start ==> is_digit(#[trigger] ds[k]),
        decreases chars@.len() - i,
    {
        let c = chars[i];
        assert(ds[i - start] == c);
        if c < '0' || c > '9' {
            assert(!is_digit(ds[i - start]));
            assert(!all_digits(ds));
            return None;
        }
        let d = (c as u32 - '0' as u32) as u64;
        assert(ds.take(i - start + 1).drop_last() =~= ds.take(i - start));
        let ghost next = digits_value(ds.take(i - start + 1));
        assert(next == value * 10 + d);
        let overflow = match value.checked_mul(10) {
            Some(t) => match t.checked_add(d) {
                Some(v) => {
                    value = v;
                    false
                },
                None => true,
            },
            None => true,
        };
        if overflow {
            proof {
                if all_digits(ds) {
                    lemma_digits_value_grows(ds, i - start + 1);
                }
            }
            return None;
        }
        i = i + 1;
    }
    assert(ds.take(ds.len() as int) =~= ds);
    Some(value)
}

/// Whether a `Content-Length` header announces more than the body cap.
pub open spec fn spec_exceeds_cap(content_length: Option<&str>) -> bool {
    match content_length {
        Some(v) => match spec_parse_u64(v@) {
            Some(n) => n > MAX_SCRAPE_BODY_BYTES,
            None => false,
        },
        None => false,
    }
}

/// Whether a `Content-Length` header announces more than the body cap.
pub fn content_length_exceeds_cap(content_length: Option<&str>) -> (r: bool)
    ensures
        r == spec_exceeds_cap(content_length),
{
    match content_length {
        Some(v) => match parse_u64(v) {
            Some(n) => n > MAX_SCRAPE_BODY_BYTES as u64,
            None => false,
        },
        None => false,
    }
}

/// How a page's content type is named in a skip notice.
pub open spec fn spec_content_type_label(content_type: Option<&str>) -> Seq<char> {
    match content_type {
        Some(t) => t@,
        None => "missing"@,
    }
}

/// How a page's content type is named in a skip notice.
pub fn content_type_label(content_type: Option<&str>) -> (r: String)
    ensures
        r@ == spec_content_type_label(content_type),
{
    match content_type {
        Some(t) => String::from_str(t),
        None => String::from_str("missing"),
    }
}

/// Why a fetched page is not read, if it is not: an unsupported or missing
/// content type, else an announced length over the cap.
pub open spec fn spec_skip_reason(content_type: Option<&str>, content_length: Option<&str>) -> Option<
    Seq<char>,
> {
    if !spec_allowed_header(content_type) {
        Some(
            "<fetch skipped: unsupported content type "@ + spec_content_type_label(content_type)
                + ">"@,
        )
    } else if spec_exceeds_cap(content_length) {
        Some("<fetch skipped: response exceeds "@ + decimal(MAX_SCRAPE_BODY_BYTES as nat) + " bytes>"@)
    } else {
        None
    }
}

/// Why a fetched page is not read, given its `Content-Type` and
/// `Content-Length` headers, if it is not.
pub fn page_skip_reason(content_type: Option<&str>, content_length: Option<&str>) -> (r: Option<
    String,
>)
    ensures
        opt_view(r) == spec_skip_reason(content_type, content_length),
{
    if !is_allowed_content_type_header(content_type) {
        let label = content_type_label(content_type);
        return Some(cat3("<fetch skipped: unsupported content type ", label.as_str(), ">"));
    }
    if content_length_exceeds_cap(content_length) {
        let cap = usize_string(MAX_SCRAPE_BODY_BYTES);
        return Some(cat3("<fetch skipped: response exceeds ", cap.as_str(), " bytes>"));
    }
    None
}

/// The bytes appended to a body that was cut at the cap.
pub open spec fn truncation_marker() -> Seq<u8> {
    "\n<scrape body truncated>".spec_bytes()
}

/// Most bytes of page content kept before the truncation marker.
pub open spec fn content_limit() -> int {
    if MAX_SCRAPE_BODY_BYTES >= truncation_marker().len() {
        MAX_SCRAPE_BODY_BYTES - truncation_marker().len()
    } else {
        0
    }
}

/// Adds one received chunk to a page body. When the chunk does not fit under
/// the content limit, only what fits is kept, the truncation marker is
/// appended, and `true` says that reading stops.
pub fn append_bounded_chunk(body: &mut Vec<u8>, chunk: &[u8]) -> (truncated: bool)
    ensures
        ({
            let remaining = if content_limit() >= old(body)@.len() {
                content_limit() - old(body)@.len()
            } else {
                0
            };
            &&& truncated == (chunk@.len() > remaining)
            &&& truncated ==> final(body)@ == old(body)@ + chunk@.take(remaining)
                + truncation_marker()
            &&& !truncated ==> final(body)@ == old(body)@ + chunk@
        }),
{
    let marker = "\n<scrape body truncated>".as_bytes();
    let limit = MAX_SCRAPE_BODY_BYTES.saturating_sub(marker.len());
    let remaining = limit.saturating_sub(body.len());
    if chunk.len() > remaining {
        let mut i: usize = 0;
        let ghost start = body@;
        while i < remaining
            invariant
                i <= remaining < chunk@.len(),
                body@ == start + chunk@.take(i as int),
            decreases remaining - i,
        {
            body.push(chunk[i]);
            assert(chunk@.take(i + 1) =~= chunk@.take(i as int).push(chunk@[i as int]));
            i = i + 1;
        }
        body.extend_from_slice(marker);
        assert(body@ =~= start + chunk@.take(remaining as int) + truncation_marker());
        true
    } else {
        let ghost start = body@;
        body.extend_from_slice(chunk);
        assert(body@ =~= start + chunk@);
        false
    }
}

/// A page that starts at most at the content limit stays within the body cap.
pub proof fn lemma_bounded_body_within_cap(before: Seq<u8>, chunk: Seq<u8>, after: Seq<u8>)
    requires
        before.len() <= content_limit(),
        truncation_marker().len() <= MAX_SCRAPE_BODY_BYTES,
        chunk.len() > content_limit() - before.len() ==> after == before + chunk.take(
            content_limit() - before.len(),
        ) + truncation_marker(),
        chunk.len() <= content_limit() - before.len() ==> after == before + chunk,
    ensures
        chunk.len() > content_limit() - before.len() ==> after.len() == MAX_SCRAPE_BODY_BYTES,
        chunk.len() <= content_limit() - before.len() ==> after.len() <= content_limit(),
{
}

/// Elapsed milliseconds as a `u64`, saturating.
pub fn clamp_millis(ms: u128) -> (r: u64)
    ensures
        r == if ms <= u64::MAX as u128 {
            ms as u64
        } else {
            u64::MAX
        },
{
    if ms <= u64::MAX as u128 {
        ms as u64
    } else {
        u64::MAX
    }
}

// ---------------------------------------------------------------------
// Ordering fetched pages
// ---------------------------------------------------------------------

/// A fetched page as it is stored: URL, HTTP status when one came back, and
/// body or notice.
pub type PageRecord = (String, Option<u16>, String);

/// A page record with the position of its URL in the fetch order.
pub type IndexedPage = (usize, PageRecord);

/// The positions of `s` are in ascending order.
pub open spec fn sorted_by_index(s: Seq<IndexedPage>) -> bool {
    forall|i: int, j: int| 0 <= i < j < s.len() ==> s[i].0 <= s[j].0
}

/// The records of indexed pages, in order.
pub open spec fn records(s: Seq<IndexedPage>) -> Seq<PageRecord> {
    s.map_values(|p: IndexedPage| p.1)
}

/// Whether a page was fetched at position `k`.
pub open spec fn fetched_at(k: usize) -> spec_fn(IndexedPage) -> bool {
    |p: IndexedPage| p.0 == k
}

/// The pages of `s` fetched at position `k`, in their order in `s`.
pub open spec fn pages_at(s: Seq<IndexedPage>, k: usize) -> Seq<IndexedPage> {
    s.filter(fetched_at(k))
}

/// `sorted` holds the pages of `pages` by fetch position, and pages that share
/// a position keep their order.
pub open spec fn stable_order_of(sorted: Seq<IndexedPage>, pages: Seq<IndexedPage>) -> bool {
    &&& sorted_by_index(sorted)
    &&& sorted.to_multiset() == pages.to_multiset()
    &&& forall|k: usize| #[trigger] pages_at(sorted, k) == pages_at(pages, k)
}

proof fn lemma_pages_at_none(s: Seq<IndexedPage>, k: usize)
    requires
        forall|j: int| 0 <= j < s.len() ==> s[j].0 != k,
    ensures
        pages_at(s, k) == Seq::<IndexedPage>::empty(),
    decreases s.len(),
{
    reveal(Seq::filter);
    if s.len() > 0 {
        lemma_pages_at_none(s.drop_last(), k);
    }
}

proof fn lemma_pages_at_push(s: Seq<IndexedPage>, p: IndexedPage, k: usize)
    ensures
        pages_at(s.push(p), k) == if p.0 == k {
            pages_at(s, k).push(p)
        } else {
            pages_at(s, k)
        },
{
    reveal(Seq::filter);
    assert(s.push(p).drop_last() =~= s);
}

proof fn lemma_pages_at_insert(before: Seq<IndexedPage>, pos: int, p: IndexedPage, k: usize)
    requires
        0 <= pos <= before.len(),
        forall|j: int| pos <= j < before.len() ==> before[j].0 > p.0,
    ensures
        pages_at(before.insert(pos, p), k) == if p.0 == k {
            pages_at(before, k).push(p)
        } else {
            pages_at(before, k)
        },
{
    let a = before.take(pos);
    let b = before.skip(pos);
    let one = seq![p];
    assert(before =~= a + b);
    assert(before.insert(pos, p) =~= (a + one) + b);
    Seq::filter_distributes_over_add(a + one, b, fetched_at(k));
    Seq::filter_distributes_over_add(a, one, fetched_at(k));
    Seq::filter_distributes_over_add(a, b, fetched_at(k));
    lemma_pages_at_push(Seq::<IndexedPage>::empty(), p, k);
    assert(Seq::<IndexedPage>::empty().push(p) =~= one);
    assert(pages_at(Seq::<IndexedPage>::empty(), k) =~= Seq::<IndexedPage>::empty()) by {
        reveal(Seq::filter);
    }
    if p.0 == k {
        lemma_pages_at_none(b, k);
        assert(pages_at(a, k) + one =~= pages_at(a, k).push(p));
        assert(pages_at(a, k) + Seq::<IndexedPage>::empty() =~= pages_at(a, k));
        assert(pages_at(a, k).push(p) + Seq::<IndexedPage>::empty() =~= pages_at(a, k).push(p));
    } else {
        assert(pages_at(a, k) + Seq::<IndexedPage>::empty() =~= pages_at(a, k));
    }
}

/// The pages fetched concurrently, put back in fetch order: sorted by
/// position, keeping every page, equal positions in arrival order.
pub fn order_pages(pages: Vec<IndexedPage>) -> (r: Vec<PageRecord>)
    ensures
        exists|sorted: Seq<IndexedPage>|
            #![trigger records(sorted)]
            stable_order_of(sorted, pages@) && r@ == records(sorted),
{
    broadcast use vstd::seq_lib::group_to_multiset_ensures;

    let mut out: Vec<IndexedPage> = Vec::new();
    let ghost src = pages@;
    for p in it: pages.into_iter()
        invariant
            it.seq() == src,
            sorted_by_index(out@),
            out@.to_multiset() == src.take(it.index() as int).to_multiset(),
            forall|k: usize| #[trigger] pages_at(out@, k) == pages_at(src.take(it.index() as int), k),
    {
        let ghost i = it.index() as int;
        let mut pos = out.len();
        while pos > 0 && out[pos - 1].0 > p.0
            invariant
                pos <= out@.len(),
                forall|k: int| pos <= k < out@.len() ==> out@[k].0 > p.0,
            decreases pos,
        {
            pos = pos - 1;
        }
        let ghost before = out@;
        out.insert(pos, p);
        proof {
            assert(out@ =~= before.insert(pos as int, p));
            vstd::seq_lib::to_multiset_insert(before, pos as int, p);
            assert(src.take(i + 1) =~= src.take(i).push(p));
            vstd::seq_lib::to_multiset_build(src.take(i), p);
            assert forall|k: usize| #[trigger] pages_at(out@, k) == pages_at(src.take(i + 1), k) by {
                lemma_pages_at_insert(before, pos as int, p, k);
                lemma_pages_at_push(src.take(i), p, k);
            }
            assert forall|a: int, b: int| 0 <= a < b < out@.len() implies out@[a].0 <= out@[b].0 by {
                if a < pos && b == pos {
                    assert(before[a].0 <= before[pos - 1].0);
                } else if a == pos && b > pos {
                    assert(out@[b] == before[b - 1]);
                }
            }
        }
    }
    assert(src.take(src.len() as int) =~= src);
    let ghost sorted = out@;
    let mut records_out: Vec<PageRecord> = Vec::new();
    for q in it2: out.into_iter()
        invariant
            it2.seq() == sorted,
            records_out@ == records(sorted.take(it2.index() as int)),
    {
        let ghost k = it2.index() as int;
        let (_, record) = q;
        records_out.push(record);
        assert(records(sorted.take(k + 1)) =~= records(sorted.take(k)).push(record));
    }
    assert(sorted.take(sorted.len() as int) =~= sorted);
    assert(records_out@ == records(sorted));
    records_out
}

} // verus!

verus! {

/// A span of time: whole seconds and the nanoseconds past them.
#[derive(Debug, Clone, Copy, PartialEq, Eq, Structural)]
pub struct ElapsedTime {
    secs: u64,
    nanos: u32,
}

impl ElapsedTime {
    #[verifier::type_invariant]
    spec fn nanos_below_one_second(self) -> bool {
        self.nanos < 1_000_000_000
    }

    pub closed spec fn spec_secs(self) -> nat {
        self.secs as nat
    }

    pub closed spec fn spec_nanos(self) -> nat {
        self.nanos as nat
    }

    /// `ms` milliseconds.
    pub fn from_millis(ms: u64) -> (r: Self)
        ensures
            r.spec_secs() == ms / 1000,
            r.spec_nanos() == (ms % 1000) * 1_000_000,
    {
        let nanos = ((ms % 1000) as u32) * 1_000_000;
        Self { secs: ms / 1000, nanos }
    }

    /// `secs` seconds.
    pub fn from_secs(secs: u64) -> (r: Self)
        ensures
            r.spec_secs() == secs,
            r.spec_nanos() == 0,
    {
        Self { secs, nanos: 0 }
    }

    pub fn secs(&self) -> (r: u64)
        ensures
            r == self.spec_secs(),
    {
        self.secs
    }

    pub fn subsec_nanos(&self) -> (r: u32)
        ensures
            r == self.spec_nanos(),
            r < 1_000_000_000,
    {
        proof {
            use_type_invariant(self);
        }
        self.nanos
    }
}

/// One fetched page.
#[derive(Debug, Clone, PartialEq, Eq)]
pub struct ScrapedPage {
    pub url: String,
    pub status_code: u16,
    pub content: String,
}

/// What scraping one seed URL produced.
#[derive(Debug, Clone, PartialEq)]
pub struct ScrapedSite {
    pub seed_url: String,
    pub duration: ElapsedTime,
    pub page_limit: usize,
    pub pages: Vec<ScrapedPage>,
    pub visited_urls: Vec<String>,
    pub error: Option<String>,
}

} // verus!
