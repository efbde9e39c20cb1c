//! The Exa provider: which queries it accepts, the request it posts, and how
//! its answer is read back. The HTTP exchange itself is made by the
//! application.
use vstd::prelude::*;

use crate::domain::{ProviderCapabilities, SafeSearch, SearchError, SearchProvider, SearchQuery, SearchResponse, SearchType, TimeRange};
use crate::providers::brave::client::{pair_views, Pair};
use crate::providers::exa::config::ExaConfig;
use crate::providers::exa::dto::{
    ExaContentsRequest, ExaHighlightsRequest, ExaSearchRequest, ExaSearchResponse,
    ExaSummaryRequest,
};
use crate::providers::exa::mapper::{
    map_news_response, map_web_response, spec_map_exa_news, spec_map_exa_web,
};
use crate::text::{cat, clone_opt, opt_view};

verus! {

/// Budget of per-result highlight characters asked of the Exa API.
pub const EXA_HIGHLIGHTS_MAX_CHARACTERS: u32 = 1200;

/// Seconds in a day.
pub const SECONDS_PER_DAY: i64 = 86400;

/// The RFC 3339 text of the UTC instant `secs` seconds and `nanos`
/// nanoseconds after the Unix epoch, or `None` where chrono cannot represent
/// that instant.
pub uninterp spec fn rfc3339_utc(secs: int, nanos: int) -> Option<Seq<char>>;

/// The latest Unix timestamp chrono can represent: the last second of year
/// 262142 (`NaiveDate`'s `MAX_YEAR`).
pub const LATEST_CHRONO_SECS: i64 = 8_210_266_876_799;

/// Formats a Unix timestamp with `chrono::DateTime::<Utc>::from_timestamp`
/// and `DateTime::to_rfc3339`. The contract claims that the result is a
/// function of the two numbers (named `rfc3339_utc`); that chrono accepts
/// every timestamp from -8e12 seconds (about year -251500) up to
/// `LATEST_CHRONO_SECS` with fewer than 1e9 nanoseconds (`from_timestamp`
/// refuses only days outside `i32`, years outside `MIN_YEAR..=MAX_YEAR` and
/// invalid times of day; `to_rfc3339` cannot fail); and that the text holds
/// the `T` that `write_rfc3339` puts between date and time. Which timestamps
/// outside that range are accepted is not stated.
#[verifier::external_body]
fn rfc3339_from_timestamp(secs: i64, nanos: u32) -> (r: Option<String>)
    ensures
        opt_view(r) == rfc3339_utc(secs as int, nanos as int),
        -8_000_000_000_000 <= secs <= LATEST_CHRONO_SECS && nanos < 1_000_000_000 ==> r is Some,
        r matches Some(t) ==> t@.contains('T'),
{
    match chrono::DateTime::from_timestamp(secs, nanos) {
        Some(dt) => Some(dt.to_rfc3339()),
        None => None,
    }
}

/// Reads the clock with `std::time::SystemTime::now` and its
/// `duration_since(UNIX_EPOCH)`, as whole seconds since the Unix epoch and the
/// nanoseconds past them; `None` where the clock reads before the epoch
/// (`duration_since` fails) or its seconds do not fit an `i64`. The contract
/// claims only what `Duration` documents: the seconds count up from zero and
/// `subsec_nanos` is below one second. Which instant is read is not stated:
/// it depends on the time of the call.
#[verifier::external_body]
fn utc_now() -> (r: Option<(i64, u32)>)
    ensures
        r matches Some(reading) ==> 0 <= reading.0 && reading.1 < 1_000_000_000,
{
    match std::time::SystemTime::now().duration_since(std::time::UNIX_EPOCH) {
        Ok(since) => match i64::try_from(since.as_secs()) {
            Ok(secs) => Some((secs, since.subsec_nanos())),
            Err(_) => None,
        },
        Err(_) => None,
    }
}

/// How many days back a time range reaches.
pub open spec fn lookback_days(t: TimeRange) -> int {
    match t {
        TimeRange::Day => 1,
        TimeRange::Week => 7,
        TimeRange::Month => 30,
        TimeRange::Year => 365,
    }
}

/// The published-date window ending at the instant `(secs, nanos)`: its start
/// and end as RFC 3339 text. Where the start cannot be represented, there is
/// no window.
pub open spec fn spec_window_at(t: TimeRange, secs: int, nanos: int) -> (
    Option<Seq<char>>,
    Option<Seq<char>>,
) {
    let start = secs - lookback_days(t) * SECONDS_PER_DAY;
    if i64::MIN <= start && rfc3339_utc(start, nanos) is Some && rfc3339_utc(secs, nanos) is Some {
        (rfc3339_utc(start, nanos), rfc3339_utc(secs, nanos))
    } else {
        (None, None)
    }
}

/// The published-date window of `t` ending at the instant `(secs, nanos)`.
pub fn published_date_window_at(t: TimeRange, secs: i64, nanos: u32) -> (r: (
    Option<String>,
    Option<String>,
))
    ensures
        (opt_view(r.0), opt_view(r.1)) == spec_window_at(t, secs as int, nanos as int),
        0 <= secs <= LATEST_CHRONO_SECS && nanos < 1_000_000_000 ==> r.0 is Some && r.1 is Some,
        r.0 matches Some(start) ==> start@.contains('T'),
        r.1 matches Some(end) ==> end@.contains('T'),
{
    let days: i64 = match t {
        TimeRange::Day => 1,
        TimeRange::Week => 7,
        TimeRange::Month => 30,
        TimeRange::Year => 365,
    };
    let start = match secs.checked_sub(days * SECONDS_PER_DAY) {
        Some(s) => s,
        None => {
            return (None, None);
        },
    };
    let start_text = rfc3339_from_timestamp(start, nanos);
    let end_text = rfc3339_from_timestamp(secs, nanos);
    match (start_text, end_text) {
        (Some(s), Some(e)) => (Some(s), Some(e)),
        _ => (None, None),
    }
}

/// A published-date window as text.
pub open spec fn window_view(w: (Option<String>, Option<String>)) -> (
    Option<Seq<char>>,
    Option<Seq<char>>,
) {
    (opt_view(w.0), opt_view(w.1))
}

/// The published-date window of `t` for a clock reading: none where the clock
/// could not be read or its window cannot be written as dates.
pub open spec fn spec_window_for(t: TimeRange, reading: Option<(i64, u32)>) -> Option<
    (Option<Seq<char>>, Option<Seq<char>>),
> {
    match reading {
        None => None,
        Some(p) => {
            let w = spec_window_at(t, p.0 as int, p.1 as int);
            if w.0 is Some && w.1 is Some {
                Some(w)
            } else {
                None
            }
        },
    }
}

/// Whether a window holds both dates, each written with its `T`.
pub open spec fn both_dated(w: (Option<Seq<char>>, Option<Seq<char>>)) -> bool {
    match w {
        (Some(start), Some(end)) => start.contains('T') && end.contains('T'),
        _ => false,
    }
}

/// Whether a clock reading is one the clock can give: seconds from the epoch
/// on, nanoseconds below one second.
pub open spec fn possible_reading(reading: Option<(i64, u32)>) -> bool {
    reading matches Some(p) ==> 0 <= p.0 && p.1 < 1_000_000_000
}

/// The published-date window of `t` for a clock reading.
pub fn published_date_window_for(t: TimeRange, reading: Option<(i64, u32)>) -> (r: Option<
    (Option<String>, Option<String>),
>)
    ensures
        match r {
            Some(w) => spec_window_for(t, reading) == Some(window_view(w)),
            None => spec_window_for(t, reading) is None,
        },
        reading matches Some(p) && 0 <= p.0 <= LATEST_CHRONO_SECS && p.1 < 1_000_000_000
            ==> r is Some,
        r matches Some(w) ==> both_dated(window_view(w)),
{
    match reading {
        None => None,
        Some((secs, nanos)) => {
            let w = published_date_window_at(t, secs, nanos);
            if w.0.is_some() && w.1.is_some() {
                Some(w)
            } else {
                None
            }
        },
    }
}

/// The published-date window of an optional time range, ending now: no
/// dates without a time range; `None` where the clock gives no window.
pub fn published_date_window(time_range: Option<TimeRange>) -> (r: Option<
    (Option<String>, Option<String>),
>)
    ensures
        time_range is None ==> (match r {
            Some(w) => w.0 is None && w.1 is None,
            None => false,
        }),
        time_range matches Some(t) ==> exists|reading: Option<(i64, u32)>|
            possible_reading(reading) && match r {
                Some(w) => #[trigger] spec_window_for(t, reading) == Some(window_view(w)),
                None => spec_window_for(t, reading) is None,
            },
        time_range is Some ==> (match r {
            Some(w) => both_dated(window_view(w)),
            None => true,
        }),
{
    match time_range {
        None => Some((None, None)),
        Some(t) => {
            let reading = utc_now();
            let r = published_date_window_for(t, reading);
            assert(possible_reading(reading));
            r
        },
    }
}

/// The error of a search whose time range the clock gives no window for.
pub open spec fn clock_error_message() -> Seq<char> {
    "the system clock gives no published-date window"@
}

/// Why Exa refuses a query, if it does.
pub open spec fn exa_request_error(q: SearchQuery) -> Option<Seq<char>> {
    match q.search_type {
        SearchType::Images => Some("exa provider does not support image search"@),
        SearchType::Videos => Some("exa provider does not support video search"@),
        _ => if q.offset is Some {
            Some("exa provider does not support offset"@)
        } else if q.language is Some {
            Some("exa provider does not support language selection"@)
        } else {
            None
        },
    }
}

/// Exa's boolean moderation flag for a safe-search level: moderate and
/// strict both turn it on.
pub open spec fn exa_moderation(s: Option<SafeSearch>) -> Option<bool> {
    match s {
        Some(SafeSearch::Off) => Some(false),
        Some(_) => Some(true),
        None => None,
    }
}

/// `req` is the body Exa receives for `q`, apart from its date window.
pub open spec fn exa_request_for(req: ExaSearchRequest, q: SearchQuery) -> bool {
    &&& req.query@ == q.text@
    &&& req.search_type@ == "auto"@
    &&& req.num_results == q.limit
    &&& opt_view(req.category) == (if q.search_type == SearchType::News {
        Some("news"@)
    } else {
        None
    })
    &&& opt_view(req.user_location) == opt_view(q.country)
    &&& req.moderation == exa_moderation(q.safe_search)
    &&& req.contents.text is None
    &&& req.contents.highlights matches Some(h) && h.max_characters
        == EXA_HIGHLIGHTS_MAX_CHARACTERS && opt_view(h.query) == Some(q.text@)
    &&& req.contents.summary matches Some(s) && s.query@ == q.text@
}

/// The Exa provider over an HTTP client `C`.
pub struct ExaProvider<C> {
    client: C,
    config: ExaConfig,
}

impl<C> ExaProvider<C> {
    pub closed spec fn spec_client(&self) -> C {
        self.client
    }

    pub closed spec fn spec_config(&self) -> ExaConfig {
        self.config
    }

    pub fn new(client: C, config: ExaConfig) -> (r: Self)
        ensures
            r.spec_client() == client,
            r.spec_config() == config,
    {
        Self { client, config }
    }

    pub fn client(&self) -> (r: &C)
        ensures
            *r == self.spec_client(),
    {
        &self.client
    }

    pub fn config(&self) -> (r: &ExaConfig)
        ensures
            *r == self.spec_config(),
    {
        &self.config
    }

    /// The search body for `query`, or why Exa cannot run it.
    pub fn build_request(&self, query: &SearchQuery) -> (r: Result<ExaSearchRequest, SearchError>)
        ensures
            exa_request_error(*query) is None && query.time_range is None ==> r is Ok,
            r matches Err(e) ==> match exa_request_error(*query) {
                Some(msg) => e matches SearchError::InvalidQuery(m) && m@ == msg,
                None => query.time_range is Some && (match e {
                    SearchError::Config(m) => m@ == clock_error_message(),
                    _ => false,
                }),
            },
            r matches Ok(req) ==> {
                &&& exa_request_error(*query) is None
                &&& exa_request_for(req, *query)
                &&& query.time_range is None ==> req.start_published_date is None
                    && req.end_published_date is None
                &&& query.time_range is Some ==> req.start_published_date is Some
                    && req.end_published_date is Some
                &&& query.time_range matches Some(t) ==> exists|reading: Option<(i64, u32)>|
                    possible_reading(reading) && #[trigger] spec_window_for(t, reading) == Some(
                        (opt_view(req.start_published_date), opt_view(req.end_published_date)),
                    )
                &&& req.start_published_date matches Some(start) ==> start@.contains('T')
                &&& req.end_published_date matches Some(end) ==> end@.contains('T')
            },
    {
        match query.search_type {
            SearchType::Images => {
                return Err(
                    SearchError::InvalidQuery(
                        String::from_str("exa provider does not support image search"),
                    ),
                );
            },
            SearchType::Videos => {
                return Err(
                    SearchError::InvalidQuery(
                        String::from_str("exa provider does not support video search"),
                    ),
                );
            },
            SearchType::Web | SearchType::News => {},
        }
        if query.offset.is_some() {
            return Err(
                SearchError::InvalidQuery(String::from_str("exa provider does not support offset")),
            );
        }
        if query.language.is_some() {
            return Err(
                SearchError::InvalidQuery(
                    String::from_str("exa provider does not support language selection"),
                ),
            );
        }

        let (start_published_date, end_published_date) = match published_date_window(
            query.time_range,
        ) {
            Some(window) => window,
            None => {
                return Err(
                    SearchError::Config(
                        String::from_str("the system clock gives no published-date window"),
                    ),
                );
            },
        };

        let category = match query.search_type {
            SearchType::News => Some(String::from_str("news")),
            _ => None,
        };
        let moderation = match query.safe_search {
            Some(SafeSearch::Off) => Some(false),
            Some(SafeSearch::Moderate) => Some(true),
            Some(SafeSearch::Strict) => Some(true),
            None => None,
        };
        Ok(
            ExaSearchRequest {
                query: query.text.clone(),
                search_type: String::from_str("auto"),
                num_results: query.limit,
                category,
                user_location: clone_opt(&query.country),
                start_published_date,
                end_published_date,
                moderation,
                contents: ExaContentsRequest {
                    text: None,
                    highlights: Some(
                        ExaHighlightsRequest {
                            max_characters: EXA_HIGHLIGHTS_MAX_CHARACTERS,
                            query: Some(query.text.clone()),
                        },
                    ),
                    summary: Some(ExaSummaryRequest { query: query.text.clone() }),
                },
            },
        )
    }

    /// Where the search is posted.
    pub fn search_url(&self) -> (r: String)
        ensures
            r@ == self.spec_config().base_url@ + "/search"@,
    {
        cat(self.config.base_url.as_str(), "/search")
    }

    /// The headers of the search request.
    pub fn search_headers(&self) -> (r: Vec<Pair>)
        ensures
            pair_views(r@) == seq![("x-api-key"@, self.spec_config().api_key@)],
    {
        let mut headers: Vec<Pair> = Vec::new();
        headers.push((String::from_str("x-api-key"), self.config.api_key.clone()));
        assert(pair_views(headers@) =~= seq![("x-api-key"@, self.config.api_key@)]);
        headers
    }

    /// Exa's answer to an accepted query, as results of the query's kind.
    pub fn map_search_response(query: &SearchQuery, response: ExaSearchResponse) -> (r:
        SearchResponse)
        requires
            query.search_type == SearchType::Web || query.search_type == SearchType::News,
        ensures
            query.search_type == SearchType::Web ==> r@ == spec_map_exa_web(query.text@, response),
            query.search_type == SearchType::News ==> r@ == spec_map_exa_news(
                query.text@,
                response,
            ),
    {
        match query.search_type {
            SearchType::News => map_news_response(query.text.as_str(), response),
            _ => map_web_response(query.text.as_str(), response),
        }
    }
}

impl<C> SearchProvider for ExaProvider<C> {
    fn id(&self) -> (r: String)
        ensures
            r@ == "exa"@,
    {
        String::from_str("exa")
    }

    fn capabilities(&self) -> (r: ProviderCapabilities)
        ensures
            r == (ProviderCapabilities {
                web: true,
                news: true,
                images: false,
                videos: false,
                pagination: false,
                safe_search: true,
                time_range_filter: true,
            }),
    {
        ProviderCapabilities {
            web: true,
            news: true,
            images: false,
            videos: false,
            pagination: false,
            safe_search: true,
            time_range_filter: true,
        }
    }
}

} // verus!

verus! {

/// Exa's moderation flag follows the safe-search level: off exactly for
/// `Off`, on for `Moderate` and `Strict` alike, and absent exactly when no
/// level is asked for.
pub proof fn lemma_exa_moderation_follows_safe_search(req: ExaSearchRequest, q: SearchQuery)
    requires
        exa_request_for(req, q),
    ensures
        req.moderation == Some(false) <==> q.safe_search == Some(SafeSearch::Off),
        req.moderation == Some(true) <==> (q.safe_search == Some(SafeSearch::Moderate)
            || q.safe_search == Some(SafeSearch::Strict)),
        req.moderation is None <==> q.safe_search is None,
{
}

/// An Exa request carries the query's text, count and location, asks for
/// news exactly for a news search, and asks for highlights and a summary of
/// that text, never the full page text.
pub proof fn lemma_exa_request_carries_the_query(req: ExaSearchRequest, q: SearchQuery)
    requires
        exa_request_for(req, q),
    ensures
        req.query@ == q.text@,
        req.num_results == q.limit,
        opt_view(req.user_location) == opt_view(q.country),
        req.category is Some <==> q.search_type == SearchType::News,
        req.category matches Some(c) ==> c@ == "news"@,
        req.contents.text is None,
        req.contents.highlights is Some,
        req.contents.summary is Some,
{
}

} // verus!
