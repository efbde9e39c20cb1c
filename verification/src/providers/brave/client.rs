//! The Brave Search provider: which endpoint, query parameters and headers a
//! search sends. The HTTP exchange itself is made by the application.
use vstd::prelude::*;

use crate::domain::{ProviderCapabilities, SafeSearch, SearchProvider, SearchQuery, SearchType, TimeRange};
use crate::providers::brave::config::BraveConfig;
use crate::text::{cat3, decimal, opt_view, usize_string};

verus! {

/// A query parameter or header: name and value.
pub type Pair = (String, String);

/// The names and values of a list of pairs.
pub open spec fn pair_views(v: Seq<Pair>) -> Seq<(Seq<char>, Seq<char>)> {
    v.map_values(|p: Pair| (p.0@, p.1@))
}

/// The path of the Brave endpoint for a kind of search.
pub open spec fn brave_endpoint(t: SearchType) -> Seq<char> {
    match t {
        SearchType::Web => "web/search"@,
        SearchType::News => "news/search"@,
        SearchType::Images => "images/search"@,
        SearchType::Videos => "videos/search"@,
    }
}

/// Brave's name for a safe-search level.
pub open spec fn brave_safe_search(s: SafeSearch) -> Seq<char> {
    match s {
        SafeSearch::Off => "off"@,
        SafeSearch::Moderate => "moderate"@,
        SafeSearch::Strict => "strict"@,
    }
}

/// Brave's name for a freshness window.
pub open spec fn brave_freshness(t: TimeRange) -> Seq<char> {
    match t {
        TimeRange::Day => "day"@,
        TimeRange::Week => "week"@,
        TimeRange::Month => "month"@,
        TimeRange::Year => "year"@,
    }
}

/// One optional parameter: present exactly when its value is.
pub open spec fn opt_param(name: Seq<char>, value: Option<Seq<char>>) -> Seq<(Seq<char>, Seq<char>)> {
    match value {
        Some(v) => seq![(name, v)],
        None => Seq::empty(),
    }
}

/// The query parameters Brave receives for `q`, in order.
pub open spec fn brave_params(q: SearchQuery) -> Seq<(Seq<char>, Seq<char>)> {
    seq![("q"@, q.text@)] + opt_param(
        "count"@,
        match q.limit {
            Some(n) => Some(decimal(n as nat)),
            None => None,
        },
    ) + opt_param(
        "offset"@,
        match q.offset {
            Some(n) => Some(decimal(n as nat)),
            None => None,
        },
    ) + opt_param(
        "safesearch"@,
        match q.safe_search {
            Some(s) => Some(brave_safe_search(s)),
            None => None,
        },
    ) + opt_param(
        "country"@,
        opt_view(q.country),
    ) + opt_param(
        "search_lang"@,
        opt_view(q.language),
    ) + opt_param(
        "freshness"@,
        match q.time_range {
            Some(t) => Some(brave_freshness(t)),
            None => None,
        },
    )
}

/// The HTTP GET a Brave search sends.
pub struct BraveRequest {
    pub url: String,
    pub headers: Vec<Pair>,
    pub params: Vec<Pair>,
}

/// The Brave Search provider over an HTTP client `C`.
pub struct BraveProvider<C> {
    client: C,
    config: BraveConfig,
}

impl<C> BraveProvider<C> {
    pub closed spec fn spec_client(&self) -> C {
        self.client
    }

    pub closed spec fn spec_config(&self) -> BraveConfig {
        self.config
    }

    pub fn new(client: C, config: BraveConfig) -> (r: Self)
        ensures
            r.spec_client() == client,
            r.spec_config() == config,
    {
        Self { client, config }
    }

    pub fn client(&self) -> (r: &C)
        ensures
            *r == self.spec_client(),
    {
        &self.client
    }

    pub fn config(&self) -> (r: &BraveConfig)
        ensures
            *r == self.spec_config(),
    {
        &self.config
    }

    /// The endpoint, headers and query parameters of a search for `query`.
    pub fn build_request(&self, query: &SearchQuery) -> (r: BraveRequest)
        ensures
            r.url@ == self.spec_config().base_url@ + "/"@ + brave_endpoint(query.search_type),
            pair_views(r.headers@) == seq![
                ("Accept"@, "application/json"@),
                ("X-Subscription-Token"@, self.spec_config().api_key@),
            ],
            pair_views(r.params@) == brave_params(*query),
    {
        let endpoint = match query.search_type {
            SearchType::Web => "web/search",
            SearchType::News => "news/search",
            SearchType::Images => "images/search",
            SearchType::Videos => "videos/search",
        };
        let url = cat3(self.config.base_url.as_str(), "/", endpoint);

        let mut params: Vec<Pair> = Vec::new();
        params.push((String::from_str("q"), query.text.clone()));
        let ghost mut expect: Seq<(Seq<char>, Seq<char>)> = seq![("q"@, query.text@)];
        assert(pair_views(params@) =~= expect);
        if let Some(limit) = query.limit {
            params.push((String::from_str("count"), usize_string(limit)));
        }
        proof {
            expect = expect + opt_param(
                "count"@,
                match query.limit {
                    Some(n) => Some(decimal(n as nat)),
                    None => None,
                },
            );
            assert(pair_views(params@) =~= expect);
        }
        if let Some(offset) = query.offset {
            params.push((String::from_str("offset"), usize_string(offset)));
        }
        proof {
            expect = expect + opt_param(
                "offset"@,
                match query.offset {
                    Some(n) => Some(decimal(n as nat)),
                    None => None,
                },
            );
            assert(pair_views(params@) =~= expect);
        }
        if let Some(ss) = query.safe_search {
            let val = match ss {
                SafeSearch::Off => "off",
                SafeSearch::Moderate => "moderate",
                SafeSearch::Strict => "strict",
            };
            params.push((String::from_str("safesearch"), String::from_str(val)));
        }
        proof {
            expect = expect + opt_param(
                "safesearch"@,
                match query.safe_search {
                    Some(s) => Some(brave_safe_search(s)),
                    None => None,
                },
            );
            assert(pair_views(params@) =~= expect);
        }
        if let Some(country) = &query.country {
            params.push((String::from_str("country"), country.clone()));
        }
        proof {
            expect = expect + opt_param(
                "country"@,
                opt_view(query.country),
            );
            assert(pair_views(params@) =~= expect);
        }
        if let Some(lang) = &query.language {
            params.push((String::from_str("search_lang"), lang.clone()));
        }
        proof {
            expect = expect + opt_param(
                "search_lang"@,
                opt_view(query.language),
            );
            assert(pair_views(params@) =~= expect);
        }
        if let Some(tr) = query.time_range {
            let val = match tr {
                TimeRange::Day => "day",
                TimeRange::Week => "week",
                TimeRange::Month => "month",
                TimeRange::Year => "year",
            };
            params.push((String::from_str("freshness"), String::from_str(val)));
        }
        proof {
            expect = expect + opt_param(
                "freshness"@,
                match query.time_range {
                    Some(t) => Some(brave_freshness(t)),
                    None => None,
                },
            );
            assert(pair_views(params@) =~= expect);
            assert(expect =~= brave_params(*query));
        }

        let mut headers: Vec<Pair> = Vec::new();
        headers.push((String::from_str("Accept"), String::from_str("application/json")));
        headers.push((String::from_str("X-Subscription-Token"), self.config.api_key.clone()));
        assert(pair_views(headers@) =~= seq![
            ("Accept"@, "application/json"@),
            ("X-Subscription-Token"@, self.config.api_key@),
        ]);
        BraveRequest { url, headers, params }
    }
}

impl<C> SearchProvider for BraveProvider<C> {
    fn id(&self) -> (r: String)
        ensures
            r@ == "brave"@,
    {
        String::from_str("brave")
    }

    fn capabilities(&self) -> (r: ProviderCapabilities)
        ensures
            r == (ProviderCapabilities {
                web: true,
                news: true,
                images: true,
                videos: true,
                pagination: false,
                safe_search: true,
                time_range_filter: true,
            }),
    {
        ProviderCapabilities {
            web: true,
            news: true,
            images: true,
            videos: true,
            pagination: false,
            safe_search: true,
            time_range_filter: true,
        }
    }
}

} // verus!

verus! {

/// A Brave search goes to the endpoint of its kind and always sends the
/// query text first; the safe-search and freshness words Brave reads are the
/// lower-case names of the levels and ranges.
pub proof fn lemma_brave_request_words(q: SearchQuery)
    ensures
        brave_params(q).len() >= 1,
        brave_params(q)[0] == ("q"@, q.text@),
        brave_endpoint(SearchType::Web) == "web/search"@,
        brave_endpoint(SearchType::News) == "news/search"@,
        brave_endpoint(SearchType::Images) == "images/search"@,
        brave_endpoint(SearchType::Videos) == "videos/search"@,
        brave_safe_search(SafeSearch::Off) == "off"@,
        brave_safe_search(SafeSearch::Moderate) == "moderate"@,
        brave_safe_search(SafeSearch::Strict) == "strict"@,
        brave_freshness(TimeRange::Day) == "day"@,
        brave_freshness(TimeRange::Week) == "week"@,
        brave_freshness(TimeRange::Month) == "month"@,
        brave_freshness(TimeRange::Year) == "year"@,
{
}

} // verus!
