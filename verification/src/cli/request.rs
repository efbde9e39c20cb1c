use vstd::prelude::*;

use crate::cli::args::{spec_safe_search, spec_search_type, CliArgs, CliSafeSearch, CliSearchType};
use crate::domain::{SafeSearch, SearchQuery, SearchType};
use crate::text::clone_opt;

verus! {

/// The domain query for `text` with the options of the command line: every
/// supported option carried over, no time range.
pub open spec fn spec_search_query(text: String, args: CliArgs) -> SearchQuery {
    SearchQuery {
        text,
        search_type: spec_search_type(args.search_type),
        limit: args.limit,
        offset: args.offset,
        safe_search: match args.safe_search {
            Some(s) => Some(spec_safe_search(s)),
            None => None,
        },
        country: args.country,
        language: args.language,
        time_range: None,
    }
}

/// The domain query for `query_text` with the options of the command line.
pub fn build_search_query(query_text: String, args: &CliArgs) -> (r: SearchQuery)
    ensures
        r == spec_search_query(query_text, *args),
{
    let search_type: SearchType = args.search_type.into();
    let safe_search: Option<SafeSearch> = match args.safe_search {
        Some(s) => Some(s.into()),
        None => None,
    };
    SearchQuery {
        text: query_text,
        search_type,
        limit: args.limit,
        offset: args.offset,
        safe_search,
        country: clone_opt(&args.country),
        language: clone_opt(&args.language),
        time_range: None,
    }
}

} // verus!

verus! {

/// The domain query of a command line asks for the kind of search and the
/// safe-search level that the command line names, with its text and options.
pub proof fn lemma_search_query_keeps_the_options(text: String, args: CliArgs)
    ensures
        ({
            let q = spec_search_query(text, args);
            &&& q.text == text
            &&& (q.search_type == SearchType::Web <==> args.search_type == CliSearchType::Web)
            &&& (q.search_type == SearchType::News <==> args.search_type == CliSearchType::News)
            &&& (q.search_type == SearchType::Images <==> args.search_type
                == CliSearchType::Images)
            &&& (q.search_type == SearchType::Videos <==> args.search_type
                == CliSearchType::Videos)
            &&& (q.safe_search == Some(SafeSearch::Off) <==> args.safe_search == Some(
                CliSafeSearch::Off,
            ))
            &&& (q.safe_search == Some(SafeSearch::Moderate) <==> args.safe_search == Some(
                CliSafeSearch::Moderate,
            ))
            &&& (q.safe_search == Some(SafeSearch::Strict) <==> args.safe_search == Some(
                CliSafeSearch::Strict,
            ))
            &&& (q.safe_search is None <==> args.safe_search is None)
            &&& q.limit == args.limit
            &&& q.offset == args.offset
            &&& q.country == args.country
            &&& q.language == args.language
            &&& q.time_range is None
        }),
{
}

} // verus!
