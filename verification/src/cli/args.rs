//! Command-line choices. Parsing the command line itself is done by the
//! application with clap; the provider tokens it accepts come from here.
use vstd::prelude::*;

use crate::bootstrap::provider_catalog::{
    catalog_ids, default_provider_id, find_provider_by_cli_token, first_with_token,
    lemma_cli_token_round_trip, provider_cli_tokens, spec_cli_token, ProviderId,
};
use crate::domain::{SafeSearch, SearchType};

verus! {

/// The token that selects every configured provider.
pub open spec fn all_token() -> Seq<char> {
    "all"@
}

#[derive(Debug, Clone, Copy, PartialEq, Eq, Structural)]
pub enum CliSearchType {
    Web,
    News,
    Images,
    Videos,
}

pub open spec fn spec_search_type(val: CliSearchType) -> SearchType {
    match val {
        CliSearchType::Web => SearchType::Web,
        CliSearchType::News => SearchType::News,
        CliSearchType::Images => SearchType::Images,
        CliSearchType::Videos => SearchType::Videos,
    }
}

impl From<CliSearchType> for SearchType {
    fn from(val: CliSearchType) -> (r: SearchType) {
        match val {
            CliSearchType::Web => SearchType::Web,
            CliSearchType::News => SearchType::News,
            CliSearchType::Images => SearchType::Images,
            CliSearchType::Videos => SearchType::Videos,
        }
    }
}

impl vstd::std_specs::convert::FromSpecImpl<CliSearchType> for SearchType {
    open spec fn obeys_from_spec() -> bool {
        true
    }

    open spec fn from_spec(v: CliSearchType) -> SearchType {
        spec_search_type(v)
    }
}

#[derive(Debug, Clone, Copy, PartialEq, Eq, Structural)]
pub enum CliSafeSearch {
    Off,
    Moderate,
    Strict,
}

pub open spec fn spec_safe_search(val: CliSafeSearch) -> SafeSearch {
    match val {
        CliSafeSearch::Off => SafeSearch::Off,
        CliSafeSearch::Moderate => SafeSearch::Moderate,
        CliSafeSearch::Strict => SafeSearch::Strict,
    }
}

impl From<CliSafeSearch> for SafeSearch {
    fn from(val: CliSafeSearch) -> (r: SafeSearch) {
        match val {
            CliSafeSearch::Off => SafeSearch::Off,
            CliSafeSearch::Moderate => SafeSearch::Moderate,
            CliSafeSearch::Strict => SafeSearch::Strict,
        }
    }
}

impl vstd::std_specs::convert::FromSpecImpl<CliSafeSearch> for SafeSearch {
    open spec fn obeys_from_spec() -> bool {
        true
    }

    open spec fn from_spec(v: CliSafeSearch) -> SafeSearch {
        spec_safe_search(v)
    }
}

/// The provider selection of the command line: one real provider, or all.
#[derive(Debug, Clone, Copy, PartialEq, Eq, Structural)]
pub enum CliProvider {
    Single(ProviderId),
    All,
}

/// The token that selects a provider choice.
pub open spec fn provider_token(p: CliProvider) -> Seq<char> {
    match p {
        CliProvider::Single(id) => spec_cli_token(id),
        CliProvider::All => all_token(),
    }
}

/// The tokens `--provider` accepts: the catalog's, then `all`.
pub open spec fn valid_token(t: Seq<char>) -> bool {
    t == all_token() || first_with_token(catalog_ids(), t) is Some
}

/// The provider choice a valid token selects.
pub open spec fn spec_parse_cli_provider(t: Seq<char>) -> CliProvider {
    if t == all_token() {
        CliProvider::All
    } else {
        CliProvider::Single(first_with_token(catalog_ids(), t)->Some_0)
    }
}

impl Default for CliProvider {
    fn default() -> (r: Self)
        ensures
            r == CliProvider::Single(catalog_ids()[0]),
    {
        CliProvider::Single(default_provider_id())
    }
}

impl CliProvider {
    /// What `{}` prints for the choice: its token.
    #[allow(clippy::inherent_to_string)]
    pub fn to_string(&self) -> (r: String)
        ensures
            r@ == provider_token(*self),
    {
        match self {
            CliProvider::Single(id) => id.to_string(),
            CliProvider::All => String::from_str("all"),
        }
    }
}

/// The tokens `--provider` accepts, in catalog order and then `all`.
pub fn valid_provider_tokens() -> (r: Vec<&'static str>)
    ensures
        r@.len() == catalog_ids().len() + 1,
        forall|i: int| 0 <= i < catalog_ids().len() ==> (#[trigger] r@[i])@ == spec_cli_token(
            catalog_ids()[i],
        ),
        r@[catalog_ids().len() as int]@ == all_token(),
{
    let mut tokens = provider_cli_tokens();
    tokens.push("all");
    tokens
}

/// The provider choice selected by a token that `--provider` accepted.
pub fn parse_cli_provider(value: &str) -> (r: CliProvider)
    requires
        valid_token(value@),
    ensures
        r == spec_parse_cli_provider(value@),
{
    if crate::text::str_eq(value, "all") {
        return CliProvider::All;
    }
    match find_provider_by_cli_token(value) {
        Some(id) => CliProvider::Single(id),
        None => CliProvider::All,
    }
}

/// Every provider choice is selected by its own token.
pub proof fn lemma_provider_token_round_trip(p: CliProvider)
    ensures
        valid_token(provider_token(p)),
        spec_parse_cli_provider(provider_token(p)) == p,
{
    reveal_strlit("all");
    reveal_strlit("brave");
    reveal_strlit("exa");
    assert("all"@.len() == 3);
    assert("brave"@.len() == 5);
    assert("exa"@[0] == 'e');
    assert("all"@[0] == 'a');
    match p {
        CliProvider::Single(id) => {
            lemma_cli_token_round_trip(id);
            assert(spec_cli_token(id) != all_token());
        },
        CliProvider::All => {},
    }
}

/// The parsed command line.
#[derive(Debug)]
pub struct CliArgs {
    pub query: Option<String>,
    pub about: bool,
    pub search_type: CliSearchType,
    pub provider: CliProvider,
    pub limit: Option<usize>,
    pub offset: Option<usize>,
    pub safe_search: Option<CliSafeSearch>,
    pub country: Option<String>,
    pub language: Option<String>,
}

} // verus!

verus! {

/// A command-line search type keeps its kind in the domain: web stays web,
/// news stays news, images stay images, videos stay videos; so two types
/// convert alike only when they are the same.
pub proof fn lemma_search_type_keeps_its_kind(v: CliSearchType, w: CliSearchType)
    ensures
        spec_search_type(v) == SearchType::Web <==> v == CliSearchType::Web,
        spec_search_type(v) == SearchType::News <==> v == CliSearchType::News,
        spec_search_type(v) == SearchType::Images <==> v == CliSearchType::Images,
        spec_search_type(v) == SearchType::Videos <==> v == CliSearchType::Videos,
        spec_search_type(v) == spec_search_type(w) ==> v == w,
{
}

/// A command-line safe-search level keeps its level in the domain: off stays
/// off, moderate stays moderate, strict stays strict; so two levels convert
/// alike only when they are the same.
pub proof fn lemma_safe_search_keeps_its_level(v: CliSafeSearch, w: CliSafeSearch)
    ensures
        spec_safe_search(v) == SafeSearch::Off <==> v == CliSafeSearch::Off,
        spec_safe_search(v) == SafeSearch::Moderate <==> v == CliSafeSearch::Moderate,
        spec_safe_search(v) == SafeSearch::Strict <==> v == CliSafeSearch::Strict,
        spec_safe_search(v) == spec_safe_search(w) ==> v == w,
{
}

} // verus!
