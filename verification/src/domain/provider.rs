use vstd::prelude::*;

verus! {

/// What a provider can search for and filter by.
#[derive(Debug, Clone, Copy, PartialEq, Eq, Structural)]
pub struct ProviderCapabilities {
    pub web: bool,
    pub news: bool,
    pub images: bool,
    pub videos: bool,
    pub pagination: bool,
    pub safe_search: bool,
    pub time_range_filter: bool,
}

impl ProviderCapabilities {
    /// No capability at all.
    pub open spec fn none() -> ProviderCapabilities {
        ProviderCapabilities {
            web: false,
            news: false,
            images: false,
            videos: false,
            pagination: false,
            safe_search: false,
            time_range_filter: false,
        }
    }
}

impl Default for ProviderCapabilities {
    fn default() -> (r: Self)
        ensures
            r == ProviderCapabilities::none(),
    {
        ProviderCapabilities {
            web: false,
            news: false,
            images: false,
            videos: false,
            pagination: false,
            safe_search: false,
            time_range_filter: false,
        }
    }
}

/// A search backend: its identity and what it supports. The search itself is
/// asynchronous I/O and is driven by the application around this library.
pub trait SearchProvider {
    fn id(&self) -> String;

    fn capabilities(&self) -> ProviderCapabilities;
}

} // verus!
