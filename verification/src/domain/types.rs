use vstd::prelude::*;

verus! {

/// The kind of results a search asks for.
#[derive(Debug, Clone, Copy, PartialEq, Eq, Structural)]
pub enum SearchType {
    Web,
    News,
    Images,
    Videos,
}

/// How strictly a provider filters adult content.
#[derive(Debug, Clone, Copy, PartialEq, Eq, Structural)]
pub enum SafeSearch {
    Off,
    Moderate,
    Strict,
}

/// How recent results must be.
#[derive(Debug, Clone, Copy, PartialEq, Eq, Structural)]
pub enum TimeRange {
    Day,
    Week,
    Month,
    Year,
}

} // verus!
