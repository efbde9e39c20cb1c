use vstd::prelude::*;

use crate::domain::{ProviderSearchFailure, SearchBatchResponse, SearchError, SearchQuery, SearchResponse};

verus! {

/// What one provider answered during a fan-out: its id and its outcome.
pub type ProviderOutcome = (String, Result<SearchResponse, SearchError>);

/// The successful responses among `outcomes`, in order.
pub open spec fn ok_responses(outcomes: Seq<ProviderOutcome>) -> Seq<SearchResponse>
    decreases outcomes.len(),
{
    if outcomes.len() == 0 {
        Seq::empty()
    } else {
        let prev = ok_responses(outcomes.drop_last());
        match outcomes.last().1 {
            Ok(r) => prev.push(r),
            Err(_) => prev,
        }
    }
}

/// The failures among `outcomes`, each with its provider id, in order.
pub open spec fn failed_outcomes(outcomes: Seq<ProviderOutcome>) -> Seq<ProviderSearchFailure>
    decreases outcomes.len(),
{
    if outcomes.len() == 0 {
        Seq::empty()
    } else {
        let prev = failed_outcomes(outcomes.drop_last());
        match outcomes.last().1 {
            Ok(_) => prev,
            Err(e) => prev.push(ProviderSearchFailure { provider: outcomes.last().0, error: e }),
        }
    }
}

/// A search front end over several providers, queried one after another.
/// The asynchronous calls are made by the application; their outcomes are
/// gathered here.
pub struct FanoutSearchService<P> {
    providers: Vec<P>,
}

impl<P> FanoutSearchService<P> {
    /// The providers, in the order they are queried.
    pub closed spec fn spec_providers(&self) -> Seq<P> {
        self.providers@
    }

    pub fn new(providers: Vec<P>) -> (r: Self)
        ensures
            r.spec_providers() == providers@,
    {
        Self { providers }
    }

    /// The providers, in the order they are queried.
    pub fn providers(&self) -> (r: &Vec<P>)
        ensures
            r@ == self.spec_providers(),
    {
        &self.providers
    }

    /// The batch answer to `query` from the outcomes of all providers, given
    /// in provider order: every success is kept, every failure is recorded
    /// with its provider, and no failure stops the others.
    pub fn gather(query: SearchQuery, outcomes: Vec<ProviderOutcome>) -> (r: SearchBatchResponse)
        ensures
            r.query == query.text,
            r.responses@ == ok_responses(outcomes@),
            r.failures@ == failed_outcomes(outcomes@),
    {
        let mut responses: Vec<SearchResponse> = Vec::new();
        let mut failures: Vec<ProviderSearchFailure> = Vec::new();
        let ghost all = outcomes@;
        for o in it: outcomes.into_iter()
            invariant
                it.seq() == all,
                responses@ == ok_responses(all.take(it.index() as int)),
                failures@ == failed_outcomes(all.take(it.index() as int)),
        {
            assert(all.take(it.index() + 1).drop_last() =~= all.take(it.index() as int));
            let (provider, outcome) = o;
            match outcome {
                Ok(response) => responses.push(response),
                Err(error) => failures.push(ProviderSearchFailure { provider, error }),
            }
        }
        assert(all.take(all.len() as int) =~= all);
        SearchBatchResponse { query: query.text, responses, failures }
    }
}

/// Every outcome lands in exactly one of the two lists.
pub proof fn lemma_gather_accounts_for_every_provider(outcomes: Seq<ProviderOutcome>)
    ensures
        ok_responses(outcomes).len() + failed_outcomes(outcomes).len() == outcomes.len(),
    decreases outcomes.len(),
{
    if outcomes.len() > 0 {
        lemma_gather_accounts_for_every_provider(outcomes.drop_last());
    }
}

} // verus!
