use vstd::prelude::*;

verus! {

/// A search front end over one provider. The asynchronous search call is
/// made by the application, which hands the query to the provider unchanged
/// and returns its answer unchanged.
pub struct SearchService<P> {
    provider: P,
}

impl<P> SearchService<P> {
    /// The provider the service delegates to.
    pub closed spec fn spec_provider(&self) -> P {
        self.provider
    }

    pub fn new(provider: P) -> (r: Self)
        ensures
            r.spec_provider() == provider,
    {
        Self { provider }
    }

    /// The provider the service delegates to.
    pub fn provider(&self) -> (r: &P)
        ensures
            *r == self.spec_provider(),
    {
        &self.provider
    }
}

} // verus!
