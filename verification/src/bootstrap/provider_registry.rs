//! Which providers are configured, and building search services over them.
use vstd::prelude::*;

use crate::app::fanout_search_service::FanoutSearchService;
use crate::app::search_service::SearchService;
pub use crate::bootstrap::provider_catalog::ProviderId;
use crate::bootstrap::provider_catalog::{
    catalog_env_vars, catalog_ids, catalog_index, env_var_hint, provider_catalog,
    provider_env_var_hint, provider_index, spec_cli_token, spec_debug_name,
};
use crate::providers::brave::config::{brave_base_url, BraveConfig};
use crate::providers::config::{spec_api_key, EnvVarError};
use crate::providers::exa::config::{exa_base_url, ExaConfig};
use crate::text::{cat3, seq_join};

verus! {

/// The providers of `ids` that belong to `configured`, in the order of `ids`.
pub open spec fn configured_in_order(ids: Seq<ProviderId>, configured: Set<ProviderId>) -> Seq<
    ProviderId,
>
    decreases ids.len(),
{
    if ids.len() == 0 {
        Seq::empty()
    } else {
        let prev = configured_in_order(ids.drop_last(), configured);
        if configured.contains(ids.last()) {
            prev.push(ids.last())
        } else {
            prev
        }
    }
}

/// What `{:?}` prints for a list of providers, such as `[Brave, Exa]`.
pub open spec fn debug_list(ids: Seq<ProviderId>) -> Seq<char> {
    "["@ + seq_join(ids.map_values(|id: ProviderId| spec_debug_name(id)), ", "@) + "]"@
}

/// Why no search service could be built.
#[derive(Debug)]
pub enum BuildSearchServiceError {
    ProviderUnavailable { provider: ProviderId, available: Vec<ProviderId> },
    NoProvidersAvailable,
}

impl BuildSearchServiceError {
    /// The human-readable message of the error.
    pub open spec fn message(&self) -> Seq<char> {
        match self {
            BuildSearchServiceError::ProviderUnavailable { provider, available } => "provider `"@
                + spec_cli_token(*provider) + "` is unavailable; configured providers: "@
                + debug_list(available@),
            BuildSearchServiceError::NoProvidersAvailable => "no configured providers; set "@
                + env_var_hint(catalog_env_vars()) + " to enable a provider"@,
        }
    }

    /// The human-readable message of the error.
    #[allow(clippy::inherent_to_string)]
    pub fn to_string(&self) -> (r: String)
        ensures
            r@ == self.message(),
    {
        match self {
            BuildSearchServiceError::ProviderUnavailable { provider, available } => {
                let mut s = cat3(
                    "provider `",
                    provider.cli_token(),
                    "` is unavailable; configured providers: ",
                );
                let list = debug_list_string(available);
                s.append(list.as_str());
                s
            },
            BuildSearchServiceError::NoProvidersAvailable => {
                let hint = provider_env_var_hint();
                cat3("no configured providers; set ", hint.as_str(), " to enable a provider")
            },
        }
    }
}

/// What `{:?}` prints for a list of providers.
pub fn debug_list_string(ids: &Vec<ProviderId>) -> (r: String)
    ensures
        r@ == debug_list(ids@),
{
    let ghost names = ids@.map_values(|id: ProviderId| spec_debug_name(id));
    let mut out = String::from_str("[");
    let mut i: usize = 0;
    while i < ids.len()
        invariant
            i <= ids@.len(),
            names == ids@.map_values(|id: ProviderId| spec_debug_name(id)),
            out@ == "["@ + seq_join(names.take(i as int), ", "@),
        decreases ids@.len() - i,
    {
        assert(names.take(i + 1).drop_last() =~= names.take(i as int));
        if i != 0 {
            out.append(", ");
        } else {
            assert(names.take(1) =~= seq![names[0]]);
        }
        out.append(ids[i].debug_name());
        proof {
            assert(names[i as int] == spec_debug_name(ids@[i as int]));
            assert(out@ =~= "["@ + seq_join(names.take(i + 1), ", "@));
        }
        i = i + 1;
    }
    assert(names.take(ids@.len() as int) =~= names);
    out.append("]");
    out
}

/// The configured providers, each with the builder that makes its client.
pub struct ProviderRegistry<B> {
    slots: Vec<Option<B>>,
}

impl<B> ProviderRegistry<B> {
    #[verifier::type_invariant]
    spec fn slots_match_catalog(self) -> bool {
        self.slots@.len() == catalog_ids().len()
    }

    /// The builder of each configured provider.
    pub closed spec fn spec_builders(&self) -> Map<ProviderId, B> {
        Map::new(
            |id: ProviderId| self.slots@[catalog_index(id)] is Some,
            |id: ProviderId| self.slots@[catalog_index(id)]->Some_0,
        )
    }

    /// The configured providers.
    pub open spec fn configured(&self) -> Set<ProviderId> {
        self.spec_builders().dom()
    }

    /// A registry with no provider configured.
    pub fn empty() -> (r: Self)
        ensures
            r.configured() == Set::<ProviderId>::empty(),
    {
        let catalog = provider_catalog();
        let mut slots: Vec<Option<B>> = Vec::new();
        let mut i: usize = 0;
        while i < catalog.len()
            invariant
                catalog@.len() == catalog_ids().len(),
                i <= catalog@.len(),
                slots@.len() == i,
                forall|k: int| 0 <= k < i ==> (#[trigger] slots@[k]) is None,
            decreases catalog@.len() - i,
        {
            slots.push(None);
            i = i + 1;
        }
        let r = Self { slots };
        assert(r.configured() =~= Set::<ProviderId>::empty());
        r
    }

    /// Configures `id` with `builder`, replacing any earlier builder.
    pub fn register(&mut self, id: ProviderId, builder: B)
        ensures
            final(self).spec_builders() == old(self).spec_builders().insert(id, builder),
    {
        proof {
            use_type_invariant(&*self);
        }
        let i = provider_index(id);
        self.slots[i] = Some(builder);
        proof {
            assert forall|other: ProviderId| other != id implies catalog_index(other) != catalog_index(id) by {
                match other {
                    ProviderId::Brave => {},
                    ProviderId::Exa => {},
                }
                match id {
                    ProviderId::Brave => {},
                    ProviderId::Exa => {},
                }
            }
            assert(self.spec_builders() =~= old(self).spec_builders().insert(id, builder));
        }
    }

    /// The registry of the providers whose API key the environment holds, given the
    /// values of `BRAVE_API_KEY` and `EXA_API_KEY`: a missing, blank or non-Unicode key
    /// leaves its provider out, and each configured provider's builder is what
    /// `make_brave` or `make_exa` makes of its configuration.
    pub fn production_from_env<FB, FE>(
        brave_key: Result<String, EnvVarError>,
        exa_key: Result<String, EnvVarError>,
        make_brave: FB,
        make_exa: FE,
    ) -> (r: Self) where FB: Fn(BraveConfig) -> B, FE: Fn(ExaConfig) -> B
        requires
            forall|c: BraveConfig| #[trigger] make_brave.requires((c,)),
            forall|c: ExaConfig| #[trigger] make_exa.requires((c,)),
        ensures
            r.configured().contains(ProviderId::Brave) <==> spec_api_key(brave_key) is Ok,
            r.configured().contains(ProviderId::Exa) <==> spec_api_key(exa_key) is Ok,
            r.configured().contains(ProviderId::Brave) ==> exists|c: BraveConfig|
                {
                    &&& c.api_key@ == spec_api_key(brave_key)->Ok_0
                    &&& c.base_url@ == brave_base_url()
                    &&& #[trigger] make_brave.ensures((c,), r.spec_builders()[ProviderId::Brave])
                },
            r.configured().contains(ProviderId::Exa) ==> exists|c: ExaConfig|
                {
                    &&& c.api_key@ == spec_api_key(exa_key)->Ok_0
                    &&& c.base_url@ == exa_base_url()
                    &&& #[trigger] make_exa.ensures((c,), r.spec_builders()[ProviderId::Exa])
                },
    {
        let mut registry = Self::empty();
        match BraveConfig::from_env(brave_key) {
            Ok(config) => {
                let ghost c = config;
                let builder = make_brave(config);
                registry.register(ProviderId::Brave, builder);
                assert(make_brave.ensures((c,), registry.spec_builders()[ProviderId::Brave]));
            },
            Err(_) => {},
        }
        let ghost after_brave = registry.spec_builders();
        match ExaConfig::from_env(exa_key) {
            Ok(config) => {
                let ghost c = config;
                let builder = make_exa(config);
                registry.register(ProviderId::Exa, builder);
                assert(registry.spec_builders()[ProviderId::Brave] == after_brave[ProviderId::Brave]);
                assert(make_exa.ensures((c,), registry.spec_builders()[ProviderId::Exa]));
            },
            Err(_) => {},
        }
        registry
    }

    /// Whether `id` is configured.
    pub fn is_registered(&self, id: ProviderId) -> (r: bool)
        ensures
            r == self.configured().contains(id),
    {
        proof {
            use_type_invariant(self);
        }
        let i = provider_index(id);
        self.slots[i].is_some()
    }

    /// The configured providers, in catalog order.
    pub fn available_providers(&self) -> (r: Vec<ProviderId>)
        ensures
            r@ == configured_in_order(catalog_ids(), self.configured()),
    {
        proof {
            use_type_invariant(self);
        }
        let catalog = provider_catalog();
        let mut out: Vec<ProviderId> = Vec::new();
        let mut i: usize = 0;
        while i < catalog.len()
            invariant
                catalog@.len() == catalog_ids().len(),
                forall|k: int| 0 <= k < catalog@.len() ==> (#[trigger] catalog@[k]).describes(
                    catalog_ids()[k],
                ),
                i <= catalog@.len(),
                out@ == configured_in_order(catalog_ids().take(i as int), self.configured()),
            decreases catalog@.len() - i,
        {
            let id = catalog[i].id();
            assert(catalog_ids().take(i + 1).drop_last() =~= catalog_ids().take(i as int));
            if self.is_registered(id) {
                out.push(id);
            }
            i = i + 1;
        }
        assert(catalog_ids().take(catalog@.len() as int) =~= catalog_ids());
        out
    }

    /// A search service over `provider`, made by its builder.
    pub fn build<P>(&self, provider: ProviderId) -> (r: Result<
        SearchService<P>,
        BuildSearchServiceError,
    >) where B: Fn() -> P
        requires
            self.configured().contains(provider) ==> self.spec_builders()[provider].requires(()),
        ensures
            r is Ok <==> self.configured().contains(provider),
            r matches Ok(service) ==> self.spec_builders()[provider].ensures(
                (),
                service.spec_provider(),
            ),
            r matches Err(e) ==> e matches BuildSearchServiceError::ProviderUnavailable {
                provider: p,
                available,
            } && p == provider && available@ == configured_in_order(
                catalog_ids(),
                self.configured(),
            ),
    {
        proof {
            use_type_invariant(self);
        }
        let i = provider_index(provider);
        match &self.slots[i] {
            Some(builder) => Ok(SearchService::new(builder())),
            None => Err(
                BuildSearchServiceError::ProviderUnavailable {
                    provider,
                    available: self.available_providers(),
                },
            ),
        }
    }

    /// A fan-out service over every configured provider, in catalog order.
    pub fn build_all_enabled<P>(&self) -> (r: Result<
        FanoutSearchService<P>,
        BuildSearchServiceError,
    >) where B: Fn() -> P
        requires
            forall|id: ProviderId| #[trigger]
                self.configured().contains(id) ==> self.spec_builders()[id].requires(()),
        ensures
            r is Err <==> configured_in_order(catalog_ids(), self.configured()).len() == 0,
            r matches Err(e) ==> e is NoProvidersAvailable,
            r matches Ok(service) ==> {
                let ids = configured_in_order(catalog_ids(), self.configured());
                &&& service.spec_providers().len() == ids.len()
                &&& forall|k: int|
                    0 <= k < ids.len() ==> self.spec_builders()[ids[k]].ensures(
                        (),
                        #[trigger] service.spec_providers()[k],
                    )
            },
    {
        let ids = self.available_providers();
        if ids.len() == 0 {
            return Err(BuildSearchServiceError::NoProvidersAvailable);
        }
        proof {
            use_type_invariant(self);
            lemma_configured_in_order_members(catalog_ids(), self.configured());
        }
        let mut providers: Vec<P> = Vec::new();
        let mut k: usize = 0;
        while k < ids.len()
            invariant
                ids@ == configured_in_order(catalog_ids(), self.configured()),
                forall|j: int| 0 <= j < ids@.len() ==> self.configured().contains(#[trigger] ids@[j]),
                forall|id: ProviderId| #[trigger]
                    self.configured().contains(id) ==> self.spec_builders()[id].requires(()),
                self.slots@.len() == catalog_ids().len(),
                k <= ids@.len(),
                providers@.len() == k,
                forall|j: int|
                    0 <= j < k ==> self.spec_builders()[ids@[j]].ensures(
                        (),
                        #[trigger] providers@[j],
                    ),
            decreases ids@.len() - k,
        {
            let id = ids[k];
            let i = provider_index(id);
            match &self.slots[i] {
                Some(builder) => {
                    providers.push(builder());
                },
                None => {
                    assert(false);
                },
            }
            k = k + 1;
        }
        Ok(FanoutSearchService::new(providers))
    }
}

/// Every provider that `configured_in_order` lists is configured and in `ids`.
pub proof fn lemma_configured_in_order_members(ids: Seq<ProviderId>, configured: Set<ProviderId>)
    ensures
        forall|j: int|
            0 <= j < configured_in_order(ids, configured).len() ==> configured.contains(
                #[trigger] configured_in_order(ids, configured)[j],
            ) && ids.contains(configured_in_order(ids, configured)[j]),
    decreases ids.len(),
{
    if ids.len() > 0 {
        lemma_configured_in_order_members(ids.drop_last(), configured);
        let prev = configured_in_order(ids.drop_last(), configured);
        assert forall|j: int|
            0 <= j < configured_in_order(ids, configured).len() implies configured.contains(
            #[trigger] configured_in_order(ids, configured)[j],
        ) && ids.contains(configured_in_order(ids, configured)[j]) by {
            if j < prev.len() {
                let x = prev[j];
                assert(ids.drop_last().contains(x));
                let w = choose|w: int| 0 <= w < ids.drop_last().len() && ids.drop_last()[w] == x;
                assert(ids[w] == x);
            } else {
                assert(ids[ids.len() - 1] == ids.last());
            }
        }
    }
}

} // verus!

verus! {

/// The available providers are the configured ones, each listed once, in
/// catalog order: whatever order they were registered in.
pub proof fn lemma_available_is_configured_in_catalog_order(configured: Set<ProviderId>)
    ensures
        configured_in_order(catalog_ids(), configured) == catalog_ids().filter(
            |id: ProviderId| configured.contains(id),
        ),
        configured_in_order(catalog_ids(), configured).no_duplicates(),
        forall|id: ProviderId|
            configured_in_order(catalog_ids(), configured).contains(id) <==> configured.contains(
                id,
            ),
{
    reveal_with_fuel(Seq::filter, 3);
    let ids = catalog_ids();
    let e = Seq::<ProviderId>::empty();
    let brave = ProviderId::Brave;
    let exa = ProviderId::Exa;
    assert(ids.drop_last() =~= seq![brave]);
    assert(ids.drop_last().drop_last() =~= e);
    let r0 = configured_in_order(ids.drop_last().drop_last(), configured);
    let r1 = configured_in_order(ids.drop_last(), configured);
    let r = configured_in_order(ids, configured);
    assert(r0 == e);
    assert(r1 == if configured.contains(brave) {
        e.push(brave)
    } else {
        e
    });
    assert(r == if configured.contains(exa) {
        r1.push(exa)
    } else {
        r1
    });
    let f = ids.filter(|id: ProviderId| configured.contains(id));
    if configured.contains(brave) {
        if configured.contains(exa) {
            assert(r =~= seq![brave, exa]);
        } else {
            assert(r =~= seq![brave]);
        }
    } else {
        if configured.contains(exa) {
            assert(r =~= seq![exa]);
        } else {
            assert(r =~= e);
        }
    }
    assert(r =~= f);
    assert forall|id: ProviderId| r.contains(id) <==> configured.contains(id) by {
        if configured.contains(id) {
            match id {
                ProviderId::Brave => assert(r[0] == brave),
                ProviderId::Exa => assert(r[r.len() - 1] == exa),
            }
        }
    }
}

/// Registering two providers gives the same available providers in either order.
pub proof fn lemma_registration_order_does_not_change_availability<B>(
    builders: Map<ProviderId, B>,
    a: ProviderId,
    builder_a: B,
    b: ProviderId,
    builder_b: B,
)
    ensures
        configured_in_order(
            catalog_ids(),
            builders.insert(a, builder_a).insert(b, builder_b).dom(),
        ) == configured_in_order(
            catalog_ids(),
            builders.insert(b, builder_b).insert(a, builder_a).dom(),
        ),
{
    assert(builders.insert(a, builder_a).insert(b, builder_b).dom() =~= builders.insert(
        b,
        builder_b,
    ).insert(a, builder_a).dom());
}

} // verus!
