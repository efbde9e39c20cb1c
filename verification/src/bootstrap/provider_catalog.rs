//! Provider identity: tokens, display names, environment variable names and
//! stable ordering. Production wiring of each entry to its HTTP client lives
//! in the application around the library.
use vstd::prelude::*;

use crate::text::{cat3, seq_join, str_eq};

verus! {

/// A real search provider.
#[derive(Debug, Clone, Copy, PartialEq, Eq, Hash, Structural)]
pub enum ProviderId {
    Brave,
    Exa,
}

/// The providers in catalog order.
pub open spec fn catalog_ids() -> Seq<ProviderId> {
    seq![ProviderId::Brave, ProviderId::Exa]
}

/// The command-line token of a provider.
pub open spec fn spec_cli_token(id: ProviderId) -> Seq<char> {
    match id {
        ProviderId::Brave => "brave"@,
        ProviderId::Exa => "exa"@,
    }
}

/// The human-readable name of a provider.
pub open spec fn spec_display_name(id: ProviderId) -> Seq<char> {
    match id {
        ProviderId::Brave => "Brave Search"@,
        ProviderId::Exa => "Exa"@,
    }
}

/// The environment variable that holds a provider's API key.
pub open spec fn spec_env_var_name(id: ProviderId) -> Seq<char> {
    match id {
        ProviderId::Brave => "BRAVE_API_KEY"@,
        ProviderId::Exa => "EXA_API_KEY"@,
    }
}

/// The position of a provider in the catalog.
pub open spec fn catalog_index(id: ProviderId) -> int {
    match id {
        ProviderId::Brave => 0,
        ProviderId::Exa => 1,
    }
}

/// The name `Debug` prints for a provider (its variant name).
pub open spec fn spec_debug_name(id: ProviderId) -> Seq<char> {
    match id {
        ProviderId::Brave => "Brave"@,
        ProviderId::Exa => "Exa"@,
    }
}

/// The first provider of `ids` whose token is `token`.
pub open spec fn first_with_token(ids: Seq<ProviderId>, token: Seq<char>) -> Option<ProviderId>
    decreases ids.len(),
{
    if ids.len() == 0 {
        None
    } else if spec_cli_token(ids[0]) == token {
        Some(ids[0])
    } else {
        first_with_token(ids.drop_first(), token)
    }
}

/// The hint naming the environment variables that enable providers.
pub open spec fn env_var_hint(vars: Seq<Seq<char>>) -> Seq<char> {
    if vars.len() == 0 {
        "a provider API key"@
    } else if vars.len() == 1 {
        vars[0]
    } else if vars.len() == 2 {
        vars[0] + " and/or "@ + vars[1]
    } else {
        seq_join(vars.drop_last(), ", "@) + ", and/or "@ + vars.last()
    }
}

/// One row of the provider catalog.
#[derive(Clone, Copy)]
pub struct ProviderCatalogEntry {
    id: ProviderId,
    cli_token: &'static str,
    display_name: &'static str,
    env_var_name: &'static str,
}

impl ProviderCatalogEntry {
    /// The entry agrees with the catalog on every column.
    pub open spec fn describes(self, id: ProviderId) -> bool {
        &&& self.spec_id() == id
        &&& self.spec_cli_token() == spec_cli_token(id)
        &&& self.spec_display_name() == spec_display_name(id)
        &&& self.spec_env_var_name() == spec_env_var_name(id)
    }

    pub closed spec fn spec_id(self) -> ProviderId {
        self.id
    }

    pub closed spec fn spec_cli_token(self) -> Seq<char> {
        self.cli_token@
    }

    pub closed spec fn spec_display_name(self) -> Seq<char> {
        self.display_name@
    }

    pub closed spec fn spec_env_var_name(self) -> Seq<char> {
        self.env_var_name@
    }

    pub fn id(self) -> (r: ProviderId)
        ensures
            r == self.spec_id(),
    {
        self.id
    }

    pub fn cli_token(self) -> (r: &'static str)
        ensures
            r@ == self.spec_cli_token(),
    {
        self.cli_token
    }

    pub fn display_name(self) -> (r: &'static str)
        ensures
            r@ == self.spec_display_name(),
    {
        self.display_name
    }

    pub fn env_var_name(self) -> (r: &'static str)
        ensures
            r@ == self.spec_env_var_name(),
    {
        self.env_var_name
    }
}

/// The provider catalog, in its stable order.
pub fn provider_catalog() -> (r: Vec<ProviderCatalogEntry>)
    ensures
        r@.len() == catalog_ids().len(),
        forall|i: int| 0 <= i < r@.len() ==> (#[trigger] r@[i]).describes(catalog_ids()[i]),
{
    let brave = ProviderCatalogEntry {
        id: ProviderId::Brave,
        cli_token: "brave",
        display_name: "Brave Search",
        env_var_name: "BRAVE_API_KEY",
    };
    let exa = ProviderCatalogEntry {
        id: ProviderId::Exa,
        cli_token: "exa",
        display_name: "Exa",
        env_var_name: "EXA_API_KEY",
    };
    let mut v = Vec::new();
    v.push(brave);
    v.push(exa);
    v
}

/// The position of a provider in the catalog.
pub fn provider_index(id: ProviderId) -> (r: usize)
    ensures
        r == catalog_index(id),
        r < catalog_ids().len(),
        catalog_ids()[r as int] == id,
{
    let catalog = provider_catalog();
    let mut i: usize = 0;
    while i < catalog.len()
        invariant
            catalog@.len() == catalog_ids().len(),
            forall|k: int| 0 <= k < catalog@.len() ==> (#[trigger] catalog@[k]).describes(
                catalog_ids()[k],
            ),
            forall|k: int| 0 <= k < i ==> catalog_ids()[k] != id,
            i <= catalog@.len(),
        decreases catalog@.len() - i,
    {
        if catalog[i].id() == id {
            return i;
        }
        i = i + 1;
    }
    assert(catalog_ids()[catalog_index(id)] == id);
    0
}

/// The catalog entry of a provider.
fn provider_entry(id: ProviderId) -> (r: ProviderCatalogEntry)
    ensures
        r.describes(id),
{
    let catalog = provider_catalog();
    let i = provider_index(id);
    catalog[i]
}

impl ProviderId {
    /// The command-line token of the provider.
    pub fn cli_token(self) -> (r: &'static str)
        ensures
            r@ == spec_cli_token(self),
    {
        provider_entry(self).cli_token()
    }

    /// The human-readable name of the provider.
    pub fn display_name(self) -> (r: &'static str)
        ensures
            r@ == spec_display_name(self),
    {
        provider_entry(self).display_name()
    }

    /// The environment variable that holds the provider's API key.
    pub fn env_var_name(self) -> (r: &'static str)
        ensures
            r@ == spec_env_var_name(self),
    {
        provider_entry(self).env_var_name()
    }

    /// What `{:?}` prints for the provider.
    pub fn debug_name(self) -> (r: &'static str)
        ensures
            r@ == spec_debug_name(self),
    {
        match self {
            ProviderId::Brave => "Brave",
            ProviderId::Exa => "Exa",
        }
    }

    /// What `{}` prints for the provider: its command-line token.
    #[allow(clippy::inherent_to_string)]
    pub fn to_string(self) -> (r: String)
        ensures
            r@ == spec_cli_token(self),
    {
        String::from_str(self.cli_token())
    }
}

/// The provider used when none is chosen: the first of the catalog.
pub fn default_provider_id() -> (r: ProviderId)
    ensures
        r == catalog_ids()[0],
{
    let catalog = provider_catalog();
    catalog[0].id()
}

/// The provider whose command-line token is `token`, if any.
pub fn find_provider_by_cli_token(token: &str) -> (r: Option<ProviderId>)
    ensures
        r == first_with_token(catalog_ids(), token@),
{
    let catalog = provider_catalog();
    let mut i: usize = 0;
    assert(catalog_ids().skip(0) =~= catalog_ids());
    while i < catalog.len()
        invariant
            catalog@.len() == catalog_ids().len(),
            forall|k: int| 0 <= k < catalog@.len() ==> (#[trigger] catalog@[k]).describes(
                catalog_ids()[k],
            ),
            i <= catalog@.len(),
            first_with_token(catalog_ids(), token@) == first_with_token(
                catalog_ids().skip(i as int),
                token@,
            ),
        decreases catalog@.len() - i,
    {
        assert(catalog_ids().skip(i as int)[0] == catalog_ids()[i as int]);
        assert(catalog_ids().skip(i as int).drop_first() =~= catalog_ids().skip(i + 1));
        if str_eq(catalog[i].cli_token(), token) {
            return Some(catalog[i].id());
        }
        i = i + 1;
    }
    None
}

/// The command-line tokens of all providers, in catalog order.
pub fn provider_cli_tokens() -> (r: Vec<&'static str>)
    ensures
        r@.len() == catalog_ids().len(),
        forall|i: int| 0 <= i < r@.len() ==> (#[trigger] r@[i])@ == spec_cli_token(catalog_ids()[i]),
{
    let catalog = provider_catalog();
    let mut out: Vec<&'static str> = Vec::new();
    let mut i: usize = 0;
    while i < catalog.len()
        invariant
            catalog@.len() == catalog_ids().len(),
            forall|k: int| 0 <= k < catalog@.len() ==> (#[trigger] catalog@[k]).describes(
                catalog_ids()[k],
            ),
            i <= catalog@.len(),
            out@.len() == i,
            forall|k: int| 0 <= k < i ==> (#[trigger] out@[k])@ == spec_cli_token(catalog_ids()[k]),
        decreases catalog@.len() - i,
    {
        out.push(catalog[i].cli_token());
        i = i + 1;
    }
    out
}

/// The display names of all providers, in catalog order.
pub fn provider_display_names() -> (r: Vec<&'static str>)
    ensures
        r@.len() == catalog_ids().len(),
        forall|i: int| 0 <= i < r@.len() ==> (#[trigger] r@[i])@ == spec_display_name(
            catalog_ids()[i],
        ),
{
    let catalog = provider_catalog();
    let mut out: Vec<&'static str> = Vec::new();
    let mut i: usize = 0;
    while i < catalog.len()
        invariant
            catalog@.len() == catalog_ids().len(),
            forall|k: int| 0 <= k < catalog@.len() ==> (#[trigger] catalog@[k]).describes(
                catalog_ids()[k],
            ),
            i <= catalog@.len(),
            out@.len() == i,
            forall|k: int| 0 <= k < i ==> (#[trigger] out@[k])@ == spec_display_name(
                catalog_ids()[k],
            ),
        decreases catalog@.len() - i,
    {
        out.push(catalog[i].display_name());
        i = i + 1;
    }
    out
}

/// The environment variable names of all providers, in catalog order.
pub open spec fn catalog_env_vars() -> Seq<Seq<char>> {
    catalog_ids().map_values(|id: ProviderId| spec_env_var_name(id))
}

/// The strings of `parts[..n]` joined by `sep`.
fn join_strs(parts: &Vec<&'static str>, n: usize, sep: &str) -> (r: String)
    requires
        n <= parts@.len(),
    ensures
        r@ == seq_join(parts@.take(n as int).map_values(|s: &'static str| s@), sep@),
{
    let ghost all = parts@.map_values(|s: &'static str| s@);
    let mut out = String::new();
    let mut i: usize = 0;
    while i < n
        invariant
            n <= parts@.len(),
            i <= n,
            all == parts@.map_values(|s: &'static str| s@),
            out@ == seq_join(all.take(i as int), sep@),
        decreases n - i,
    {
        assert(all.take(i + 1).drop_last() =~= all.take(i as int));
        if i != 0 {
            out.append(sep);
        } else {
            assert(all.take(1) =~= seq![all[0]]);
        }
        out.append(parts[i]);
        i = i + 1;
    }
    assert(parts@.take(n as int).map_values(|s: &'static str| s@) =~= all.take(n as int));
    out
}

/// The hint naming the environment variables that enable providers, such as
/// `BRAVE_API_KEY and/or EXA_API_KEY`.
pub fn provider_env_var_hint() -> (r: String)
    ensures
        r@ == env_var_hint(catalog_env_vars()),
{
    let catalog = provider_catalog();
    let mut vars: Vec<&'static str> = Vec::new();
    let mut i: usize = 0;
    while i < catalog.len()
        invariant
            catalog@.len() == catalog_ids().len(),
            forall|k: int| 0 <= k < catalog@.len() ==> (#[trigger] catalog@[k]).describes(
                catalog_ids()[k],
            ),
            i <= catalog@.len(),
            vars@.len() == i,
            forall|k: int| 0 <= k < i ==> (#[trigger] vars@[k])@ == spec_env_var_name(
                catalog_ids()[k],
            ),
        decreases catalog@.len() - i,
    {
        vars.push(catalog[i].env_var_name());
        i = i + 1;
    }
    let ghost names = vars@.map_values(|s: &'static str| s@);
    assert(names =~= catalog_env_vars());
    let n = vars.len();
    if n == 0 {
        String::from_str("a provider API key")
    } else if n == 1 {
        String::from_str(vars[0])
    } else if n == 2 {
        cat3(vars[0], " and/or ", vars[1])
    } else {
        let mut head = join_strs(&vars, n - 1, ", ");
        assert(vars@.take(n - 1).map_values(|s: &'static str| s@) =~= names.drop_last());
        head.append(", and/or ");
        head.append(vars[n - 1]);
        head
    }
}

/// Every provider's token leads back to it.
pub proof fn lemma_cli_token_round_trip(id: ProviderId)
    ensures
        first_with_token(catalog_ids(), spec_cli_token(id)) == Some(id),
{
    reveal_strlit("brave");
    reveal_strlit("exa");
    let ids = catalog_ids();
    assert(ids.drop_first() =~= seq![ProviderId::Exa]);
    assert(ids.drop_first().drop_first() =~= Seq::<ProviderId>::empty());
    assert("brave"@.len() == 5);
    assert("exa"@.len() == 3);
    assert(spec_cli_token(ProviderId::Brave) != spec_cli_token(ProviderId::Exa));
    match id {
        ProviderId::Brave => {},
        ProviderId::Exa => {
            assert(first_with_token(ids, spec_cli_token(id)) == first_with_token(
                ids.drop_first(),
                spec_cli_token(id),
            ));
        },
    }
}

} // verus!
