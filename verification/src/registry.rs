//! The registry of image providers that the commands dispatch to.

use vstd::prelude::*;
use crate::grsai::{default_base_url, listed_models, supports, views, GrsaiProvider};
use crate::text::{concat2, str_eq};

verus! {

/// The registered providers, in registration order.
pub struct ProviderRegistry {
    pub providers: Vec<GrsaiProvider>,
}

/// Every registered provider's models, provider by provider.
pub open spec fn all_listed_models(count: nat) -> Seq<Seq<char>>
    decreases count,
{
    if count == 0 {
        seq![]
    } else {
        all_listed_models((count - 1) as nat) + listed_models()
    }
}

impl ProviderRegistry {
    /// A registry without providers.
    pub fn new() -> (r: Self)
        ensures
            r.providers@.len() == 0,
    {
        ProviderRegistry { providers: Vec::new() }
    }

    /// Adds a provider after those already registered.
    pub fn register_provider(&mut self, provider: GrsaiProvider)
        ensures
            final(self).providers@ == old(self).providers@.push(provider),
    {
        self.providers.push(provider);
    }

    /// The first provider registered under `name`.
    pub fn get_provider(&self, name: &str) -> (r: Option<usize>)
        ensures
            r == (if name@ == "grsai"@ && self.providers@.len() > 0 {
                Some(0usize)
            } else {
                None
            }),
    {
        if self.providers.len() > 0 && str_eq(self.providers[0].name(), name) {
            Some(0)
        } else {
            None
        }
    }

    /// The first provider that takes requests for `model`.
    pub fn resolve_provider_for_model(&self, model: &str) -> (r: Option<usize>)
        ensures
            r == (if supports(model@) && self.providers@.len() > 0 {
                Some(0usize)
            } else {
                None
            }),
    {
        if self.providers.len() > 0 && self.providers[0].supports_model(model) {
            Some(0)
        } else {
            None
        }
    }

    /// The provider used when no provider takes a model: the first registered.
    pub fn get_default_provider(&self) -> (r: Option<usize>)
        ensures
            r == (if self.providers@.len() > 0 {
                Some(0usize)
            } else {
                None
            }),
    {
        if self.providers.len() > 0 {
            Some(0)
        } else {
            None
        }
    }

    /// The provider for a request's model, falling back to the default provider;
    /// "Provider not found" where there is none.
    pub fn provider_for_model(&self, model: &str) -> (r: Result<usize, String>)
        ensures
            self.providers@.len() > 0 ==> r == Ok::<usize, String>(0usize),
            self.providers@.len() == 0 ==> (r matches Err(m) && m@ == "Provider not found"@),
    {
        match self.resolve_provider_for_model(model) {
            Some(i) => Ok(i),
            None => match self.get_default_provider() {
                Some(i) => Ok(i),
                None => Err(crate::text::owned("Provider not found")),
            },
        }
    }

    /// The provider registered under `name`, or "Unknown provider: <name>".
    pub fn named_provider(&self, name: &str) -> (r: Result<usize, String>)
        ensures
            name@ == "grsai"@ && self.providers@.len() > 0 ==> r == Ok::<usize, String>(0usize),
            !(name@ == "grsai"@ && self.providers@.len() > 0) ==> (r matches Err(m) && m@
                == "Unknown provider: "@ + name@),
    {
        match self.get_provider(name) {
            Some(i) => Ok(i),
            None => Err(concat2("Unknown provider: ", name)),
        }
    }

    /// Every registered provider's models, in registration order.
    pub fn list_models(&self) -> (r: Vec<String>)
        ensures
            views(r@) == all_listed_models(self.providers@.len()),
    {
        let mut out: Vec<String> = Vec::new();
        let mut i: usize = 0;
        while i < self.providers.len()
            invariant
                i <= self.providers@.len(),
                views(out@) == all_listed_models(i as nat),
            decreases self.providers@.len() - i,
        {
            let mut models = self.providers[i].list_models();
            let ghost before = out@;
            let ghost added = models@;
            out.append(&mut models);
            assert(views(out@) =~= views(before) + views(added));
            i = i + 1;
        }
        out
    }
}

/// The providers a fresh registry starts with.
pub fn build_default_providers() -> (r: Vec<GrsaiProvider>)
    ensures
        r@.len() == 1,
        r@[0].api_key is None,
        r@[0].base_url@ == default_base_url(),
{
    let mut r: Vec<GrsaiProvider> = Vec::new();
    r.push(GrsaiProvider::new());
    r
}

/// A registry holding the default providers.
pub fn get_registry() -> (r: ProviderRegistry)
    ensures
        r.providers@.len() == 1,
        r.providers@[0].api_key is None,
        r.providers@[0].base_url@ == default_base_url(),
{
    let mut registry = ProviderRegistry::new();
    let providers = build_default_providers();
    let mut rest = providers;
    while rest.len() > 0
        invariant
            registry.providers@.len() + rest@.len() == 1,
            rest@.len() == 1 ==> rest@[0].api_key is None && rest@[0].base_url@ == default_base_url(),
            registry.providers@.len() == 1 ==> registry.providers@[0].api_key is None
                && registry.providers@[0].base_url@ == default_base_url(),
        decreases rest@.len(),
    {
        let p = rest.remove(0);
        registry.register_provider(p);
    }
    registry
}

} // verus!
