//! The imports a guest requires and the providers the host registers.
//!
//! A guest module declares the functions it needs from the host as
//! namespace + name + signature triples. Before instantiation the host
//! registers one provider per triple; instantiation must fail with
//! `MissingImport` when any required triple has no registered provider
//! that matches it exactly.
use vstd::prelude::*;

use crate::errors::BoundaryError;
use crate::values::{signature_eq, Signature};

verus! {

/// A function at the import boundary: the namespace and name the guest
/// uses for it, and its fixed scalar signature.
pub struct ImportFunc {
    pub namespace: String,
    pub name: String,
    pub sig: Signature,
}

/// A provider satisfies a required import when namespace, name and
/// signature all agree.
pub open spec fn import_matches(provider: ImportFunc, required: ImportFunc) -> bool {
    provider.namespace@ == required.namespace@ && provider.name@ == required.name@
        && signature_eq(provider.sig, required.sig)
}

/// The host functions registered for one instantiation, at most one per
/// namespace + name pair.
pub struct ImportTable {
    providers: Vec<ImportFunc>,
}

impl View for ImportTable {
    type V = Seq<ImportFunc>;

    closed spec fn view(&self) -> Seq<ImportFunc> {
        self.providers@
    }
}

impl ImportTable {
    /// Each namespace + name pair has at most one provider.
    #[verifier::type_invariant]
    spec fn providers_unique(self) -> bool {
        forall|j: int, k: int|
            0 <= j < k < self@.len()
                ==> !(self@[j].namespace@ == self@[k].namespace@ && self@[j].name@
                == self@[k].name@)
    }

    /// Some provider is registered under this namespace and name.
    pub open spec fn has_provider(self, namespace: Seq<char>, name: Seq<char>) -> bool {
        exists|j: int|
            0 <= j < self@.len() && self@[j].namespace@ == namespace && self@[j].name@ == name
    }

    /// Some registered provider satisfies this required import exactly.
    pub open spec fn provides(self, required: ImportFunc) -> bool {
        exists|j: int| 0 <= j < self@.len() && import_matches(self@[j], required)
    }

    /// An empty import table.
    pub fn new() -> (t: ImportTable)
        ensures
            t@ == Seq::<ImportFunc>::empty(),
    {
        ImportTable { providers: Vec::new() }
    }

    /// Whether a provider is registered under this namespace and name.
    pub fn contains(&self, namespace: &String, name: &String) -> (r: bool)
        ensures
            r == self.has_provider(namespace@, name@),
    {
        let n = self.providers.len();
        let mut j: usize = 0;
        while j < n
            invariant
                j <= n,
                n == self@.len(),
                forall|k: int|
                    0 <= k < j
                        ==> !(self@[k].namespace@ == namespace@ && self@[k].name@ == name@),
            decreases n - j,
        {
            if self.providers[j].namespace == *namespace && self.providers[j].name == *name {
                return true;
            }
            j = j + 1;
        }
        false
    }

    /// Registers a provider. The registration is refused, and the table
    /// left unchanged, when its namespace + name pair already has one:
    /// each required import must have exactly one provider.
    pub fn register(&mut self, provider: ImportFunc) -> (added: bool)
        ensures
            added <==> !old(self).has_provider(provider.namespace@, provider.name@),
            added ==> final(self)@ == old(self)@.push(provider),
            !added ==> *final(self) == *old(self),
    {
        if self.contains(&provider.namespace, &provider.name) {
            return false;
        }
        proof {
            use_type_invariant(&*self);
        }
        let ghost orig = self@;
        let mut providers: Vec<ImportFunc> = Vec::new();
        core::mem::swap(&mut providers, &mut self.providers);
        providers.push(provider);
        proof {
            assert forall|j: int, k: int|
                0 <= j < k < providers@.len() implies !(providers@[j].namespace@
                == providers@[k].namespace@ && providers@[j].name@ == providers@[k].name@) by {
                assert(providers@[j] == orig[j]);
                if k < orig.len() {
                    assert(providers@[k] == orig[k]);
                } else {
                    if orig[j].namespace@ == provider.namespace@ && orig[j].name@
                        == provider.name@ {
                        assert(old(self).has_provider(provider.namespace@, provider.name@));
                    }
                }
            };
        }
        core::mem::swap(&mut providers, &mut self.providers);
        true
    }

    /// Whether some registered provider satisfies this required import
    /// exactly.
    pub fn satisfies(&self, required: &ImportFunc) -> (r: bool)
        ensures
            r == self.provides(*required),
    {
        let n = self.providers.len();
        let mut j: usize = 0;
        while j < n
            invariant
                j <= n,
                n == self@.len(),
                forall|k: int| 0 <= k < j ==> !import_matches(self@[k], *required),
            decreases n - j,
        {
            if self.providers[j].namespace == required.namespace
                && self.providers[j].name == required.name
                && self.providers[j].sig.matches(&required.sig) {
                return true;
            }
            j = j + 1;
        }
        false
    }

    /// The instantiation-time check: every import the guest requires must
    /// have a registered provider that matches it exactly, else
    /// instantiation fails with `MissingImport` naming an unsatisfied
    /// requirement.
    pub fn check_instantiation(&self, required: &Vec<ImportFunc>) -> (r: Result<
        (),
        BoundaryError,
    >)
        ensures
            r is Ok <==> (forall|k: int|
                0 <= k < required@.len() ==> self.provides(required@[k])),
            r matches Err(e) ==> (e matches BoundaryError::MissingImport {
                namespace,
                name,
            } && exists|k: int|
                0 <= k < required@.len() && !self.provides(required@[k]) && namespace@
                    == required@[k].namespace@ && name@ == required@[k].name@),
    {
        let n = required.len();
        let mut k: usize = 0;
        while k < n
            invariant
                k <= n,
                n == required@.len(),
                forall|m: int| 0 <= m < k ==> self.provides(required@[m]),
            decreases n - k,
        {
            if !self.satisfies(&required[k]) {
                return Err(BoundaryError::MissingImport {
                    namespace: required[k].namespace.clone(),
                    name: required[k].name.clone(),
                });
            }
            k = k + 1;
        }
        Ok(())
    }
}

} // verus!
