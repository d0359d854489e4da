//! The guest's exports and their resolution by the host.
//!
//! A guest module offers a set of named, typed entry points. There is no
//! overloading: each export name appears once, and a caller must name the
//! export and state the exact signature it expects. Resolution fails with
//! `NotFound` when no export carries the name, and with `SignatureMismatch`
//! when the export exists but its parameter or result arity or types
//! differ from the caller's expectation.
use vstd::prelude::*;

use crate::errors::BoundaryError;
use crate::values::{signature_eq, Signature};

verus! {

/// A named, typed entry point the guest offers to the host.
pub struct Export {
    pub name: String,
    pub sig: Signature,
}

/// The exports of one guest instance, each name declared once.
pub struct ExportTable {
    exports: Vec<Export>,
}

impl View for ExportTable {
    type V = Seq<Export>;

    closed spec fn view(&self) -> Seq<Export> {
        self.exports@
    }
}

impl ExportTable {
    /// Each export name appears at most once: the boundary has no
    /// overloading.
    #[verifier::type_invariant]
    spec fn names_unique(self) -> bool {
        forall|j: int, k: int|
            0 <= j < k < self@.len() ==> self@[j].name@ != self@[k].name@
    }

    /// Some export carries this name.
    pub open spec fn has_export(self, name: Seq<char>) -> bool {
        exists|j: int| 0 <= j < self@.len() && self@[j].name@ == name
    }

    /// Some export carries this name with exactly this signature.
    pub open spec fn has_matching_export(self, name: Seq<char>, sig: Signature) -> bool {
        exists|j: int|
            0 <= j < self@.len() && self@[j].name@ == name && signature_eq(self@[j].sig, sig)
    }

    /// An empty export table.
    pub fn new() -> (t: ExportTable)
        ensures
            t@ == Seq::<Export>::empty(),
    {
        ExportTable { exports: Vec::new() }
    }

    /// Whether some export carries this name.
    pub fn contains(&self, name: &String) -> (r: bool)
        ensures
            r == self.has_export(name@),
    {
        let n = self.exports.len();
        let mut j: usize = 0;
        while j < n
            invariant
                j <= n,
                n == self@.len(),
                forall|k: int| 0 <= k < j ==> self@[k].name@ != name@,
            decreases n - j,
        {
            if self.exports[j].name == *name {
                return true;
            }
            j = j + 1;
        }
        false
    }

    /// Declares an export. The declaration is refused, and the table left
    /// unchanged, when the name is already taken.
    pub fn declare(&mut self, name: String, sig: Signature) -> (added: bool)
        ensures
            added <==> !old(self).has_export(name@),
            added ==> final(self)@ == old(self)@.push(Export { name, sig }),
            !added ==> *final(self) == *old(self),
    {
        if self.contains(&name) {
            return false;
        }
        proof {
            use_type_invariant(&*self);
        }
        let ghost orig = self@;
        let mut exports: Vec<Export> = Vec::new();
        core::mem::swap(&mut exports, &mut self.exports);
        exports.push(Export { name, sig });
        proof {
            assert forall|j: int, k: int|
                0 <= j < k < exports@.len() implies exports@[j].name@ != exports@[k].name@ by {
                assert(exports@[j] == orig[j]);
                if k < orig.len() {
                    assert(exports@[k] == orig[k]);
                } else {
                    if orig[j].name@ == name@ {
                        assert(old(self).has_export(name@));
                    }
                }
            };
        }
        core::mem::swap(&mut exports, &mut self.exports);
        true
    }

    /// How many exports the guest offers.
    pub fn len(&self) -> (n: usize)
        ensures
            n == self@.len(),
    {
        self.exports.len()
    }

    /// Resolves an export by name against the signature the caller
    /// expects, yielding its index in the table. Fails with `NotFound`
    /// exactly when no export carries the name, and with
    /// `SignatureMismatch` exactly when the named export's signature
    /// differs from the expectation.
    pub fn resolve(&self, name: &String, expected: &Signature) -> (r: Result<
        usize,
        BoundaryError,
    >)
        ensures
            r is Ok <==> self.has_matching_export(name@, *expected),
            r matches Ok(j)
                ==> 0 <= j < self@.len() && self@[j as int].name@ == name@ && signature_eq(
                self@[j as int].sig,
                *expected,
            ),
            (r == Err::<usize, BoundaryError>(
                BoundaryError::NotFound { name: *name },
            )) <==> !self.has_export(name@),
            (r == Err::<usize, BoundaryError>(
                BoundaryError::SignatureMismatch { name: *name },
            )) <==> (self.has_export(name@) && !self.has_matching_export(name@, *expected)),
    {
        proof {
            use_type_invariant(self);
        }
        let n = self.exports.len();
        let mut j: usize = 0;
        while j < n
            invariant
                j <= n,
                n == self@.len(),
                forall|k: int| 0 <= k < j ==> self@[k].name@ != name@,
            decreases n - j,
        {
            if self.exports[j].name == *name {
                proof {
                    use_type_invariant(self);
                    assert forall|k: int|
                        0 <= k < self@.len() && self@[k].name@ == name@ implies k == j as int by {
                        if k < j {
                            assert(self@[k].name@ != self@[j as int].name@);
                        }
                        if j < k {
                            assert(self@[j as int].name@ != self@[k].name@);
                        }
                    };
                }
                if self.exports[j].sig.matches(expected) {
                    proof {
                        assert(self.has_matching_export(name@, *expected));
                    }
                    return Ok(j);
                }
                proof {
                    assert(self.has_export(name@));
                    assert(!self.has_matching_export(name@, *expected));
                }
                return Err(BoundaryError::SignatureMismatch { name: name.clone() });
            }
            j = j + 1;
        }
        Err(BoundaryError::NotFound { name: name.clone() })
    }
}

} // verus!
