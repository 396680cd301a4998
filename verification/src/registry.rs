//! The backends that take part in a run.
//!
//! A backend that is not registered is left out of the run: that is no
//! error, and nothing is reported for it.

use vstd::prelude::*;
use crate::codec::Backend;

verus! {

/// The set of available backends.
#[derive(Clone, Copy, Debug, PartialEq, Eq, Structural)]
pub struct Registry {
    pub bitcode: bool,
    pub bitcode_rkyv: bool,
}

impl Registry {
    /// Whether `backend` is registered.
    pub open spec fn has(self, backend: Backend) -> bool {
        match backend {
            Backend::Bitcode => self.bitcode,
            Backend::BitcodeRkyv => self.bitcode_rkyv,
        }
    }

    /// The registered backends in the order in which a run takes them.
    pub open spec fn listing(self) -> Seq<Backend> {
        let first = if self.bitcode {
            seq![Backend::Bitcode]
        } else {
            Seq::<Backend>::empty()
        };
        if self.bitcode_rkyv {
            first.push(Backend::BitcodeRkyv)
        } else {
            first
        }
    }

    /// A registry without backends.
    pub fn new() -> (registry: Registry)
        ensures
            registry == (Registry { bitcode: false, bitcode_rkyv: false }),
            forall|backend: Backend| !registry.has(backend),
    {
        Registry { bitcode: false, bitcode_rkyv: false }
    }

    /// Registers `backend`; the others stay as they are.
    pub fn register(&mut self, backend: Backend)
        ensures
            final(self).bitcode == (backend == Backend::Bitcode || old(self).bitcode),
            final(self).bitcode_rkyv == (backend == Backend::BitcodeRkyv || old(
                self,
            ).bitcode_rkyv),
            forall|other: Backend|
                final(self).has(other) == (other == backend || old(self).has(other)),
    {
        match backend {
            Backend::Bitcode => {
                self.bitcode = true;
            },
            Backend::BitcodeRkyv => {
                self.bitcode_rkyv = true;
            },
        }
    }

    /// Whether `backend` is registered.
    pub fn is_registered(&self, backend: Backend) -> (registered: bool)
        ensures
            registered == self.has(backend),
    {
        match backend {
            Backend::Bitcode => self.bitcode,
            Backend::BitcodeRkyv => self.bitcode_rkyv,
        }
    }

    /// The registered backends in the order in which a run takes them.
    pub fn backends(&self) -> (backends: Vec<Backend>)
        ensures
            backends@ == self.listing(),
    {
        let mut backends: Vec<Backend> = Vec::new();
        if self.bitcode {
            backends.push(Backend::Bitcode);
        }
        if self.bitcode_rkyv {
            backends.push(Backend::BitcodeRkyv);
        }
        backends
    }
}

/// The listing holds exactly the registered backends, each once.
pub proof fn lemma_listing(registry: Registry)
    ensures
        forall|backend: Backend|
            registry.listing().contains(backend) <==> registry.has(backend),
        registry.listing().no_duplicates(),
{
    let listing = registry.listing();
    assert forall|backend: Backend| registry.has(backend) implies listing.contains(
        backend,
    ) by {
        match backend {
            Backend::Bitcode => {
                assert(listing[0] == Backend::Bitcode);
            },
            Backend::BitcodeRkyv => {
                assert(listing[listing.len() - 1] == Backend::BitcodeRkyv);
            },
        }
    }
}

} // verus!
