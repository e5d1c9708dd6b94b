//! The function registry: hashed symbol name to program-counter offset.
//!
//! The loader registers every exported function under a stable 32-bit hash
//! of its UTF-8 symbol name. Resolution recomputes that hash with the very
//! scheme the loader used; a missing entry is a hard error, never a silent
//! fallback to another address.

use vstd::prelude::*;
use vstd::string::StringSliceAdditionalSpecFns;
use crate::InvokeError;

verus! {

/// The stable 32-bit hash of a symbol name, as the loader computes it when
/// registering exported symbols. The value depends on the bytes alone.
pub uninterp spec fn symbol_hash(name: Seq<u8>) -> u32;

/// Relies on `solana_rbpf::ebpf::hash_symbol_name`: the murmur3-32 hash of
/// the symbol bytes, a pure function of the bytes alone, the same scheme the
/// loader uses when it fills the function registry.
#[verifier::external_body]
pub(crate) fn hash_symbol_name(name: &[u8]) -> (hash: u32)
    ensures
        hash == symbol_hash(name@),
{
    solana_rbpf::ebpf::hash_symbol_name(name)
}

/// Name-to-address lookup table of an executable: one entry per exported
/// function, keyed by the hash of its symbol name. Keys are unique.
pub struct FunctionRegistry {
    entries: Vec<(u32, u64)>,
}

impl FunctionRegistry {
    /// The registered (key, program counter) pairs, in registration order.
    pub closed spec fn entries(&self) -> Seq<(u32, u64)> {
        self.entries@
    }

    /// Whether some entry carries the given key.
    pub open spec fn contains_key(&self, key: u32) -> bool {
        exists|i: int| 0 <= i < self.entries().len() && self.entries()[i].0 == key
    }

    /// Whether the given key is registered with the given program counter.
    pub open spec fn maps_to(&self, key: u32, pc: u64) -> bool {
        exists|i: int| 0 <= i < self.entries().len() && self.entries()[i] == (key, pc)
    }

    /// Key uniqueness: no two entries share a key.
    pub open spec fn wf(&self) -> bool {
        forall|i: int, j: int|
            0 <= i < j < self.entries().len() ==> self.entries()[i].0 != self.entries()[j].0
    }

    /// An empty registry.
    pub fn new() -> (registry: Self)
        ensures
            registry.wf(),
            registry.entries() == Seq::<(u32, u64)>::empty(),
    {
        FunctionRegistry { entries: Vec::new() }
    }

    /// Registers a program counter under a key. A duplicate key is refused:
    /// the registry is left unchanged and the function reports failure.
    pub fn register(&mut self, key: u32, pc: u64) -> (registered: bool)
        requires
            old(self).wf(),
        ensures
            final(self).wf(),
            registered == !old(self).contains_key(key),
            registered ==> final(self).entries() == old(self).entries().push((key, pc)),
            !registered ==> final(self).entries() == old(self).entries(),
    {
        if self.lookup(key).is_some() {
            return false;
        }
        self.entries.push((key, pc));
        proof {
            let s = old(self).entries();
            assert forall|i: int, j: int|
                0 <= i < j < self.entries().len() implies self.entries()[i].0
                != self.entries()[j].0 by {
                if j < s.len() {
                    assert(s[i].0 != s[j].0);
                } else {
                    assert(self.entries()[j] == (key, pc));
                    assert(self.entries()[i] == s[i]);
                    assert(s[i].0 != key);
                }
            }
        }
        true
    }

    /// Looks a key up. Returns the registered program counter exactly when
    /// some entry carries the key, and nothing otherwise.
    pub fn lookup(&self, key: u32) -> (found: Option<u64>)
        ensures
            match found {
                Some(pc) => self.maps_to(key, pc),
                None => !self.contains_key(key),
            },
    {
        let mut i: usize = 0;
        while i < self.entries.len()
            invariant
                i <= self.entries().len(),
                forall|j: int| 0 <= j < i ==> self.entries()[j].0 != key,
            decreases self.entries().len() - i,
        {
            if self.entries[i].0 == key {
                return Some(self.entries[i].1);
            }
            i += 1;
        }
        None
    }

    /// Number of registered functions.
    pub fn len(&self) -> (n: usize)
        ensures
            n == self.entries().len(),
    {
        self.entries.len()
    }
}

/// Resolves a function name to its entry program counter: hashes the UTF-8
/// symbol name with the loader's scheme and looks the hash up. A name whose
/// hash no entry carries fails with `FunctionNotFound` — resolution never
/// falls back to another address.
pub fn resolve_function(registry: &FunctionRegistry, function_name: &str) -> (result: Result<
    u64,
    InvokeError,
>)
    ensures
        match result {
            Ok(pc) => registry.maps_to(symbol_hash(function_name.spec_bytes()), pc),
            Err(e) => {
                &&& e == InvokeError::FunctionNotFound
                &&& !registry.contains_key(symbol_hash(function_name.spec_bytes()))
            },
        },
{
    let hash = hash_symbol_name(function_name.as_bytes());
    match registry.lookup(hash) {
        Some(pc) => Ok(pc),
        None => Err(InvokeError::FunctionNotFound),
    }
}

} // verus!
