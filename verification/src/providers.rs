//! A registry of providers, the dependency-lookup companion of the
//! pipeline: values registered under an identifier, looked up, overridden
//! or decorated later.
//!
//! The registry is keyed by a plain integer identifier and is modelled as a
//! map from identifiers to the stored providers. Registration refuses an
//! identifier already taken; overriding and decorating refuse one not yet
//! taken.

use std::collections::hash_map::Entry;
use std::collections::HashMap;

use vstd::prelude::*;
use vstd::std_specs::hash::EntrySpecFns;

verus! {

broadcast use vstd::std_specs::hash::group_hash_axioms;

/// Why a registry operation refused to act.
pub enum ProviderError {
    /// A provider is already registered under the identifier.
    AlreadyRegistered,
    /// No provider is registered under the identifier.
    NotRegistered,
}

/// The registry itself: providers of one type `P`, keyed by identifier.
pub struct ProviderManager<P> {
    table: HashMap<u64, P>,
}

impl<P> View for ProviderManager<P> {
    type V = Map<u64, P>;

    closed spec fn view(&self) -> Map<u64, P> {
        self.table@
    }
}

impl<P> ProviderManager<P> {
    pub fn new() -> (r: Self)
        ensures
            r@ == Map::<u64, P>::empty(),
    {
        ProviderManager { table: HashMap::new() }
    }

    /// Returns a reference to the provider registered under `key`.
    pub fn get(&self, key: u64) -> (r: Result<&P, ProviderError>)
        ensures
            (match r {
                Ok(p) => self@.contains_key(key) && *p == self@[key],
                Err(e) => e == ProviderError::NotRegistered && !self@.contains_key(key),
            }),
    {
        match self.table.get(&key) {
            Some(p) => Ok(p),
            None => Err(ProviderError::NotRegistered),
        }
    }

    /// Returns a unique reference to the provider registered under `key`;
    /// the registry afterwards holds whatever the caller wrote through it.
    pub fn get_mut(&mut self, key: u64) -> (r: Result<&mut P, ProviderError>)
        ensures
            (match r {
                Ok(p) => old(self)@.contains_key(key) && *p == old(self)@[key]
                    && final(self)@ == old(self)@.insert(key, *final(p)),
                Err(e) => e == ProviderError::NotRegistered && !old(self)@.contains_key(key)
                    && final(self)@ == old(self)@,
            }),
    {
        if !self.table.contains_key(&key) {
            return Err(ProviderError::NotRegistered);
        }
        let ghost m0 = self.table@;
        let entry = self.table.entry(key);
        proof {
            assert(entry.value() == m0.get(key));
        }
        match entry {
            Entry::Occupied(e) => Ok(e.into_mut()),
            Entry::Vacant(_) => Err(ProviderError::NotRegistered),
        }
    }

    /// Registers a provider under a fresh identifier; refuses an
    /// identifier that already has one, leaving the registry unchanged.
    pub fn register(&mut self, key: u64, provider: P) -> (r: Result<(), ProviderError>)
        ensures
            r is Ok <==> !old(self)@.contains_key(key),
            r is Ok ==> final(self)@ == old(self)@.insert(key, provider),
            r is Err ==> r == Err::<(), ProviderError>(ProviderError::AlreadyRegistered)
                && final(self)@ == old(self)@,
    {
        if self.table.contains_key(&key) {
            Err(ProviderError::AlreadyRegistered)
        } else {
            self.table.insert(key, provider);
            Ok(())
        }
    }

    /// Replaces the provider registered under `key`; refuses an identifier
    /// that has none, leaving the registry unchanged.
    pub fn override_provider(&mut self, key: u64, provider: P) -> (r: Result<(), ProviderError>)
        ensures
            r is Ok <==> old(self)@.contains_key(key),
            r is Ok ==> final(self)@ == old(self)@.insert(key, provider),
            r is Err ==> r == Err::<(), ProviderError>(ProviderError::NotRegistered)
                && final(self)@ == old(self)@,
    {
        if self.table.contains_key(&key) {
            self.table.insert(key, provider);
            Ok(())
        } else {
            Err(ProviderError::NotRegistered)
        }
    }

    /// Applies a decoration to the provider registered under `key`: the
    /// registered provider is handed to the decoration, and what it hands
    /// back is what the registry holds afterwards.
    pub fn decorate_provider<F: Fn(P) -> P>(&mut self, key: u64, decoration: F) -> (r: Result<
        (),
        ProviderError,
    >)
        requires
            old(self)@.contains_key(key) ==> decoration.requires((old(self)@[key],)),
        ensures
            r is Ok <==> old(self)@.contains_key(key),
            r is Ok ==> (exists|v: P|
                #[trigger] decoration.ensures((old(self)@[key],), v)
                    && final(self)@ == old(self)@.insert(key, v)),
            r is Err ==> r == Err::<(), ProviderError>(ProviderError::NotRegistered)
                && final(self)@ == old(self)@,
    {
        match self.table.remove(&key) {
            Some(p) => {
                let decorated = decoration(p);
                self.table.insert(key, decorated);
                proof {
                    assert(old(self)@.remove(key).insert(key, decorated) =~= old(self)@.insert(
                        key,
                        decorated,
                    ));
                }
                Ok(())
            },
            None => {
                proof {
                    assert(old(self)@.remove(key) =~= old(self)@);
                }
                Err(ProviderError::NotRegistered)
            },
        }
    }
}

} // verus!
