//! A capability for generic consumers that enumerate maps uniformly: the
//! table handle behind an accessor, and a lookup by key with default flags.

use vstd::prelude::*;

use crate::errors::MapError;
use crate::table::MapData;

verus! {

/// Implemented by accessors whose entries can be enumerated key by key.
pub trait IterableMap<K, V> {
    /// Well-formedness the lookup relies on.
    spec fn inv(&self) -> bool;

    /// What the lookup returns for each key.
    spec fn entry_at(&self, key: K) -> Result<V, MapError>;

    /// The table handle behind the accessor.
    fn map_data(&self) -> &MapData;

    /// Looks `key` up with default flags.
    fn get(&self, key: &K) -> (r: Result<V, MapError>)
        requires
            self.inv(),
        ensures
            r == self.entry_at(*key),
    ;
}

} // verus!
