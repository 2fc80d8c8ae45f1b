//! The kernel-side companion: a hash-keyed device-redirect table.
//!
//! Used from within the packet-processing program itself, not from the
//! controlling process: a lookup is a direct in-context read with no
//! syscall boundary, and `redirect` issues an immediate redirect action
//! whose status the processing program must propagate as its own terminal
//! action. The table is write-mostly: the control plane populates it
//! through the update path, the fast path only reads and redirects.

use vstd::prelude::*;

use crate::dev_map::DevMapValue;
use crate::table::ERRNO_TOO_BIG;

verus! {

/// The table type tag of a hash-keyed device-redirect table.
pub const DEV_MAP_HASH_TYPE: u32 = 25;

/// The terminal action that tells the processing runtime a redirect was
/// issued.
pub const XDP_REDIRECT: u32 = 4;

/// The fallback action carried in the low bits of the redirect flags,
/// returned when the key has no entry.
pub const REDIRECT_FLAGS_ACTION_MASK: u64 = 3;

/// Whether the table definition is registered for pinning by name.
#[derive(Clone, Copy, Debug, PartialEq, Eq, Structural)]
pub enum PinningKind {
    /// Not pinned.
    Unpinned,
    /// Pinned under the map's name.
    ByName,
}

/// The compile-time definition the loader reads: type tag, key/value sizes,
/// capacity, flags, and pinning.
#[derive(Clone, Copy, Debug, PartialEq, Eq, Structural)]
pub struct MapDef {
    pub map_type: u32,
    pub key_size: u32,
    pub value_size: u32,
    pub max_entries: u32,
    pub map_flags: u32,
    pub id: u32,
    pub pinning: PinningKind,
}

/// One populated entry: a key and the redirect value stored under it.
#[derive(Clone, Copy, Debug, PartialEq, Eq, Structural)]
pub struct DevHashEntry {
    pub key: u32,
    pub value: DevMapValue,
}

/// A hash-keyed table of redirect targets, with its definition and the
/// entries the control plane has populated.
pub struct DevMapHash {
    def: MapDef,
    entries: Vec<DevHashEntry>,
}

impl View for DevMapHash {
    type V = Seq<DevHashEntry>;

    closed spec fn view(&self) -> Seq<DevHashEntry> {
        self.entries@
    }
}

impl DevMapHash {
    /// The table's definition.
    pub closed spec fn spec_def(self) -> MapDef {
        self.def
    }

    /// Keys are unique and the population never exceeds the capacity.
    pub open spec fn wf(self) -> bool {
        &&& self@.len() <= self.spec_def().max_entries as int
        &&& forall|i: int, j: int|
            0 <= i < j < self@.len() ==> #[trigger] self@[i].key != #[trigger] self@[j].key
    }

    /// The table's definition, as the loader will read it.
    pub fn def(&self) -> (d: MapDef)
        ensures
            d == self.spec_def(),
    {
        self.def
    }

    /// An unpinned table definition: four-byte keys, eight-byte redirect
    /// values, the given capacity and flags, and no entries yet.
    pub fn with_max_entries(max_entries: u32, flags: u32) -> (m: DevMapHash)
        ensures
            m.spec_def() == (MapDef {
                map_type: DEV_MAP_HASH_TYPE,
                key_size: 4,
                value_size: 8,
                max_entries,
                map_flags: flags,
                id: 0,
                pinning: PinningKind::Unpinned,
            }),
            m@ == Seq::<DevHashEntry>::empty(),
            m.wf(),
    {
        DevMapHash {
            def: MapDef {
                map_type: DEV_MAP_HASH_TYPE,
                key_size: 4,
                value_size: 8,
                max_entries,
                map_flags: flags,
                id: 0,
                pinning: PinningKind::Unpinned,
            },
            entries: Vec::new(),
        }
    }

    /// The same definition, registered for pinning by name.
    pub fn pinned(max_entries: u32, flags: u32) -> (m: DevMapHash)
        ensures
            m.spec_def() == (MapDef {
                map_type: DEV_MAP_HASH_TYPE,
                key_size: 4,
                value_size: 8,
                max_entries,
                map_flags: flags,
                id: 0,
                pinning: PinningKind::ByName,
            }),
            m@ == Seq::<DevHashEntry>::empty(),
            m.wf(),
    {
        DevMapHash {
            def: MapDef {
                map_type: DEV_MAP_HASH_TYPE,
                key_size: 4,
                value_size: 8,
                max_entries,
                map_flags: flags,
                id: 0,
                pinning: PinningKind::ByName,
            },
            entries: Vec::new(),
        }
    }

    /// The control-plane write path that populates the table: stores
    /// `value` under `key`, replacing an entry already there; a new key on
    /// a full table fails with the capacity errno and changes nothing.
    pub fn update(&mut self, key: u32, value: DevMapValue) -> (r: Result<(), i32>)
        requires
            old(self).wf(),
        ensures
            final(self).wf(),
            final(self).spec_def() == old(self).spec_def(),
            ({
                let before = old(self)@;
                let after = final(self)@;
                let cap = old(self).spec_def().max_entries as int;
                if exists|i: int| 0 <= i < before.len() && before[i].key == key {
                    r == Ok::<(), i32>(()) && exists|i: int|
                        0 <= i < before.len() && before[i].key == key && after == before.update(
                            i,
                            DevHashEntry { key, value },
                        )
                } else if before.len() < cap {
                    r == Ok::<(), i32>(()) && after == before.push(DevHashEntry { key, value })
                } else {
                    r == Err::<(), i32>(ERRNO_TOO_BIG) && after == before
                }
            }),
    {
        let n = self.entries.len();
        let mut i: usize = 0;
        while i < n
            invariant
                0 <= i <= n,
                n == self.entries@.len(),
                self == old(self),
                old(self).wf(),
                forall|j: int| 0 <= j < i as int ==> self.entries@[j].key != key,
            decreases n - i,
        {
            if self.entries[i].key == key {
                self.entries[i] = DevHashEntry { key, value };
                proof {
                    let before = old(self)@;
                    let after = self.entries@;
                    assert forall|j: int| 0 <= j < after.len() implies #[trigger] after[j].key
                        == before[j].key by {
                        if j != i as int {
                            assert(after[j] == before[j]);
                        }
                    }
                    assert forall|p: int, q: int|
                        0 <= p < q < after.len() implies after[p].key != after[q].key by {
                        assert(before[p].key != before[q].key);
                        assert(after[p].key == before[p].key);
                        assert(after[q].key == before[q].key);
                    }
                }
                return Ok(());
            }
            i += 1;
        }
        if self.entries.len() < self.def.max_entries as usize {
            self.entries.push(DevHashEntry { key, value });
            proof {
                let before = old(self)@;
                let after = self.entries@;
                assert forall|p: int, q: int|
                    0 <= p < q < after.len() implies after[p].key != after[q].key by {
                    assert(after[p] == before[p]);
                    if q < after.len() - 1 {
                        assert(after[q] == before[q]);
                        assert(before[p].key != before[q].key);
                    }
                }
            }
            Ok(())
        } else {
            Err(ERRNO_TOO_BIG)
        }
    }

    /// The in-context lookup: the value stored under `key`, if any. Valid
    /// only within the current processing invocation; nothing is retained.
    pub fn get(&self, key: u32) -> (r: Option<DevMapValue>)
        requires
            self.wf(),
        ensures
            match r {
                Option::Some(value) => exists|i: int|
                    0 <= i < self@.len() && self@[i] == (DevHashEntry { key, value }),
                Option::None => forall|i: int| 0 <= i < self@.len() ==> self@[i].key != key,
            },
    {
        let n = self.entries.len();
        let mut i: usize = 0;
        while i < n
            invariant
                0 <= i <= n,
                n == self.entries@.len(),
                forall|j: int| 0 <= j < i as int ==> self.entries@[j].key != key,
            decreases n - i,
        {
            if self.entries[i].key == key {
                let value = self.entries[i].value;
                proof {
                    assert(self@[i as int] == (DevHashEntry { key, value }));
                }
                return Some(value);
            }
            i += 1;
        }
        None
    }

    /// Issues an immediate redirect through the entry at `key`. Returns the
    /// redirect status when the key is populated, and otherwise the
    /// fallback action carried in the low bits of `flags`; the processing
    /// program must propagate the result as its own terminal action.
    pub fn redirect(&self, key: u32, flags: u64) -> (r: u32)
        requires
            self.wf(),
        ensures
            (exists|i: int| 0 <= i < self@.len() && self@[i].key == key) ==> r == XDP_REDIRECT,
            (forall|i: int| 0 <= i < self@.len() ==> self@[i].key != key) ==> r == (flags
                & REDIRECT_FLAGS_ACTION_MASK) as u32,
    {
        match self.get(key) {
            Some(_) => XDP_REDIRECT,
            None => (flags & REDIRECT_FLAGS_ACTION_MASK) as u32,
        }
    }
}

} // verus!
