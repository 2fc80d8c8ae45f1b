//! The kernel-resident table and its two transport primitives.
//!
//! [`MapData`] is the handle an accessor wraps: the declared key/value
//! sizes, the capacity, and the transport descriptor, together with a model
//! of the table the kernel holds behind that descriptor — one optional
//! value byte string per index, and the registry of loaded programs the
//! kernel consults when a redirect value carries a program descriptor.
//!
//! The primitives mirror the single lookup/update syscalls: [`MapData::lookup`]
//! returns the value bytes stored at a key, and [`MapData::update`] replaces
//! them, resolving a write-side program descriptor into the kernel-assigned
//! identifier that later lookups return. That resolution is the asymmetry the
//! device-map codec must respect: the same four bytes carry a descriptor on
//! the way in and an identifier on the way out.

use vstd::prelude::*;

use crate::codec::{le32, le_bytes, copy_bytes, read_u32_le, write_u32_le};

verus! {

/// Reported when an operation addresses a key at or past the capacity.
pub const ERRNO_TOO_BIG: i32 = 7;

/// Reported when a redirect value names a program descriptor the kernel
/// does not know.
pub const ERRNO_BAD_DESCRIPTOR: i32 = 9;

/// Reported when a value's length disagrees with the declared value size.
pub const ERRNO_INVALID: i32 = 22;

/// A program the kernel has loaded: the process-local descriptor a writer
/// hands in, and the kernel-assigned identifier readers get back.
#[derive(Clone, Copy, Debug, PartialEq, Eq, Structural)]
pub struct LoadedProgram {
    pub fd: i32,
    pub id: u32,
}

/// The identifier of the first registered program with descriptor `fd`.
pub open spec fn id_for_fd(programs: Seq<LoadedProgram>, fd: i32) -> Option<u32>
    decreases programs.len(),
{
    if programs.len() == 0 {
        None
    } else if programs[0].fd == fd {
        Some(programs[0].id)
    } else {
        id_for_fd(programs.subrange(1, programs.len() as int), fd)
    }
}

/// Looks a descriptor up in the registry, front to back.
fn find_program_id(programs: &Vec<LoadedProgram>, fd: i32) -> (r: Option<u32>)
    ensures
        r == id_for_fd(programs@, fd),
{
    let n = programs.len();
    proof {
        assert(programs@.subrange(0, n as int) =~= programs@);
    }
    let mut i: usize = 0;
    while i < n
        invariant
            0 <= i <= n,
            n == programs@.len(),
            id_for_fd(programs@, fd) == id_for_fd(
                programs@.subrange(i as int, n as int),
                fd,
            ),
        decreases n - i,
    {
        let tail = Ghost(programs@.subrange(i as int, n as int));
        if programs[i].fd == fd {
            proof {
                assert(tail@[0] == programs@[i as int]);
            }
            return Some(programs[i].id);
        }
        proof {
            assert(tail@[0] == programs@[i as int]);
            assert(tail@.subrange(1, tail@.len() as int) =~= programs@.subrange(
                i as int + 1,
                n as int,
            ));
        }
        i += 1;
    }
    None
}

/// The mathematical shape of a table: handle attributes, stored value
/// bytes, and the program registry.
pub struct MapDataView {
    pub key_size: u32,
    pub value_size: u32,
    pub max_entries: u32,
    pub fd: Option<i32>,
    pub slots: Seq<Option<Seq<u8>>>,
    pub programs: Seq<LoadedProgram>,
}

impl MapDataView {
    /// What the kernel keeps true of every realized table: one slot per
    /// index, and every stored value exactly `value_size` bytes long.
    pub open spec fn wf(self) -> bool {
        &&& self.slots.len() == self.max_entries as int
        &&& forall|i: int|
            0 <= i < self.slots.len() ==> ((#[trigger] self.slots[i]) matches Some(v)
                ==> v.len() == self.value_size as int)
    }
}

/// What a lookup returns: the bytes at the key, absence, or an errno for a
/// key past the capacity.
pub open spec fn spec_lookup(v: MapDataView, key: u32) -> Result<Option<Seq<u8>>, i32> {
    if key < v.max_entries {
        Ok(v.slots[key as int])
    } else {
        Err(ERRNO_TOO_BIG)
    }
}

/// What an update does. A value of the wrong length or a key past the
/// capacity fails and leaves the table unchanged. An eight-byte redirect
/// value has its second word read as a program descriptor: descriptor zero
/// stores identifier zero ("no chained program"), a registered descriptor
/// stores the program's identifier, and an unknown one fails. Any other
/// layout is stored as given.
pub open spec fn spec_update(v: MapDataView, key: u32, value: Seq<u8>) -> (Result<
    (),
    i32,
>, MapDataView) {
    if value.len() != v.value_size as int {
        (Err(ERRNO_INVALID), v)
    } else if key >= v.max_entries {
        (Err(ERRNO_TOO_BIG), v)
    } else if v.value_size == 8 {
        let fd_bits = le32(value.subrange(4, 8));
        let resolved = if fd_bits == 0 {
            Some(0u32)
        } else {
            id_for_fd(v.programs, fd_bits as i32)
        };
        match resolved {
            Option::Some(id) => (
                Ok(()),
                MapDataView {
                    slots: v.slots.update(key as int, Some(value.subrange(0, 4) + le_bytes(id))),
                    ..v
                },
            ),
            Option::None => (Err(ERRNO_BAD_DESCRIPTOR), v),
        }
    } else {
        (Ok(()), MapDataView { slots: v.slots.update(key as int, Some(value)), ..v })
    }
}

/// Writing one slot of a slot vector updates its deep view at that index
/// and nowhere else.
proof fn lemma_slot_written(
    before: Vec<Option<Vec<u8>>>,
    after: Vec<Option<Vec<u8>>>,
    key: u32,
    contents: Seq<u8>,
)
    requires
        (key as int) < before@.len(),
        after@.len() == before@.len(),
        forall|i: int| 0 <= i < before@.len() && i != key as int ==> after@[i] == before@[i],
        after@[key as int] matches Some(v) && v@ == contents,
    ensures
        after.deep_view() == before.deep_view().update(key as int, Some(contents)),
{
    let target = before.deep_view().update(key as int, Some(contents));
    assert forall|i: int| 0 <= i < after@.len() implies after.deep_view()[i] == target[i] by {
        if i == key as int {
            match after@[i] {
                Option::Some(v) => {
                    assert(v.deep_view() =~= v@);
                },
                Option::None => {
                    assert(false);
                },
            }
        }
    }
    assert(after.deep_view() =~= target);
}

/// A table handle together with the kernel-resident table it names.
pub struct MapData {
    key_size: u32,
    value_size: u32,
    max_entries: u32,
    fd: Option<i32>,
    slots: Vec<Option<Vec<u8>>>,
    programs: Vec<LoadedProgram>,
}

impl View for MapData {
    type V = MapDataView;

    closed spec fn view(&self) -> MapDataView {
        MapDataView {
            key_size: self.key_size,
            value_size: self.value_size,
            max_entries: self.max_entries,
            fd: self.fd,
            slots: self.slots.deep_view(),
            programs: self.programs@,
        }
    }
}

impl MapData {
    /// Realizes a table: `max_entries` empty slots, the declared shape, the
    /// transport descriptor (or none, for a table never realized), and the
    /// registry of programs the kernel has loaded.
    pub fn new(
        key_size: u32,
        value_size: u32,
        max_entries: u32,
        fd: Option<i32>,
        programs: Vec<LoadedProgram>,
    ) -> (m: MapData)
        ensures
            m@.key_size == key_size,
            m@.value_size == value_size,
            m@.max_entries == max_entries,
            m@.fd == fd,
            m@.programs == programs@,
            m@.slots.len() == max_entries as int,
            forall|i: int| 0 <= i < max_entries as int ==> m@.slots[i] is None,
            m@.wf(),
    {
        let mut slots: Vec<Option<Vec<u8>>> = Vec::new();
        let mut i: u32 = 0;
        while i < max_entries
            invariant
                0 <= i <= max_entries,
                slots@.len() == i as int,
                forall|j: int| 0 <= j < i as int ==> slots@[j] is None,
            decreases max_entries - i,
        {
            slots.push(None);
            i += 1;
        }
        let m = MapData { key_size, value_size, max_entries, fd, slots, programs };
        proof {
            assert(forall|j: int|
                0 <= j < max_entries as int ==> m@.slots[j] == m.slots@[j].deep_view());
        }
        m
    }

    /// The declared number of entries.
    pub fn max_entries(&self) -> (r: u32)
        ensures
            r == self@.max_entries,
    {
        self.max_entries
    }

    /// The declared key size in bytes.
    pub fn key_size(&self) -> (r: u32)
        ensures
            r == self@.key_size,
    {
        self.key_size
    }

    /// The declared value size in bytes.
    pub fn value_size(&self) -> (r: u32)
        ensures
            r == self@.value_size,
    {
        self.value_size
    }

    /// The transport descriptor, or [`crate::errors::MapError::HandleUnavailable`]
    /// for a table that was never realized.
    pub fn fd_or_err(&self) -> (r: Result<i32, crate::errors::MapError>)
        ensures
            match self@.fd {
                Option::Some(fd) => r == Ok::<i32, crate::errors::MapError>(fd),
                Option::None => r == Err::<i32, crate::errors::MapError>(
                    crate::errors::MapError::HandleUnavailable,
                ),
            },
    {
        match self.fd {
            Some(fd) => Ok(fd),
            None => Err(crate::errors::MapError::HandleUnavailable),
        }
    }

    /// The element-lookup primitive: the value bytes at `key`, `None` for an
    /// empty slot, or an errno for a key past the capacity. Lookup flags
    /// beyond the default are not modeled.
    pub fn lookup(&self, key: u32, _flags: u64) -> (r: Result<Option<Vec<u8>>, i32>)
        requires
            self@.wf(),
        ensures
            match spec_lookup(self@, key) {
                Ok(s) => r matches Ok(o) && o.deep_view() == s,
                Err(e) => r == Err::<Option<Vec<u8>>, i32>(e),
            },
    {
        if key < self.max_entries {
            proof {
                assert(self@.slots[key as int] == self.slots@[key as int].deep_view());
            }
            match &self.slots[key as usize] {
                Some(v) => Ok(Some(copy_bytes(v))),
                None => Ok(None),
            }
        } else {
            Err(ERRNO_TOO_BIG)
        }
    }

    /// The element-update primitive; see [`spec_update`] for what it does.
    /// Update flags beyond the default replace-anywhere behavior are not
    /// modeled.
    pub fn update(&mut self, key: u32, value: &Vec<u8>, _flags: u64) -> (r: Result<(), i32>)
        requires
            old(self)@.wf(),
        ensures
            r == spec_update(old(self)@, key, value@).0,
            final(self)@ == spec_update(old(self)@, key, value@).1,
            final(self)@.wf(),
    {
        proof {
            assert(self@.slots.len() == self.slots@.len());
        }
        if value.len() != self.value_size as usize {
            return Err(ERRNO_INVALID);
        }
        if key >= self.max_entries {
            return Err(ERRNO_TOO_BIG);
        }
        if self.value_size == 8 {
            let fd_bits = read_u32_le(value, 4);
            let id: u32;
            if fd_bits == 0 {
                id = 0;
            } else {
                match find_program_id(&self.programs, fd_bits as i32) {
                    Some(found) => {
                        id = found;
                    },
                    None => {
                        return Err(ERRNO_BAD_DESCRIPTOR);
                    },
                }
            }
            let mut stored: Vec<u8> = Vec::new();
            stored.push(value[0]);
            stored.push(value[1]);
            stored.push(value[2]);
            stored.push(value[3]);
            write_u32_le(&mut stored, id);
            proof {
                assert(stored@ =~= value@.subrange(0, 4) + le_bytes(id));
            }
            let contents = Ghost(stored@);
            self.slots[key as usize] = Some(stored);
            proof {
                lemma_slot_written(old(self).slots, self.slots, key, contents@);
                assert(self.slots.deep_view() =~= spec_update(old(self)@, key, value@).1.slots);
            }
            Ok(())
        } else {
            let stored = copy_bytes(value);
            let contents = Ghost(stored@);
            self.slots[key as usize] = Some(stored);
            proof {
                lemma_slot_written(old(self).slots, self.slots, key, contents@);
                assert(self.slots.deep_view() =~= spec_update(old(self)@, key, value@).1.slots);
            }
            Ok(())
        }
    }
}

} // verus!
