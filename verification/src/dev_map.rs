//! The device-redirect array accessor.
//!
//! An array of network devices: packet-processing programs redirect traffic
//! to the device stored at an index, optionally running a chained program
//! just before transmission. Every operation validates bounds, resolves the
//! transport descriptor, consults the capability gate to pick a value
//! encoding, calls a transport primitive, and maps its failures into
//! [`MapError`].
//!
//! The write-side and read-side representations share four bytes of storage
//! but are never interchangeable: a write carries a process-local program
//! descriptor, a read returns the kernel-assigned program identifier. The
//! encoder and the decoder are therefore distinct functions, and only bytes
//! returned by a lookup are ever decoded.

use vstd::prelude::*;

use crate::capability::CapabilityFlag;
use crate::codec::{le32, le_bytes, lemma_le32_le_bytes, read_u32_le, write_u32_le};
use crate::errors::{MapError, Syscall};
use crate::table::{id_for_fd, spec_update, MapData, MapDataView};
use crate::validate::{check_bounds, check_kv_size, spec_check_kv_size};

verus! {

/// A process-local descriptor naming a loaded program compatible with
/// chained redirects. The caller keeps ownership: the accessor only reads
/// the raw descriptor for the duration of a write.
#[derive(Clone, Copy, Debug, PartialEq, Eq, Structural)]
pub struct ProgramFd {
    raw: i32,
}

impl ProgramFd {
    /// The raw descriptor value.
    pub closed spec fn spec_raw(self) -> i32 {
        self.raw
    }

    /// Wraps a raw descriptor obtained from the program-loading subsystem.
    pub fn new(raw: i32) -> (p: ProgramFd)
        ensures
            p.spec_raw() == raw,
    {
        ProgramFd { raw }
    }

    /// Reads the raw descriptor back.
    pub fn as_raw_fd(&self) -> (r: i32)
        ensures
            r == self.spec_raw(),
    {
        self.raw
    }
}

/// What a read returns: the redirect target device and the kernel-assigned
/// identifier of the chained program, zero meaning none.
#[derive(Clone, Copy, Debug, PartialEq, Eq, Structural)]
pub struct DevMapValue {
    pub ifindex: u32,
    pub prog_id: u32,
}

/// The extended value layout: the device index, then the program slot, each
/// four little-endian bytes. On a write the slot carries a raw descriptor;
/// on a read it carries a kernel-assigned identifier.
pub open spec fn extended_layout(ifindex: u32, slot: u32) -> Seq<u8> {
    le_bytes(ifindex) + le_bytes(slot)
}

/// The legacy value layout: the bare device index, four little-endian
/// bytes, no room for a chained program.
pub open spec fn legacy_layout(ifindex: u32) -> Seq<u8> {
    le_bytes(ifindex)
}

/// Write-path encoder, extended layout. `write_fd` is the raw descriptor of
/// the chained program, zero for none.
fn encode_target_extended(ifindex: u32, write_fd: u32) -> (v: Vec<u8>)
    ensures
        v@ == extended_layout(ifindex, write_fd),
{
    let mut v: Vec<u8> = Vec::new();
    write_u32_le(&mut v, ifindex);
    write_u32_le(&mut v, write_fd);
    proof {
        assert(v@ =~= extended_layout(ifindex, write_fd));
    }
    v
}

/// Write-path encoder, legacy layout.
fn encode_target_legacy(ifindex: u32) -> (v: Vec<u8>)
    ensures
        v@ == legacy_layout(ifindex),
{
    let mut v: Vec<u8> = Vec::new();
    write_u32_le(&mut v, ifindex);
    proof {
        assert(v@ =~= legacy_layout(ifindex));
    }
    v
}

/// Read-path decoder, extended layout: the second word is strictly a
/// kernel-assigned identifier. Only bytes returned by a lookup are valid
/// here — never bytes this accessor previously encoded.
fn decode_entry_extended(v: &Vec<u8>) -> (r: DevMapValue)
    requires
        v@.len() == 8,
    ensures
        r.ifindex == le32(v@.subrange(0, 4)),
        r.prog_id == le32(v@.subrange(4, 8)),
{
    DevMapValue { ifindex: read_u32_le(v, 0), prog_id: read_u32_le(v, 4) }
}

/// Read-path decoder, legacy layout: a bare device index and no chained
/// program.
fn decode_entry_legacy(v: &Vec<u8>) -> (r: DevMapValue)
    requires
        v@.len() == 4,
    ensures
        r.ifindex == le32(v@),
        r.prog_id == 0,
{
    proof {
        assert(v@.subrange(0, 4) =~= v@);
    }
    DevMapValue { ifindex: read_u32_le(v, 0), prog_id: 0 }
}

/// The raw descriptor behind an optional program reference.
pub open spec fn raw_of(program: Option<&ProgramFd>) -> Option<i32> {
    match program {
        Option::Some(p) => Some(p.spec_raw()),
        Option::None => None,
    }
}

/// What a read returns for each index, over the table's mathematical shape.
pub open spec fn spec_get(v: MapDataView, extended: bool, index: u32) -> Result<
    DevMapValue,
    MapError,
> {
    if index >= v.max_entries {
        Err(MapError::OutOfBounds { index, max_entries: v.max_entries })
    } else if v.fd is None {
        Err(MapError::HandleUnavailable)
    } else {
        match v.slots[index as int] {
            Option::None => Err(MapError::KeyNotFound),
            Option::Some(bytes) => Ok(
                if extended {
                    DevMapValue {
                        ifindex: le32(bytes.subrange(0, 4)),
                        prog_id: le32(bytes.subrange(4, 8)),
                    }
                } else {
                    DevMapValue { ifindex: le32(bytes), prog_id: 0 }
                },
            ),
        }
    }
}

/// What a write returns and what it leaves in the table. Bounds and the
/// capability gate are decided before any transport call; afterwards the
/// outcome is the update primitive's, with its errno attached to the
/// syscall that produced it.
pub open spec fn spec_set(
    v: MapDataView,
    extended: bool,
    index: u32,
    ifindex: u32,
    prog_fd: Option<i32>,
) -> (Result<(), MapError>, MapDataView) {
    if index >= v.max_entries {
        (Err(MapError::OutOfBounds { index, max_entries: v.max_entries }), v)
    } else if v.fd is None {
        (Err(MapError::HandleUnavailable), v)
    } else if !extended && prog_fd is Some {
        (Err(MapError::ChainedProgramUnsupported), v)
    } else {
        let fd_bits: u32 = match prog_fd {
            Option::Some(f) => f as u32,
            Option::None => 0,
        };
        let bytes = if extended {
            extended_layout(ifindex, fd_bits)
        } else {
            legacy_layout(ifindex)
        };
        let outcome = spec_update(v, index, bytes);
        match outcome.0 {
            Ok(_) => (Ok(()), outcome.1),
            Err(e) => (
                Err(MapError::SyscallError { call: Syscall::Update, errno: e }),
                outcome.1,
            ),
        }
    }
}

/// The observable state of a device map accessor: the table it wraps and
/// the encoding the capability gate selected.
pub struct DevMapModel {
    pub table: MapDataView,
    pub extended: bool,
}

impl DevMapModel {
    /// What construction establishes and every operation preserves.
    pub open spec fn wf(self) -> bool {
        &&& self.table.wf()
        &&& self.table.key_size == 4
        &&& self.table.value_size == (if self.extended {
            8u32
        } else {
            4u32
        })
        &&& self.table.fd is Some
    }
}

/// An array of network devices, addressed by index.
pub struct DevMap {
    inner: MapData,
    extended: bool,
}

impl View for DevMap {
    type V = DevMapModel;

    closed spec fn view(&self) -> DevMapModel {
        DevMapModel { table: self.inner@, extended: self.extended }
    }
}

impl DevMap {
    /// Wraps a table handle, validating its shape against the encoding the
    /// capability gate selected, before any transport call: four-byte keys,
    /// and eight-byte values on an extended kernel, four-byte on a legacy
    /// one. A table never realized is rejected as well.
    pub fn new(map: MapData, features: CapabilityFlag) -> (r: Result<DevMap, MapError>)
        ensures
            ({
                let expected_value: u32 = if features.spec_extended() {
                    8u32
                } else {
                    4u32
                };
                match spec_check_kv_size(map@.key_size, map@.value_size, 4, expected_value) {
                    Err(e) => r == Err::<DevMap, MapError>(e),
                    Ok(_) => match map@.fd {
                        Option::None => r == Err::<DevMap, MapError>(MapError::HandleUnavailable),
                        Option::Some(_) => r matches Ok(m) && m@.table == map@ && m@.extended
                            == features.spec_extended() && (map@.wf() ==> m@.wf()),
                    },
                }
            }),
    {
        let extended = features.supports_extended_redirect();
        let expected_value: u32 = if extended {
            8
        } else {
            4
        };
        match check_kv_size(&map, 4, expected_value) {
            Err(e) => {
                return Err(e);
            },
            Ok(_) => {},
        }
        match map.fd_or_err() {
            Err(e) => {
                return Err(e);
            },
            Ok(_) => {},
        }
        Ok(DevMap { inner: map, extended })
    }

    /// The number of entries in the array: the capacity fixed at table
    /// creation. No transport call, no failure.
    pub fn len(&self) -> (r: u32)
        ensures
            r == self@.table.max_entries,
    {
        self.inner.max_entries()
    }

    /// The redirect target and possible chained-program identifier at
    /// `index`. Validates bounds, resolves the descriptor, looks the entry
    /// up, and decodes it under the gated encoding.
    pub fn get(&self, index: u32, flags: u64) -> (r: Result<DevMapValue, MapError>)
        requires
            self@.wf(),
        ensures
            r == spec_get(self@.table, self@.extended, index),
    {
        match check_bounds(&self.inner, index) {
            Err(e) => {
                return Err(e);
            },
            Ok(_) => {},
        }
        match self.inner.fd_or_err() {
            Err(e) => {
                return Err(e);
            },
            Ok(_) => {},
        }
        let looked = self.inner.lookup(index, flags);
        match looked {
            Err(e) => Err(MapError::SyscallError { call: Syscall::Lookup, errno: e }),
            Ok(None) => Err(MapError::KeyNotFound),
            Ok(Some(bytes)) => {
                proof {
                    assert(bytes.deep_view() =~= bytes@);
                }
                if self.extended {
                    Ok(decode_entry_extended(&bytes))
                } else {
                    Ok(decode_entry_legacy(&bytes))
                }
            },
        }
    }

    /// A restartable cursor over indices `0..len()`. Each step is an
    /// independent lookup with default flags: there is no snapshot
    /// isolation, so a concurrent writer's update is seen as soon as the
    /// cursor reaches its index.
    pub fn iter(&self) -> (it: DevMapIter<'_>)
        ensures
            it.map == self,
            it.index == 0,
    {
        DevMapIter { map: self, index: 0 }
    }

    /// Stores the redirect target `ifindex` at `index`, optionally chaining
    /// a program to run before transmission. On a legacy-only kernel a
    /// chained program is rejected before any transport call.
    pub fn set(
        &mut self,
        index: u32,
        ifindex: u32,
        program: Option<&ProgramFd>,
        flags: u64,
    ) -> (r: Result<(), MapError>)
        requires
            old(self)@.wf(),
        ensures
            final(self)@.wf(),
            final(self)@.extended == old(self)@.extended,
            r == spec_set(old(self)@.table, old(self)@.extended, index, ifindex, raw_of(program)).0,
            final(self)@.table == spec_set(
                old(self)@.table,
                old(self)@.extended,
                index,
                ifindex,
                raw_of(program),
            ).1,
    {
        match check_bounds(&self.inner, index) {
            Err(e) => {
                return Err(e);
            },
            Ok(_) => {},
        }
        match self.inner.fd_or_err() {
            Err(e) => {
                return Err(e);
            },
            Ok(_) => {},
        }
        if self.extended {
            let fd_bits: u32 = match program {
                Some(p) => p.as_raw_fd() as u32,
                None => 0,
            };
            let value = encode_target_extended(ifindex, fd_bits);
            match self.inner.update(index, &value, flags) {
                Ok(_) => Ok(()),
                Err(e) => Err(MapError::SyscallError { call: Syscall::Update, errno: e }),
            }
        } else {
            if program.is_some() {
                return Err(MapError::ChainedProgramUnsupported);
            }
            let value = encode_target_legacy(ifindex);
            match self.inner.update(index, &value, flags) {
                Ok(_) => Ok(()),
                Err(e) => Err(MapError::SyscallError { call: Syscall::Update, errno: e }),
            }
        }
    }
}

/// A cursor over a device map; see [`DevMap::iter`].
pub struct DevMapIter<'a> {
    /// The accessor being walked.
    pub map: &'a DevMap,
    /// The next index to read.
    pub index: u32,
}

impl<'a> DevMapIter<'a> {
    /// The next element, or `None` past the end. Each element is the
    /// outcome of an independent lookup at the cursor's index.
    pub fn next(&mut self) -> (r: Option<Result<DevMapValue, MapError>>)
        requires
            old(self).map@.wf(),
        ensures
            final(self).map == old(self).map,
            old(self).index >= old(self).map@.table.max_entries ==> r is None && final(self).index
                == old(self).index,
            old(self).index < old(self).map@.table.max_entries ==> {
                &&& r == Some(
                    spec_get(old(self).map@.table, old(self).map@.extended, old(self).index),
                )
                &&& final(self).index == old(self).index + 1
            },
    {
        if self.index < self.map.len() {
            let r = self.map.get(self.index, 0);
            self.index = self.index + 1;
            Some(r)
        } else {
            None
        }
    }
}

impl crate::iterable::IterableMap<u32, DevMapValue> for DevMap {
    open spec fn inv(&self) -> bool {
        self@.wf()
    }

    open spec fn entry_at(&self, key: u32) -> Result<DevMapValue, MapError> {
        spec_get(self@.table, self@.extended, key)
    }

    fn map_data(&self) -> &MapData {
        &self.inner
    }

    fn get(&self, key: &u32) -> (r: Result<DevMapValue, MapError>) {
        self.get(*key, 0)
    }
}

/// At or past the capacity — every index of a zero-capacity table included —
/// a read and a write both fail with `OutOfBounds` and the table is left
/// untouched: no transport call is reached.
pub proof fn lemma_out_of_bounds(
    v: MapDataView,
    extended: bool,
    index: u32,
    ifindex: u32,
    prog_fd: Option<i32>,
)
    requires
        index >= v.max_entries,
    ensures
        spec_get(v, extended, index) == Err::<DevMapValue, MapError>(
            MapError::OutOfBounds { index, max_entries: v.max_entries },
        ),
        spec_set(v, extended, index, ifindex, prog_fd) == (
            Err::<(), MapError>(MapError::OutOfBounds { index, max_entries: v.max_entries }),
            v,
        ),
{
}

/// On a legacy-only kernel, a write that carries a chained program is
/// rejected with `ChainedProgramUnsupported` and the table is left
/// untouched: the rejection comes before any transport call.
pub proof fn lemma_legacy_rejects_chained_program(
    v: MapDataView,
    index: u32,
    ifindex: u32,
    fd: i32,
)
    requires
        index < v.max_entries,
        v.fd is Some,
    ensures
        spec_set(v, false, index, ifindex, Some(fd)) == (
            Err::<(), MapError>(MapError::ChainedProgramUnsupported),
            v,
        ),
{
}

/// Round trip without a chained program, extended encoding: after a
/// successful write of a bare device index, a read of the same index
/// returns that device and program identifier zero.
pub proof fn lemma_set_get_roundtrip(v: MapDataView, index: u32, ifindex: u32)
    requires
        v.wf(),
        v.value_size == 8,
        v.fd is Some,
        index < v.max_entries,
    ensures
        ({
            let (r, after) = spec_set(v, true, index, ifindex, None);
            &&& r == Ok::<(), MapError>(())
            &&& spec_get(after, true, index) == Ok::<DevMapValue, MapError>(
                DevMapValue { ifindex, prog_id: 0 },
            )
        }),
{
    let bytes = extended_layout(ifindex, 0);
    assert(bytes.subrange(4, 8) =~= le_bytes(0));
    lemma_le32_le_bytes(0);
    assert(bytes.subrange(0, 4) =~= le_bytes(ifindex));
    let stored = bytes.subrange(0, 4) + le_bytes(0u32);
    assert(stored.subrange(0, 4) =~= le_bytes(ifindex));
    assert(stored.subrange(4, 8) =~= le_bytes(0));
    lemma_le32_le_bytes(ifindex);
}

/// With a chained program on an extended kernel, the entry read back holds
/// the kernel-assigned identifier of the registered program — never an echo
/// of the raw descriptor supplied on write.
pub proof fn lemma_set_get_chained_program(
    v: MapDataView,
    index: u32,
    ifindex: u32,
    fd: i32,
    id: u32,
)
    requires
        v.wf(),
        v.value_size == 8,
        v.fd is Some,
        index < v.max_entries,
        fd != 0,
        id_for_fd(v.programs, fd) == Some(id),
    ensures
        ({
            let (r, after) = spec_set(v, true, index, ifindex, Some(fd));
            &&& r == Ok::<(), MapError>(())
            &&& spec_get(after, true, index) == Ok::<DevMapValue, MapError>(
                DevMapValue { ifindex, prog_id: id },
            )
            &&& id != fd as u32 ==> spec_get(after, true, index) != Ok::<DevMapValue, MapError>(
                DevMapValue { ifindex, prog_id: fd as u32 },
            )
        }),
{
    let fd_bits = fd as u32;
    assert(fd_bits != 0 && fd_bits as i32 == fd) by (bit_vector)
        requires
            fd_bits == fd as u32 && fd != 0,
    ;
    let bytes = extended_layout(ifindex, fd_bits);
    assert(bytes.subrange(4, 8) =~= le_bytes(fd_bits));
    lemma_le32_le_bytes(fd_bits);
    assert(bytes.subrange(0, 4) =~= le_bytes(ifindex));
    let stored = bytes.subrange(0, 4) + le_bytes(id);
    assert(stored.subrange(0, 4) =~= le_bytes(ifindex));
    assert(stored.subrange(4, 8) =~= le_bytes(id));
    lemma_le32_le_bytes(ifindex);
    lemma_le32_le_bytes(id);
}

} // verus!
