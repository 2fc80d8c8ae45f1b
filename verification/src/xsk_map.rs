//! The socket-redirect array accessor.
//!
//! An array of packet sockets: the simpler sibling of the device map, with
//! a single scalar value — the raw descriptor of a socket — and no
//! capability branching. It shows the baseline bounds/transport pattern the
//! device map extends.

use vstd::prelude::*;

use crate::codec::{le_bytes, write_u32_le};
use crate::errors::{MapError, Syscall};
use crate::table::{spec_update, MapData, MapDataView};
use crate::validate::{check_bounds, check_kv_size, spec_check_kv_size};

verus! {

/// What a write returns and what it leaves in the table: bounds first, then
/// the update primitive's outcome, its errno attached to the syscall.
pub open spec fn spec_set_socket(v: MapDataView, index: u32, socket_fd: i32) -> (Result<
    (),
    MapError,
>, MapDataView) {
    if index >= v.max_entries {
        (Err(MapError::OutOfBounds { index, max_entries: v.max_entries }), v)
    } else if v.fd is None {
        (Err(MapError::HandleUnavailable), v)
    } else {
        let outcome = spec_update(v, index, le_bytes(socket_fd as u32));
        match outcome.0 {
            Ok(_) => (Ok(()), outcome.1),
            Err(e) => (
                Err(MapError::SyscallError { call: Syscall::Update, errno: e }),
                outcome.1,
            ),
        }
    }
}

/// Within the capacity of a realized table, a write succeeds and the slot
/// holds exactly the socket descriptor's four little-endian bytes.
pub proof fn lemma_socket_set_stores_descriptor(v: MapDataView, index: u32, socket_fd: i32)
    requires
        v.wf(),
        v.value_size == 4,
        v.fd is Some,
        index < v.max_entries,
    ensures
        ({
            let (r, after) = spec_set_socket(v, index, socket_fd);
            &&& r == Ok::<(), MapError>(())
            &&& after.slots[index as int] == Some(le_bytes(socket_fd as u32))
            &&& forall|j: int|
                0 <= j < after.slots.len() && j != index as int ==> after.slots[j] == v.slots[j]
        }),
{
}

/// An array of packet sockets, addressed by index.
pub struct XskMap {
    inner: MapData,
}

impl View for XskMap {
    type V = MapDataView;

    closed spec fn view(&self) -> MapDataView {
        self.inner@
    }
}

impl XskMap {
    /// What construction establishes and every operation preserves:
    /// four-byte keys and four-byte descriptor values.
    pub open spec fn wf(self) -> bool {
        &&& self@.wf()
        &&& self@.key_size == 4
        &&& self@.value_size == 4
        &&& self@.fd is Some
    }

    /// Wraps a table handle, validating its shape — four-byte keys and
    /// values — before any transport call; a table never realized is
    /// rejected as well.
    pub fn new(map: MapData) -> (r: Result<XskMap, MapError>)
        ensures
            match spec_check_kv_size(map@.key_size, map@.value_size, 4, 4) {
                Err(e) => r == Err::<XskMap, MapError>(e),
                Ok(_) => match map@.fd {
                    Option::None => r == Err::<XskMap, MapError>(MapError::HandleUnavailable),
                    Option::Some(_) => r matches Ok(m) && m@ == map@ && (map@.wf() ==> m.wf()),
                },
            },
    {
        match check_kv_size(&map, 4, 4) {
            Err(e) => {
                return Err(e);
            },
            Ok(_) => {},
        }
        match map.fd_or_err() {
            Err(e) => {
                return Err(e);
            },
            Ok(_) => {},
        }
        Ok(XskMap { inner: map })
    }

    /// The number of entries in the array: the capacity fixed at table
    /// creation. No transport call, no failure.
    pub fn len(&self) -> (r: u32)
        ensures
            r == self@.max_entries,
    {
        self.inner.max_entries()
    }

    /// Stores the raw descriptor of the socket at `index`.
    pub fn set(&mut self, index: u32, socket_fd: i32, flags: u64) -> (r: Result<(), MapError>)
        requires
            old(self).wf(),
        ensures
            final(self).wf(),
            r == spec_set_socket(old(self)@, index, socket_fd).0,
            final(self)@ == spec_set_socket(old(self)@, index, socket_fd).1,
    {
        match check_bounds(&self.inner, index) {
            Err(e) => {
                return Err(e);
            },
            Ok(_) => {},
        }
        match self.inner.fd_or_err() {
            Err(e) => {
                return Err(e);
            },
            Ok(_) => {},
        }
        let mut value: Vec<u8> = Vec::new();
        write_u32_le(&mut value, socket_fd as u32);
        proof {
            assert(value@ =~= le_bytes(socket_fd as u32));
        }
        match self.inner.update(index, &value, flags) {
            Ok(_) => Ok(()),
            Err(e) => Err(MapError::SyscallError { call: Syscall::Update, errno: e }),
        }
    }
}

} // verus!
