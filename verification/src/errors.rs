//! The closed set of errors the map accessors surface.

use vstd::prelude::*;

verus! {

/// Which transport primitive a failure came from.
#[derive(Clone, Copy, Debug, PartialEq, Eq, Structural)]
pub enum Syscall {
    /// The element-lookup primitive.
    Lookup,
    /// The element-update primitive.
    Update,
}

/// Everything a map accessor operation can fail with.
#[derive(Clone, Copy, Debug, PartialEq, Eq, Structural)]
pub enum MapError {
    /// The table was created with key or value sizes other than the
    /// accessor's compiled-in shape. Construction-time and permanent: the
    /// table must be recreated with the right shape.
    ShapeMismatch {
        expected_key_size: u32,
        expected_value_size: u32,
        found_key_size: u32,
        found_value_size: u32,
    },
    /// The table's transport descriptor was never realized, so no syscall
    /// can address it.
    HandleUnavailable,
    /// The index is at or past the table's capacity. A caller error; the
    /// operation issues no syscall.
    OutOfBounds { index: u32, max_entries: u32 },
    /// The lookup reported no entry at the given key: a legitimate state of
    /// a lazily populated table.
    KeyNotFound,
    /// A chained program was supplied, but the running kernel only accepts
    /// the legacy value layout, which has no room for one.
    ChainedProgramUnsupported,
    /// The transport itself failed; `errno` is the OS-level cause and
    /// `call` names the primitive that produced it.
    SyscallError { call: Syscall, errno: i32 },
}

} // verus!
