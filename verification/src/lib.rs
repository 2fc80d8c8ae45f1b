//! A typed accessor layer over a bounded, index-addressed redirect table.
//!
//! Packet-processing programs redirect traffic through kernel-resident
//! tables: an entry names a target network device, optionally paired with a
//! chained program run just before transmission. This crate verifies the
//! accessor logic around such tables: bounds and shape validation, the two
//! value encodings (legacy bare device index, extended device index plus
//! program slot), the capability gate that selects between them, and the
//! mapping of transport failures into a closed set of typed errors.
//!
//! The table itself is modeled in [`table`]: a fixed-capacity array of value
//! byte strings together with a registry of loaded programs, mirroring how
//! the kernel resolves a write-side program descriptor into the read-side
//! identifier that later lookups return.

pub mod capability;
pub mod codec;
pub mod dev_map;
pub mod dev_map_hash;
pub mod errors;
pub mod iterable;
pub mod table;
pub mod validate;
pub mod xsk_map;
