use xdp_maps::capability::CapabilityFlag;
use xdp_maps::dev_map::{DevMap, DevMapValue, ProgramFd};
use xdp_maps::errors::{MapError, Syscall};
use xdp_maps::iterable::IterableMap;
use xdp_maps::table::{LoadedProgram, MapData};
use xdp_maps::xsk_map::XskMap;

fn extended_map(max_entries: u32, programs: Vec<LoadedProgram>) -> DevMap {
    let data = MapData::new(4, 8, max_entries, Some(3), programs);
    match DevMap::new(data, CapabilityFlag::resolve(true)) {
        Ok(m) => m,
        Err(_) => panic!("extended accessor construction failed"),
    }
}

fn legacy_map(max_entries: u32) -> DevMap {
    let data = MapData::new(4, 4, max_entries, Some(3), Vec::new());
    match DevMap::new(data, CapabilityFlag::resolve(false)) {
        Ok(m) => m,
        Err(_) => panic!("legacy accessor construction failed"),
    }
}

#[test]
fn capability_flag_reports_the_resolved_verdict() {
    assert!(CapabilityFlag::resolve(true).supports_extended_redirect());
    assert!(!CapabilityFlag::resolve(false).supports_extended_redirect());
    let prog = ProgramFd::new(-3);
    assert_eq!(prog.as_raw_fd(), -3);
}

#[test]
fn len_matches_capacity() {
    let map = extended_map(7, Vec::new());
    assert_eq!(map.len(), 7);
    let map = legacy_map(1);
    assert_eq!(map.len(), 1);
    let map = extended_map(0, Vec::new());
    assert_eq!(map.len(), 0);
}

#[test]
fn out_of_bounds_get_and_set() {
    let mut map = extended_map(4, Vec::new());
    assert_eq!(
        map.get(4, 0),
        Err(MapError::OutOfBounds { index: 4, max_entries: 4 })
    );
    assert_eq!(
        map.get(100, 0),
        Err(MapError::OutOfBounds { index: 100, max_entries: 4 })
    );
    assert_eq!(
        map.set(4, 1, None, 0),
        Err(MapError::OutOfBounds { index: 4, max_entries: 4 })
    );
    assert_eq!(
        map.set(u32::MAX, 1, None, 0),
        Err(MapError::OutOfBounds { index: u32::MAX, max_entries: 4 })
    );
}

#[test]
fn roundtrip_without_program() {
    let mut map = extended_map(4, Vec::new());
    assert_eq!(map.set(2, 42, None, 0), Ok(()));
    assert_eq!(
        map.get(2, 0),
        Ok(DevMapValue { ifindex: 42, prog_id: 0 })
    );
}

#[test]
fn legacy_roundtrip_without_program() {
    let mut map = legacy_map(3);
    assert_eq!(map.set(1, 12, None, 0), Ok(()));
    assert_eq!(
        map.get(1, 0),
        Ok(DevMapValue { ifindex: 12, prog_id: 0 })
    );
}

#[test]
fn legacy_rejects_chained_program() {
    let mut map = legacy_map(4);
    let prog = ProgramFd::new(5);
    assert_eq!(
        map.set(1, 9, Some(&prog), 0),
        Err(MapError::ChainedProgramUnsupported)
    );
    // The rejection came before any update: the slot is still empty.
    assert_eq!(map.get(1, 0), Err(MapError::KeyNotFound));
}

#[test]
fn chained_program_reads_back_as_identifier() {
    let registry = vec![LoadedProgram { fd: 7, id: 42 }];
    let mut map = extended_map(4, registry);
    let prog = ProgramFd::new(7);
    assert_eq!(map.set(0, 10, Some(&prog), 0), Ok(()));
    let entry = match map.get(0, 0) {
        Ok(e) => e,
        Err(_) => panic!("entry was just written"),
    };
    assert_eq!(entry, DevMapValue { ifindex: 10, prog_id: 42 });
    // The identifier is the kernel's name for the program, never an echo of
    // the descriptor supplied on write.
    assert_ne!(entry.prog_id, prog.as_raw_fd() as u32);
}

#[test]
fn unregistered_program_fails_the_update_syscall() {
    let mut map = extended_map(2, Vec::new());
    let prog = ProgramFd::new(3);
    assert_eq!(
        map.set(0, 1, Some(&prog), 0),
        Err(MapError::SyscallError { call: Syscall::Update, errno: 9 })
    );
    assert_eq!(map.get(0, 0), Err(MapError::KeyNotFound));
}

#[test]
fn iter_yields_every_index_in_order() {
    let mut map = extended_map(4, Vec::new());
    assert_eq!(map.set(0, 5, None, 0), Ok(()));
    assert_eq!(map.set(2, 6, None, 0), Ok(()));
    let mut it = map.iter();
    assert_eq!(
        it.next(),
        Some(Ok(DevMapValue { ifindex: 5, prog_id: 0 }))
    );
    assert_eq!(it.next(), Some(Err(MapError::KeyNotFound)));
    assert_eq!(
        it.next(),
        Some(Ok(DevMapValue { ifindex: 6, prog_id: 0 }))
    );
    assert_eq!(it.next(), Some(Err(MapError::KeyNotFound)));
    assert_eq!(it.next(), None);
    assert_eq!(it.next(), None);
}

#[test]
fn iter_restarts_from_the_beginning() {
    let mut map = extended_map(2, Vec::new());
    assert_eq!(map.set(0, 8, None, 0), Ok(()));
    let mut first = map.iter();
    assert_eq!(
        first.next(),
        Some(Ok(DevMapValue { ifindex: 8, prog_id: 0 }))
    );
    let mut second = map.iter();
    assert_eq!(
        second.next(),
        Some(Ok(DevMapValue { ifindex: 8, prog_id: 0 }))
    );
}

#[test]
fn zero_capacity_table() {
    let mut map = extended_map(0, Vec::new());
    assert_eq!(map.len(), 0);
    let mut it = map.iter();
    assert_eq!(it.next(), None);
    assert_eq!(
        map.get(0, 0),
        Err(MapError::OutOfBounds { index: 0, max_entries: 0 })
    );
    assert_eq!(
        map.set(0, 1, None, 0),
        Err(MapError::OutOfBounds { index: 0, max_entries: 0 })
    );
}

#[test]
fn overwrite_replaces_the_entry() {
    let mut map = extended_map(1, Vec::new());
    assert_eq!(map.set(0, 1, None, 0), Ok(()));
    assert_eq!(map.set(0, 2, None, 0), Ok(()));
    assert_eq!(map.get(0, 0), Ok(DevMapValue { ifindex: 2, prog_id: 0 }));
}

#[test]
fn shape_mismatch_is_rejected_at_construction() {
    // Extended kernel, but the table was created with four-byte values.
    let data = MapData::new(4, 4, 4, Some(3), Vec::new());
    match DevMap::new(data, CapabilityFlag::resolve(true)) {
        Ok(_) => panic!("mismatched value size must be rejected"),
        Err(e) => assert_eq!(
            e,
            MapError::ShapeMismatch {
                expected_key_size: 4,
                expected_value_size: 8,
                found_key_size: 4,
                found_value_size: 4,
            }
        ),
    }
    // Legacy kernel, but the table was created with eight-byte values.
    let data = MapData::new(4, 8, 4, Some(3), Vec::new());
    match DevMap::new(data, CapabilityFlag::resolve(false)) {
        Ok(_) => panic!("mismatched value size must be rejected"),
        Err(e) => assert_eq!(
            e,
            MapError::ShapeMismatch {
                expected_key_size: 4,
                expected_value_size: 4,
                found_key_size: 4,
                found_value_size: 8,
            }
        ),
    }
    // Wrong key size.
    let data = MapData::new(8, 8, 4, Some(3), Vec::new());
    match DevMap::new(data, CapabilityFlag::resolve(true)) {
        Ok(_) => panic!("mismatched key size must be rejected"),
        Err(e) => assert_eq!(
            e,
            MapError::ShapeMismatch {
                expected_key_size: 4,
                expected_value_size: 8,
                found_key_size: 8,
                found_value_size: 8,
            }
        ),
    }
}

#[test]
fn unrealized_table_is_rejected_at_construction() {
    let data = MapData::new(4, 8, 4, None, Vec::new());
    match DevMap::new(data, CapabilityFlag::resolve(true)) {
        Ok(_) => panic!("a table without a descriptor must be rejected"),
        Err(e) => assert_eq!(e, MapError::HandleUnavailable),
    }
}

#[test]
fn iterable_map_capability_uses_default_flags() {
    let mut map = extended_map(2, Vec::new());
    assert_eq!(map.set(1, 77, None, 0), Ok(()));
    let by_key = <DevMap as IterableMap<u32, DevMapValue>>::get(&map, &1);
    assert_eq!(by_key, Ok(DevMapValue { ifindex: 77, prog_id: 0 }));
    let handle = <DevMap as IterableMap<u32, DevMapValue>>::map_data(&map);
    assert_eq!(handle.max_entries(), 2);
}

#[test]
fn socket_map_set_and_bounds() {
    let data = MapData::new(4, 4, 2, Some(5), Vec::new());
    let mut map = match XskMap::new(data) {
        Ok(m) => m,
        Err(_) => panic!("socket map construction failed"),
    };
    assert_eq!(map.len(), 2);
    assert_eq!(map.set(0, 33, 0), Ok(()));
    assert_eq!(map.set(1, -1, 0), Ok(()));
    assert_eq!(
        map.set(2, 33, 0),
        Err(MapError::OutOfBounds { index: 2, max_entries: 2 })
    );
}

#[test]
fn socket_map_shape_and_handle_are_validated() {
    let data = MapData::new(4, 8, 2, Some(5), Vec::new());
    match XskMap::new(data) {
        Ok(_) => panic!("mismatched value size must be rejected"),
        Err(e) => assert_eq!(
            e,
            MapError::ShapeMismatch {
                expected_key_size: 4,
                expected_value_size: 4,
                found_key_size: 4,
                found_value_size: 8,
            }
        ),
    }
    let data = MapData::new(4, 4, 2, None, Vec::new());
    match XskMap::new(data) {
        Ok(_) => panic!("a table without a descriptor must be rejected"),
        Err(e) => assert_eq!(e, MapError::HandleUnavailable),
    }
}
