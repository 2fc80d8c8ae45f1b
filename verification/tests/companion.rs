use xdp_maps::codec::{copy_bytes, read_u32_le, write_u32_le};
use xdp_maps::dev_map::DevMapValue;
use xdp_maps::dev_map_hash::{DevMapHash, PinningKind, DEV_MAP_HASH_TYPE, XDP_REDIRECT};
use xdp_maps::table::{MapData, ERRNO_INVALID, ERRNO_TOO_BIG};

#[test]
fn transport_primitives_report_kernel_errnos() {
    let mut data = MapData::new(4, 4, 2, Some(3), Vec::new());
    // A key past the capacity fails in the kernel as well.
    assert_eq!(data.lookup(2, 0), Err(ERRNO_TOO_BIG));
    assert_eq!(data.update(2, &vec![1, 0, 0, 0], 0), Err(ERRNO_TOO_BIG));
    // A value of the wrong length is refused outright.
    assert_eq!(data.update(0, &vec![1, 0], 0), Err(ERRNO_INVALID));
    // An empty slot reads back as absent; a stored one verbatim.
    assert_eq!(data.lookup(0, 0), Ok(None));
    assert_eq!(data.update(0, &vec![9, 0, 0, 0], 0), Ok(()));
    assert_eq!(data.lookup(0, 0), Ok(Some(vec![9, 0, 0, 0])));
}

#[test]
fn little_endian_words() {
    let mut bytes: Vec<u8> = Vec::new();
    write_u32_le(&mut bytes, 0xA1B2C3D4);
    assert_eq!(bytes, vec![0xD4, 0xC3, 0xB2, 0xA1]);
    assert_eq!(read_u32_le(&bytes, 0), 0xA1B2C3D4);
    write_u32_le(&mut bytes, 1);
    assert_eq!(bytes, vec![0xD4, 0xC3, 0xB2, 0xA1, 1, 0, 0, 0]);
    assert_eq!(read_u32_le(&bytes, 4), 1);
    let copied = copy_bytes(&bytes);
    assert_eq!(copied, bytes);
}

#[test]
fn hash_table_definitions() {
    let unpinned = DevMapHash::with_max_entries(64, 2);
    let def = unpinned.def();
    assert_eq!(def.map_type, DEV_MAP_HASH_TYPE);
    assert_eq!(def.key_size, 4);
    assert_eq!(def.value_size, 8);
    assert_eq!(def.max_entries, 64);
    assert_eq!(def.map_flags, 2);
    assert_eq!(def.id, 0);
    assert_eq!(def.pinning, PinningKind::Unpinned);

    let pinned = DevMapHash::pinned(16, 0);
    let def = pinned.def();
    assert_eq!(def.max_entries, 16);
    assert_eq!(def.map_flags, 0);
    assert_eq!(def.pinning, PinningKind::ByName);
}

#[test]
fn hash_table_lookup_and_population() {
    let mut table = DevMapHash::with_max_entries(2, 0);
    assert_eq!(table.get(5), None);
    let first = DevMapValue { ifindex: 1, prog_id: 0 };
    assert_eq!(table.update(5, first), Ok(()));
    assert_eq!(table.get(5), Some(first));
    assert_eq!(table.get(6), None);
    // Replacing an existing key never needs room.
    let second = DevMapValue { ifindex: 2, prog_id: 9 };
    assert_eq!(table.update(5, second), Ok(()));
    assert_eq!(table.get(5), Some(second));
    // A second distinct key fills the table; a third is refused.
    assert_eq!(table.update(6, first), Ok(()));
    assert_eq!(table.update(7, first), Err(7));
    assert_eq!(table.get(7), None);
    assert_eq!(table.update(6, second), Ok(()));
    assert_eq!(table.get(6), Some(second));
}

#[test]
fn redirect_status_propagates() {
    let mut table = DevMapHash::with_max_entries(4, 0);
    assert_eq!(table.update(3, DevMapValue { ifindex: 2, prog_id: 0 }), Ok(()));
    assert_eq!(table.redirect(3, 0), XDP_REDIRECT);
    // A miss returns the fallback action carried in the low flag bits.
    assert_eq!(table.redirect(9, 2), 2);
    assert_eq!(table.redirect(9, 0), 0);
}
