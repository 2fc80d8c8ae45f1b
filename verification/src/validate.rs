//! Bounds and shape validation.
//!
//! Both checks are pure and total: they compare a request against the
//! table's declared attributes and give a definite verdict. The shape check
//! runs once, at accessor construction; the bounds check runs on every get
//! or set, before any transport call.

use vstd::prelude::*;

use crate::errors::MapError;
use crate::table::MapData;

verus! {

/// The verdict of the bounds check: indices from zero up to, and excluding,
/// the table's capacity are in bounds.
pub open spec fn spec_check_bounds(max_entries: u32, index: u32) -> Result<(), MapError> {
    if index < max_entries {
        Ok(())
    } else {
        Err(MapError::OutOfBounds { index, max_entries })
    }
}

/// Rejects an index at or past the table's capacity.
pub fn check_bounds(data: &MapData, index: u32) -> (r: Result<(), MapError>)
    ensures
        r == spec_check_bounds(data@.max_entries, index),
{
    let max_entries = data.max_entries();
    if index < max_entries {
        Ok(())
    } else {
        Err(MapError::OutOfBounds { index, max_entries })
    }
}

/// The verdict of the shape check: the table's declared key and value sizes
/// must both equal the accessor's compiled-in shape.
pub open spec fn spec_check_kv_size(
    found_key_size: u32,
    found_value_size: u32,
    expected_key_size: u32,
    expected_value_size: u32,
) -> Result<(), MapError> {
    if found_key_size == expected_key_size && found_value_size == expected_value_size {
        Ok(())
    } else {
        Err(
            MapError::ShapeMismatch {
                expected_key_size,
                expected_value_size,
                found_key_size,
                found_value_size,
            },
        )
    }
}

/// Rejects a table whose declared key or value size disagrees with the
/// accessor's compiled-in shape.
pub fn check_kv_size(
    data: &MapData,
    expected_key_size: u32,
    expected_value_size: u32,
) -> (r: Result<(), MapError>)
    ensures
        r == spec_check_kv_size(
            data@.key_size,
            data@.value_size,
            expected_key_size,
            expected_value_size,
        ),
{
    let found_key_size = data.key_size();
    let found_value_size = data.value_size();
    if found_key_size == expected_key_size && found_value_size == expected_value_size {
        Ok(())
    } else {
        Err(
            MapError::ShapeMismatch {
                expected_key_size,
                expected_value_size,
                found_key_size,
                found_value_size,
            },
        )
    }
}

} // verus!
