use horde_attack::raw_pointer_study::{raw_pointer, write_at_address, write_at_offset, OffsetError};

#[test]
fn raw_pointer_sets_third_and_fourth() {
    let array = raw_pointer(0.0f32, 9.999f32, 3.3333f32);
    assert_eq!(array, vec![0.0f32, 0.0, 9.999, 3.3333, 0.0]);
}

#[test]
fn raw_pointer_on_integers() {
    assert_eq!(raw_pointer(1u64, 7, 8), vec![1, 1, 7, 8, 1]);
}

#[test]
fn address_write_matches_indexed_write() {
    let mut by_address = vec![0u32; 5];
    let mut by_offset = vec![0u32; 5];
    let mut by_index = vec![0u32; 5];
    assert_eq!(write_at_address(&mut by_address, 1000, 1000 + 4 * 4, 9), Ok(()));
    assert_eq!(write_at_offset(&mut by_offset, 1, 3, 9), Ok(()));
    by_index[4] = 9;
    assert_eq!(by_address, by_index);
    assert_eq!(by_offset, by_index);
}

#[test]
fn address_out_of_bounds_is_refused() {
    let mut buf = vec![0u32; 5];
    assert_eq!(write_at_address(&mut buf, 1000, 1000 + 5 * 4, 9), Err(OffsetError::OutOfBoundsOffset));
    assert_eq!(write_at_address(&mut buf, 1000, 996, 9), Err(OffsetError::OutOfBoundsOffset));
    assert_eq!(write_at_address(&mut buf, 1000, 1002, 9), Err(OffsetError::OutOfBoundsOffset));
    assert_eq!(buf, vec![0u32; 5]);
}

#[test]
fn offset_out_of_bounds_is_refused() {
    let mut buf = vec![0u8; 5];
    assert_eq!(write_at_offset(&mut buf, 2, 3, 1), Err(OffsetError::OutOfBoundsOffset));
    assert_eq!(write_at_offset(&mut buf, 5, 0, 1), Err(OffsetError::OutOfBoundsOffset));
    assert_eq!(write_at_offset(&mut buf, usize::MAX, usize::MAX, 1), Err(OffsetError::OutOfBoundsOffset));
    assert_eq!(buf, vec![0u8; 5]);
    assert_eq!(write_at_offset(&mut buf, 2, 2, 1), Ok(()));
    assert_eq!(buf, vec![0, 0, 0, 0, 1]);
}
