use scoreboard::mem::{memcmp, memcpy, memmove, memset};

#[test]
fn memcpy_copies_prefix_only() {
    let mut dest = [9u8, 9, 9, 9, 9];
    memcpy(&mut dest, &[1, 2, 3, 4], 3);
    assert_eq!(dest, [1, 2, 3, 9, 9]);
}

#[test]
fn memcpy_zero_bytes_changes_nothing() {
    let mut dest = [5u8, 6];
    memcpy(&mut dest, &[], 0);
    assert_eq!(dest, [5, 6]);
}

#[test]
fn memmove_forward_overlap() {
    let mut buf = [1u8, 2, 3, 4, 5, 6];
    memmove(&mut buf, 0, 2, 4);
    assert_eq!(buf, [3, 4, 5, 6, 5, 6]);
}

#[test]
fn memmove_backward_overlap() {
    let mut buf = [1u8, 2, 3, 4, 5, 6];
    memmove(&mut buf, 2, 0, 4);
    assert_eq!(buf, [1, 2, 1, 2, 3, 4]);
}

#[test]
fn memmove_in_place_is_identity() {
    let mut buf = [7u8, 8, 9];
    memmove(&mut buf, 1, 1, 2);
    assert_eq!(buf, [7, 8, 9]);
}

#[test]
fn memmove_disjoint_copies() {
    let mut buf = [1u8, 2, 0, 0, 0];
    memmove(&mut buf, 3, 0, 2);
    assert_eq!(buf, [1, 2, 0, 1, 2]);
}

#[test]
fn memset_uses_low_byte() {
    let mut dest = [0u8; 4];
    memset(&mut dest, 0x141, 3);
    assert_eq!(dest, [0x41, 0x41, 0x41, 0]);
}

#[test]
fn memset_negative_value() {
    let mut dest = [0u8; 2];
    memset(&mut dest, -1, 2);
    assert_eq!(dest, [0xff, 0xff]);
}

#[test]
fn memcmp_equal_is_zero() {
    assert_eq!(memcmp(&[1, 2, 3], &[1, 2, 3], 3), 0);
    assert_eq!(memcmp(&[1, 2, 3], &[1, 2, 4], 2), 0);
}

#[test]
fn memcmp_first_difference() {
    assert_eq!(memcmp(&[1, 2, 200, 0], &[1, 2, 3, 255], 4), 197);
    assert_eq!(memcmp(&[1, 2, 3, 255], &[1, 2, 200, 0], 4), -197);
}

#[test]
fn memcmp_antisymmetric_example() {
    let a = [10u8, 0, 5];
    let b = [10u8, 1, 0];
    assert_eq!(memcmp(&a, &b, 3), -memcmp(&b, &a, 3));
}

#[test]
fn memcpy_then_memcmp_is_zero() {
    let src = [4u8, 5, 6, 7];
    let mut dest = [0u8; 6];
    memcpy(&mut dest, &src, 4);
    assert_eq!(memcmp(&dest, &src, 4), 0);
}
