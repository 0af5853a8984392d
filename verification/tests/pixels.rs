use hello_samples::pixels::copy_rows;

#[test]
fn rows_are_spread_to_a_wider_pitch() {
    let src = [1u8, 2, 3, 4, 5, 6];
    let mut dst = [0u8; 12];
    copy_rows(&src, 2, &mut dst, 4, 2, 3);
    assert_eq!(dst, [1, 2, 0, 0, 3, 4, 0, 0, 5, 6, 0, 0]);
}

#[test]
fn rows_are_packed_from_a_wider_pitch() {
    let src = [1u8, 2, 9, 9, 3, 4, 9, 9, 5, 6];
    let mut dst = [0u8; 7];
    copy_rows(&src, 4, &mut dst, 2, 2, 3);
    assert_eq!(dst, [1, 2, 3, 4, 5, 6, 0]);
}

#[test]
fn bytes_between_rows_are_left_alone() {
    let src = [10u8, 11, 12, 13];
    let mut dst = [7u8; 9];
    copy_rows(&src, 2, &mut dst, 5, 2, 2);
    assert_eq!(dst, [10, 11, 7, 7, 7, 12, 13, 7, 7]);
}

#[test]
fn last_row_needs_no_full_pitch() {
    let src = [1u8, 2, 3, 4, 5];
    let mut dst = [0u8; 5];
    copy_rows(&src, 3, &mut dst, 3, 2, 2);
    assert_eq!(dst, [1, 2, 0, 4, 5]);
}

#[test]
fn nothing_is_copied_without_rows_or_bytes() {
    let src = [1u8, 2, 3];
    let mut dst = [7u8; 3];
    copy_rows(&src, 1, &mut dst, 1, 1, 0);
    assert_eq!(dst, [7, 7, 7]);
    copy_rows(&src, 1, &mut dst, 1, 0, 3);
    assert_eq!(dst, [7, 7, 7]);
    copy_rows(&[], 0, &mut [], 0, 0, 5);
}

#[test]
fn later_row_wins_where_rows_overlap() {
    let src = [1u8, 2, 3, 4, 5, 6];
    let mut dst = [0u8; 5];
    copy_rows(&src, 3, &mut dst, 1, 3, 2);
    assert_eq!(dst, [1, 4, 5, 6, 0]);
}

#[test]
fn same_row_can_be_copied_many_times() {
    let src = [8u8, 9];
    let mut dst = [0u8; 6];
    copy_rows(&src, 0, &mut dst, 2, 2, 3);
    assert_eq!(dst, [8, 9, 8, 9, 8, 9]);
}
