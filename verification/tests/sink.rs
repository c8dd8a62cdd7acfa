use las::Cursor;

#[test]
fn cursor_overwrites_and_grows() {
    let mut cursor = Cursor::new(vec![1, 2, 3, 4]);
    cursor.set_position(2);
    cursor.write_all(&[9, 8, 7]);
    assert_eq!(5, cursor.position());
    assert_eq!(&vec![1, 2, 9, 8, 7], cursor.get_ref());
    cursor.rewind();
    cursor.write_all(&[5]);
    assert_eq!(1, cursor.position());
    assert_eq!(&vec![5, 2, 9, 8, 7], cursor.get_ref());
}

#[test]
fn cursor_fills_a_gap_with_zeros() {
    let mut cursor = Cursor::new(vec![5, 2]);
    cursor.set_position(4);
    cursor.write_all(&[]);
    assert_eq!(&vec![5, 2], cursor.get_ref());
    assert_eq!(4, cursor.position());
    cursor.write_all(&[6]);
    assert_eq!(5, cursor.position());
    assert_eq!(vec![5, 2, 0, 0, 6], cursor.into_inner());
}

#[test]
fn cursor_writes_inside_the_buffer() {
    let mut cursor = Cursor::new(vec![1, 2, 3, 4, 5]);
    cursor.set_position(1);
    cursor.write_all(&[7, 8]);
    assert_eq!(3, cursor.position());
    assert_eq!(vec![1, 7, 8, 4, 5], cursor.into_inner());
}
