use stream_decoder::PartialBuffer;

#[test]
fn new_buffer_is_empty() {
    let b = PartialBuffer::new();
    assert_eq!(b.written_len(), 0);
    assert_eq!(b.unwritten_len(), 0);
}

#[test]
fn from_vec_tracks_split() {
    let mut b = PartialBuffer::from_vec(vec![1u8, 2, 3]);
    assert_eq!(b.written_len(), 0);
    assert_eq!(b.unwritten_len(), 3);
    assert_eq!(b.unwritten_at(0), 1);
    b.advance(2);
    assert_eq!(b.written_len(), 2);
    assert_eq!(b.unwritten_len(), 1);
    assert_eq!(b.unwritten_at(0), 3);
}

#[test]
fn write_next_appends_to_written_prefix() {
    let mut b = PartialBuffer::from_vec(vec![0u8, 0, 0]);
    b.write_next(7);
    b.write_next(9);
    assert_eq!(b.written_len(), 2);
    assert_eq!(b.take_written(), vec![7u8, 9]);
}

#[test]
fn grow_to_adds_free_capacity_only() {
    let mut b = PartialBuffer::from_vec(vec![4u8]);
    b.advance(1);
    b.grow_to(5);
    assert_eq!(b.written_len(), 1);
    assert_eq!(b.unwritten_len(), 4);
    assert_eq!(b.take_written(), vec![4u8]);
}

#[test]
fn copy_unwritten_moves_the_smaller_amount() {
    let mut dest = PartialBuffer::from_vec(vec![0u8, 0]);
    let mut src = PartialBuffer::from_vec(vec![5u8, 6, 7]);
    let n = dest.copy_unwritten_from(&mut src);
    assert_eq!(n, 2);
    assert_eq!(dest.take_written(), vec![5u8, 6]);
    assert_eq!(src.written_len(), 2);
    assert_eq!(src.unwritten_len(), 1);
    assert_eq!(src.unwritten_at(0), 7);
}

#[test]
fn take_written_leaves_the_remainder() {
    let mut b = PartialBuffer::from_vec(vec![1u8, 2, 3, 4]);
    b.advance(3);
    assert_eq!(b.take_written(), vec![1u8, 2, 3]);
    assert_eq!(b.written_len(), 0);
    assert_eq!(b.unwritten_len(), 1);
    assert_eq!(b.unwritten_at(0), 4);
}
