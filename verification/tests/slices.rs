use adv_linalg_lib::vectors::slicing::{range_fits, range_len, subslice, subslice_mut};
use adv_linalg_lib::vectors::{
    MutVector, MutVectorSlice, Vector, VectorError, VectorSlice, VectorType,
};

#[test]
fn views_of_the_whole_and_of_each_half() {
    let vector = Vector::from(vec![1, 2, 3, 4]);
    let len = vector.len();

    let full_view = vector.as_slice(0..len).unwrap();
    let lhs_view = vector.as_slice(0..len / 2).unwrap();
    let rhs_view = vector.as_slice(len / 2..len).unwrap();

    assert_eq!(Vector::from(vec![1, 2, 3, 4]), full_view.into());
    assert_eq!(Vector::from(vec![1, 2]), lhs_view.into());
    assert_eq!(Vector::from(vec![3, 4]), rhs_view.into());
}

#[test]
fn a_range_past_the_end_is_refused() {
    let vector = Vector::from(vec![1, 2, 3, 4]);
    assert_eq!(vector.as_slice(0..5), Err(VectorError::IndexOutOfRange));
    assert_eq!(vector.as_slice(4..5), Err(VectorError::IndexOutOfRange));
    assert_eq!(vector.as_slice(5..5), Err(VectorError::IndexOutOfRange));
    assert_eq!(vector.as_slice(5..2), Err(VectorError::IndexOutOfRange));
    assert_eq!(vector.as_slice(usize::MAX..usize::MAX), Err(VectorError::IndexOutOfRange));
    assert_eq!(vector.as_slice(1..usize::MAX), Err(VectorError::IndexOutOfRange));
    assert_eq!(vector, Vector::from(vec![1, 2, 3, 4]));
}

#[test]
fn ranges_that_select_nothing() {
    let vector = Vector::from(vec![1, 2, 3, 4]);
    assert_eq!(vector.as_slice(0..0).map(|view| view.len()), Ok(0));
    assert_eq!(vector.as_slice(4..4).map(|view| view.len()), Ok(0));
    assert_eq!(vector.as_slice(3..1).map(|view| view.len()), Ok(0));
    assert_eq!(vector.as_slice(4..0).map(|view| view.len()), Ok(0));
    let empty: Vector<i32> = Vector::from(Vec::new());
    assert_eq!(empty.as_slice(0..0).map(|view| view.len()), Ok(0));
    assert_eq!(empty.as_slice(0..1), Err(VectorError::IndexOutOfRange));
}

#[test]
fn how_many_positions_a_range_selects() {
    assert_eq!(range_len(&(0..4)), 4);
    assert_eq!(range_len(&(2..4)), 2);
    assert_eq!(range_len(&(4..4)), 0);
    assert_eq!(range_len(&(4..2)), 0);
    assert_eq!(range_len(&(0..usize::MAX)), usize::MAX);

    assert!(range_fits(&(0..4), 4));
    assert!(range_fits(&(4..4), 4));
    assert!(range_fits(&(4..1), 4));
    assert!(!range_fits(&(0..5), 4));
    assert!(!range_fits(&(5..5), 4));
    assert!(!range_fits(&(5..1), 4));
    assert!(!range_fits(&(1..usize::MAX), 4));
    assert!(range_fits(&(0..0), 0));
}

#[test]
fn every_vector_type_gives_read_only_views() {
    let vector = Vector::from(vec![1, 2, 3, 4]);
    let mut_vector = MutVector::from(vec![1, 2, 3, 4]);
    let mut storage = [1, 2, 3, 4];
    let mut_slice = MutVectorSlice::from(storage.as_mut_slice());
    let whole = vector.as_slice(0..4).unwrap();

    let expected = Vector::from(vec![2, 3]);
    assert_eq!(Vector::from(vector.as_slice(1..3).unwrap()), expected);
    assert_eq!(Vector::from(mut_vector.as_slice(1..3).unwrap()), expected);
    assert_eq!(Vector::from(mut_slice.as_slice(1..3).unwrap()), expected);
    assert_eq!(Vector::from(whole.as_slice(1..3).unwrap()), expected);

    assert_eq!(mut_vector.as_slice(1..5), Err(VectorError::IndexOutOfRange));
    assert_eq!(mut_slice.as_slice(1..5), Err(VectorError::IndexOutOfRange));
    assert_eq!(whole.as_slice(1..5), Err(VectorError::IndexOutOfRange));
}

#[test]
fn a_view_of_a_view_counts_from_the_start_of_the_view() {
    let vector = Vector::from(vec![10, 20, 30, 40, 50]);
    let outer = vector.as_slice(1..5).unwrap();
    let inner = outer.as_slice(1..3).unwrap();
    assert_eq!(Vector::from(inner), Vector::from(vec![30, 40]));
    assert_eq!(outer.as_slice(0..5), Err(VectorError::IndexOutOfRange));
}

#[test]
fn a_view_for_writing_writes_to_the_vector_it_was_taken_from() {
    let mut buffer = MutVector::from(vec![1, 2, 3, 4]);
    {
        let mut view = buffer.as_slice_mut(1..3).unwrap();
        assert_eq!(view.len(), 2);
        view.map_mut(|x| x * 10);
        view.set(0, 21).unwrap();
    }
    assert_eq!(buffer, MutVector::from(vec![1, 21, 30, 4]));
    assert_eq!(buffer.len(), 4);

    {
        let mut outer = buffer.as_slice_mut(0..4).unwrap();
        let mut inner = outer.as_slice_mut(2..4).unwrap();
        inner.map_index_mut(|i| i as i32);
    }
    assert_eq!(buffer, MutVector::from(vec![1, 21, 0, 1]));
}

#[test]
fn a_refused_view_for_writing_changes_nothing() {
    let mut buffer = MutVector::from(vec![1, 2, 3, 4]);
    assert_eq!(buffer.as_slice_mut(0..5).err(), Some(VectorError::IndexOutOfRange));
    assert_eq!(buffer.as_slice_mut(5..5).err(), Some(VectorError::IndexOutOfRange));
    assert_eq!(buffer, MutVector::from(vec![1, 2, 3, 4]));

    let mut storage = [1, 2, 3, 4];
    {
        let mut view = MutVectorSlice::from(storage.as_mut_slice());
        assert_eq!(view.as_slice_mut(2..5).err(), Some(VectorError::IndexOutOfRange));
        assert_eq!(view.as_slice_mut(3..1).map(|inner| inner.len()), Ok(0));
    }
    assert_eq!(storage, [1, 2, 3, 4]);
}

#[test]
fn elements_are_read_by_position() {
    let vector = Vector::from(vec![10, 20, 30]);
    assert_eq!(vector.get(0), Ok(&10));
    assert_eq!(vector.get(2), Ok(&30));
    assert_eq!(vector.get(3), Err(VectorError::IndexOutOfRange));
    assert_eq!(vector.get(usize::MAX), Err(VectorError::IndexOutOfRange));

    let view = vector.as_slice(1..3).unwrap();
    assert_eq!(view.get(0), Ok(&20));
    assert_eq!(view.get(1), Ok(&30));
    assert_eq!(view.get(2), Err(VectorError::IndexOutOfRange));

    let buffer = MutVector::from(vec![10, 20, 30]);
    assert_eq!(buffer.get(1), Ok(&20));
    assert_eq!(buffer.get(3), Err(VectorError::IndexOutOfRange));

    let empty: Vector<i32> = Vector::from(Vec::new());
    assert_eq!(empty.get(0), Err(VectorError::IndexOutOfRange));
}

#[test]
fn elements_are_written_by_position() {
    let mut buffer = MutVector::from(vec![10, 20, 30]);
    assert_eq!(buffer.set(1, 21), Ok(()));
    assert_eq!(buffer.set(3, 31), Err(VectorError::IndexOutOfRange));
    assert_eq!(buffer, MutVector::from(vec![10, 21, 30]));

    let mut storage = [10, 20, 30];
    {
        let mut view = MutVectorSlice::from(storage.as_mut_slice());
        assert_eq!(view.set(2, 32), Ok(()));
        assert_eq!(view.get(2), Ok(&32));
        assert_eq!(view.set(3, 33), Err(VectorError::IndexOutOfRange));
        assert_eq!(view.get(3), Err(VectorError::IndexOutOfRange));
    }
    assert_eq!(storage, [10, 20, 32]);
}

#[test]
fn lengths_of_every_vector_type() {
    let storage = [1, 2, 3];
    let mut viewed = [1, 2];
    assert_eq!(Vector::from(vec![1, 2, 3, 4]).len(), 4);
    assert_eq!(MutVector::from(vec![1]).len(), 1);
    assert_eq!(VectorSlice::from(storage.as_slice()).len(), 3);
    assert_eq!(MutVectorSlice::from(viewed.as_mut_slice()).len(), 2);
    assert_eq!(Vector::<u8>::from(Vec::new()).len(), 0);
    assert_eq!(VectorType::len(&Vector::from(vec![1, 2, 3, 4])), 4);
    assert_eq!(Vector::from(vec![1, 2, 3, 4]).elements(), [1, 2, 3, 4].as_slice());
}

#[test]
fn parts_of_plain_slices() {
    let items = [1, 2, 3, 4];
    assert_eq!(subslice(&items, 1..3), Ok([2, 3].as_slice()));
    assert_eq!(subslice(&items, 0..4), Ok(items.as_slice()));
    assert_eq!(subslice(&items, 2..1), Ok([].as_slice()));
    assert_eq!(subslice(&items, 3..5), Err(VectorError::IndexOutOfRange));

    let mut buffer = [1, 2, 3, 4];
    {
        let part = subslice_mut(&mut buffer, 1..3).unwrap();
        part[0] = 20;
        part[1] = 30;
    }
    assert_eq!(buffer, [1, 20, 30, 4]);
    assert_eq!(subslice_mut(&mut buffer, 0..5).err(), Some(VectorError::IndexOutOfRange));
    assert_eq!(buffer, [1, 20, 30, 4]);
}

#[test]
fn elements_are_read_with_brackets() {
    let vector = Vector::from(vec![10, 20, 30]);
    let buffer = MutVector::from(vec![10, 20, 30]);
    let view = vector.as_slice(1..3).unwrap();
    let mut storage = [10, 20, 30];
    let mut_view = MutVectorSlice::from(storage.as_mut_slice());
    assert_eq!(vector[0], 10);
    assert_eq!(vector[2], 30);
    assert_eq!(buffer[1], 20);
    assert_eq!(view[0], 20);
    assert_eq!(view[1], 30);
    assert_eq!(mut_view[2], 30);
}
