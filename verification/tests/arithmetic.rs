use adv_linalg_lib::vectors::arithmetic::{
    add_items, add_values, add_values_into_left, add_values_into_right, dot_values, mul_items,
    sub_items, sub_values, sub_values_into_left, sub_values_into_right,
};
use adv_linalg_lib::vectors::{
    MutVector, MutVectorSlice, Vector, VectorError, VectorSlice, VectorType,
};

#[test]
fn add_sub_dot_of_two_vectors() {
    let vector1 = Vector::from(vec![1, 2, 3]);
    let vector2 = Vector::from(vec![3, 2, 1]);

    assert_eq!(vector1.add(&vector2), Ok(Vector::from(vec![4, 4, 4])));
    assert_eq!(vector1.dot(&vector2), Ok(10));
    assert_eq!(vector1.sub(&vector2), Ok(Vector::from(vec![-2, 0, 2])));
}

#[test]
fn operands_that_cannot_be_written_give_a_new_vector() {
    let left = [1, 2, 3];
    let right = [3, 2, 1];
    let vector1 = Vector::from(vec![1, 2, 3]);
    let vector2 = Vector::from(vec![3, 2, 1]);
    let slice1 = VectorSlice::from(left.as_slice());
    let slice2 = VectorSlice::from(right.as_slice());
    let sum = Vector::from(vec![4, 4, 4]);
    let difference = Vector::from(vec![-2, 0, 2]);

    assert_eq!(vector1.add(&vector2), Ok(sum.clone()));
    assert_eq!(vector1.add(&slice2), Ok(sum.clone()));
    assert_eq!(slice1.add(&vector2), Ok(sum.clone()));
    assert_eq!(slice1.add(&slice2), Ok(sum.clone()));

    assert_eq!(vector1.sub(&vector2), Ok(difference.clone()));
    assert_eq!(vector1.sub(&slice2), Ok(difference.clone()));
    assert_eq!(slice1.sub(&vector2), Ok(difference.clone()));
    assert_eq!(slice1.sub(&slice2), Ok(difference.clone()));

    assert_eq!(vector1, Vector::from(vec![1, 2, 3]));
    assert_eq!(vector2, Vector::from(vec![3, 2, 1]));
    assert_eq!(left, [1, 2, 3]);
    assert_eq!(right, [3, 2, 1]);
}

#[test]
fn a_left_operand_that_can_be_written_receives_the_sum() {
    let vector = Vector::from(vec![3, 2, 1]);
    let storage = [3, 2, 1];
    let slice = VectorSlice::from(storage.as_slice());
    let mut_vector = MutVector::from(vec![3, 2, 1]);
    let mut other_storage = [3, 2, 1];
    let mut_slice = MutVectorSlice::from(other_storage.as_mut_slice());

    let mut left = MutVector::from(vec![1, 2, 3]);
    assert_eq!(left.add(&vector), Ok(&mut MutVector::from(vec![4, 4, 4])));
    assert_eq!(left, MutVector::from(vec![4, 4, 4]));
    assert_eq!(left.add(&slice), Ok(&mut MutVector::from(vec![7, 6, 5])));
    assert_eq!(left.add(&mut_vector), Ok(&mut MutVector::from(vec![10, 8, 6])));
    assert_eq!(left.add(&mut_slice), Ok(&mut MutVector::from(vec![13, 10, 7])));
    assert_eq!(left, MutVector::from(vec![13, 10, 7]));

    assert_eq!(vector, Vector::from(vec![3, 2, 1]));
    assert_eq!(mut_vector, MutVector::from(vec![3, 2, 1]));
    assert_eq!(mut_slice.elements(), [3, 2, 1].as_slice());
    assert_eq!(storage, [3, 2, 1]);
}

#[test]
fn a_left_operand_that_can_be_written_receives_the_difference() {
    let vector = Vector::from(vec![3, 2, 1]);
    let mut left = MutVector::from(vec![1, 2, 3]);
    assert_eq!(left.sub(&vector), Ok(&mut MutVector::from(vec![-2, 0, 2])));
    assert_eq!(left.sub(&vector), Ok(&mut MutVector::from(vec![-5, -2, 1])));
    assert_eq!(left, MutVector::from(vec![-5, -2, 1]));
    assert_eq!(vector, Vector::from(vec![3, 2, 1]));
}

#[test]
fn a_view_for_writing_receives_the_result_in_the_viewed_storage() {
    let vector = Vector::from(vec![3, 2, 1]);
    let mut storage = [1, 2, 3];
    {
        let mut view = MutVectorSlice::from(storage.as_mut_slice());
        view.add(&vector).unwrap();
        assert_eq!(view.elements(), [4, 4, 4].as_slice());
        view.sub(&vector).unwrap().sub(&vector).unwrap();
        assert_eq!(view.len(), 3);
    }
    assert_eq!(storage, [-2, 0, 2]);
}

#[test]
fn a_right_operand_that_can_be_written_receives_the_result() {
    let left = Vector::from(vec![10, 20, 30]);
    let storage = [10, 20, 30];
    let left_slice = VectorSlice::from(storage.as_slice());

    let mut right = MutVector::from(vec![1, 2, 3]);
    assert_eq!(right.add_to(&left), Ok(&mut MutVector::from(vec![11, 22, 33])));
    assert_eq!(right, MutVector::from(vec![11, 22, 33]));

    let mut right = MutVector::from(vec![1, 2, 3]);
    assert_eq!(right.sub_from(&left), Ok(&mut MutVector::from(vec![9, 18, 27])));
    assert_eq!(right.sub_from(&left_slice), Ok(&mut MutVector::from(vec![1, 2, 3])));
    assert_eq!(right, MutVector::from(vec![1, 2, 3]));

    let mut viewed = [1, 2, 3];
    {
        let mut view = MutVectorSlice::from(viewed.as_mut_slice());
        view.sub_from(&left).unwrap();
        assert_eq!(view.elements(), [9, 18, 27].as_slice());
        view.add_to(&left_slice).unwrap();
    }
    assert_eq!(viewed, [19, 38, 57]);
    assert_eq!(left, Vector::from(vec![10, 20, 30]));
}

#[test]
fn dot_product_changes_no_operand() {
    let vector = Vector::from(vec![3, 2, 1]);
    let storage = [3, 2, 1];
    let slice = VectorSlice::from(storage.as_slice());
    let mut_vector = MutVector::from(vec![1, 2, 3]);
    let mut viewed = [1, 2, 3];
    let mut_slice = MutVectorSlice::from(viewed.as_mut_slice());

    assert_eq!(mut_vector.dot(&vector), Ok(10));
    assert_eq!(mut_vector.dot(&slice), Ok(10));
    assert_eq!(mut_vector.dot(&mut_slice), Ok(14));
    assert_eq!(mut_vector.dot(&mut_vector), Ok(14));
    assert_eq!(mut_slice.dot(&vector), Ok(10));
    assert_eq!(mut_slice.dot(&mut_vector), Ok(14));
    assert_eq!(vector.dot(&mut_vector), Ok(10));
    assert_eq!(slice.dot(&mut_slice), Ok(10));
    assert_eq!(slice.dot(&slice), Ok(14));

    assert_eq!(mut_vector, MutVector::from(vec![1, 2, 3]));
    assert_eq!(mut_slice.elements(), [1, 2, 3].as_slice());
    assert_eq!(vector, Vector::from(vec![3, 2, 1]));
}

#[test]
fn dot_product_of_empty_vectors_is_the_default_value() {
    let empty: Vector<i64> = Vector::from(Vec::new());
    assert_eq!(empty.dot(&empty), Ok(0));
    assert_eq!(empty.add(&empty), Ok(Vector::from(Vec::new())));
}

#[test]
fn dot_product_adds_the_products_in_order() {
    let a = Vector::from(vec![2i64, -3, 5, 7]);
    let b = Vector::from(vec![11i64, 13, -17, 19]);
    assert_eq!(a.dot(&b), Ok(2 * 11 - 3 * 13 - 5 * 17 + 7 * 19));
    assert_eq!(a.dot(&b), Ok(31));
}

#[test]
fn repeated_reuse_of_one_buffer() {
    let mut buffer = MutVector::from(vec![0, 0, 0, 1]);
    let vector2 = Vector::from(vec![0, 0, 1, 0]);
    let vector3 = Vector::from(vec![0, 1, 0, 0]);
    let vector4 = Vector::from(vec![1, 0, 0, 0]);

    buffer.add(&vector2).unwrap().add(&vector3).unwrap().add(&vector4).unwrap();

    assert_eq!(buffer.len(), 4);
    assert_eq!(Vector::from(buffer), Vector::from(vec![1, 1, 1, 1]));
}

#[test]
fn reuse_keeps_the_buffer_where_it_is() {
    let mut storage = vec![0, 0, 0, 1];
    storage.shrink_to_fit();
    let mut buffer = MutVector::from(storage);
    let address = format!("{:p}", buffer.elements());

    buffer.add(&Vector::from(vec![0, 0, 1, 0])).unwrap();
    buffer.add(&Vector::from(vec![0, 1, 0, 0])).unwrap();
    buffer.add(&Vector::from(vec![1, 0, 0, 0])).unwrap();

    assert_eq!(format!("{:p}", buffer.elements()), address);
    assert_eq!(buffer, MutVector::from(vec![1, 1, 1, 1]));
}

#[test]
fn add_of_different_lengths_is_refused() {
    let vector1 = Vector::from(vec![1, 2, 3]);
    let vector2 = Vector::from(vec![3, 2]);
    assert_eq!(vector1.add(&vector2), Err(VectorError::SizeMismatch));
    assert_eq!(vector2.add(&vector1), Err(VectorError::SizeMismatch));
    assert_eq!(vector1, Vector::from(vec![1, 2, 3]));
    assert_eq!(vector2, Vector::from(vec![3, 2]));
}

#[test]
fn sub_of_different_lengths_is_refused() {
    let vector1 = Vector::from(vec![1, 2, 3]);
    let empty: Vector<i32> = Vector::from(Vec::new());
    assert_eq!(vector1.sub(&empty), Err(VectorError::SizeMismatch));
    assert_eq!(empty.sub(&vector1), Err(VectorError::SizeMismatch));
    assert_eq!(vector1, Vector::from(vec![1, 2, 3]));
}

#[test]
fn dot_of_different_lengths_is_refused() {
    let vector1 = Vector::from(vec![1, 2, 3]);
    let vector2 = MutVector::from(vec![1, 2, 3, 4]);
    assert_eq!(vector1.dot(&vector2), Err(VectorError::SizeMismatch));
    assert_eq!(vector2.dot(&vector1), Err(VectorError::SizeMismatch));
    assert_eq!(vector1, Vector::from(vec![1, 2, 3]));
    assert_eq!(vector2, MutVector::from(vec![1, 2, 3, 4]));
}

#[test]
fn refused_in_place_operations_write_nothing() {
    let short = Vector::from(vec![5, 5]);
    let mut buffer = MutVector::from(vec![1, 2, 3]);

    assert_eq!(buffer.add(&short), Err(VectorError::SizeMismatch));
    assert_eq!(buffer, MutVector::from(vec![1, 2, 3]));
    assert_eq!(buffer.sub(&short), Err(VectorError::SizeMismatch));
    assert_eq!(buffer, MutVector::from(vec![1, 2, 3]));
    assert_eq!(buffer.add_to(&short), Err(VectorError::SizeMismatch));
    assert_eq!(buffer, MutVector::from(vec![1, 2, 3]));
    assert_eq!(buffer.sub_from(&short), Err(VectorError::SizeMismatch));
    assert_eq!(buffer, MutVector::from(vec![1, 2, 3]));
    assert_eq!(short, Vector::from(vec![5, 5]));

    let mut storage = [1, 2, 3];
    {
        let mut view = MutVectorSlice::from(storage.as_mut_slice());
        assert_eq!(view.add(&short).err(), Some(VectorError::SizeMismatch));
        assert_eq!(view.sub(&short).err(), Some(VectorError::SizeMismatch));
        assert_eq!(view.add_to(&short).err(), Some(VectorError::SizeMismatch));
        assert_eq!(view.sub_from(&short).err(), Some(VectorError::SizeMismatch));
        assert_eq!(view.elements(), [1, 2, 3].as_slice());
    }
    assert_eq!(storage, [1, 2, 3]);
}

#[test]
fn single_elements_are_cloned_and_combined() {
    assert_eq!(add_items(&7, &35), 42);
    assert_eq!(sub_items(&7, &35), -28);
    assert_eq!(mul_items(&7, &6), 42);
    assert_eq!(sub_items(&35u8, &7u8), 28u8);
}

#[test]
fn arithmetic_on_plain_slices() {
    let a = [1, 2, 3];
    let b = [30, 20, 10];
    assert_eq!(add_values(&a, &b), Ok(vec![31, 22, 13]));
    assert_eq!(sub_values(&a, &b), Ok(vec![-29, -18, -7]));
    assert_eq!(dot_values(&a, &b), Ok(100));
    assert_eq!(add_values(&a, &b[..2]), Err(VectorError::SizeMismatch));
    assert_eq!(sub_values(&a[..1], &b), Err(VectorError::SizeMismatch));
    assert_eq!(dot_values(&a, &b[1..]), Err(VectorError::SizeMismatch));

    let mut left = [1, 2, 3];
    assert_eq!(add_values_into_left(&mut left, &b), Ok(()));
    assert_eq!(left, [31, 22, 13]);
    assert_eq!(sub_values_into_left(&mut left, &a), Ok(()));
    assert_eq!(left, [30, 20, 10]);
    assert_eq!(add_values_into_left(&mut left, &b[..2]), Err(VectorError::SizeMismatch));
    assert_eq!(sub_values_into_left(&mut left, &b[..2]), Err(VectorError::SizeMismatch));
    assert_eq!(left, [30, 20, 10]);

    let mut right = [1, 2, 3];
    assert_eq!(add_values_into_right(&b, &mut right), Ok(()));
    assert_eq!(right, [31, 22, 13]);
    assert_eq!(sub_values_into_right(&b, &mut right), Ok(()));
    assert_eq!(right, [-1, -2, -3]);
    assert_eq!(add_values_into_right(&b[..2], &mut right), Err(VectorError::SizeMismatch));
    assert_eq!(sub_values_into_right(&b[..2], &mut right), Err(VectorError::SizeMismatch));
    assert_eq!(right, [-1, -2, -3]);
    assert_eq!(b, [30, 20, 10]);
}
