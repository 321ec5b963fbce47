use adv_linalg_lib::prelude::{MutVector, MutVectorSlice, Vector, VectorSlice};
use std::cmp::Ordering;
use adv_linalg_lib::vectors::conversions::clone_values;
use adv_linalg_lib::vectors::equality::slices_equal;
use adv_linalg_lib::vectors::order::compare_slices;
use adv_linalg_lib::vectors::VectorType;

#[test]
fn owned_vectors_take_a_buffer_over() {
    let vector1 = Vector::from(vec![1, 2, 3]);
    assert_eq!(vector1.elements(), [1, 2, 3].as_slice());

    let mut_vector1 = MutVector::from(vec![1, 2, 3]);
    let mut_vector2 = MutVector::from(Vector::from(vec![1, 2, 3]));
    assert_eq!(mut_vector1, mut_vector2);

    let back = Vector::from(mut_vector2);
    assert_eq!(back, vector1);
}

#[test]
fn taking_a_buffer_over_does_not_move_the_elements() {
    let storage = vec![1, 2, 3];
    let address = format!("{:p}", storage.as_slice());
    let vector = Vector::from(storage);
    assert_eq!(format!("{:p}", vector.elements()), address);
    let buffer = MutVector::from(vector);
    assert_eq!(format!("{:p}", buffer.elements()), address);
    let vector = Vector::from(buffer);
    assert_eq!(format!("{:p}", vector.elements()), address);
}

#[test]
fn views_look_at_the_slice_they_were_made_from() {
    let vector1 = Vector::from(vec![1, 2, 3]);
    let vector_slice1: VectorSlice<i32> = vector1.as_slice(0..vector1.len()).unwrap();
    let vector_slice2 = VectorSlice::from([1, 2, 3].as_slice());
    assert_eq!(vector_slice1, vector_slice2);

    let mut mut_vector1 = MutVector::from(vec![1, 2, 3]);
    let len = mut_vector1.len();
    let mut_vector_slice1 = mut_vector1.as_slice_mut(0..len).unwrap();
    let mut binding = [1, 2, 3];
    let mut_vector_slice2 = MutVectorSlice::from(binding.as_mut_slice());
    assert_eq!(mut_vector_slice1, mut_vector_slice2);

    let storage = [1, 2, 3];
    let view = VectorSlice::from(storage.as_slice());
    assert_eq!(format!("{:p}", view.elements()), format!("{:p}", storage.as_slice()));
}

#[test]
fn an_owned_vector_is_cloned_from_whatever_lends_its_elements() {
    let expected = Vector::from(vec![1, 2, 3]);
    let storage = [1, 2, 3];
    let mut viewed = [1, 2, 3];
    let mut buffer = MutVector::from(vec![1, 2, 3]);

    assert_eq!(Vector::from(storage.as_slice()), expected);
    assert_eq!(Vector::from(&expected), expected);
    assert_eq!(Vector::from(&buffer), expected);
    assert_eq!(Vector::from(&mut buffer), expected);
    assert_eq!(Vector::from(VectorSlice::from(storage.as_slice())), expected);
    assert_eq!(Vector::from(&VectorSlice::from(storage.as_slice())), expected);
    assert_eq!(Vector::from(viewed.as_mut_slice()), expected);
    {
        let mut view = MutVectorSlice::from(viewed.as_mut_slice());
        assert_eq!(Vector::from(&view), expected);
        assert_eq!(Vector::from(&mut view), expected);
        assert_eq!(Vector::from(view), expected);
    }
    assert_eq!(buffer, MutVector::from(vec![1, 2, 3]));
    assert_eq!(viewed, [1, 2, 3]);
    assert_eq!(storage, [1, 2, 3]);
}

#[test]
fn a_cloned_vector_has_elements_of_its_own() {
    let source = MutVector::from(vec![String::from("a"), String::from("b")]);
    let copy = Vector::from(&source);
    let mut source = source;
    source.map_mut(|text| text.to_uppercase());
    assert_eq!(copy, Vector::from(vec![String::from("a"), String::from("b")]));
    assert_eq!(source, MutVector::from(vec![String::from("A"), String::from("B")]));
    assert_eq!(clone_values(&[7, 8, 9]), vec![7, 8, 9]);
    assert_eq!(clone_values::<i32>(&[]), Vec::<i32>::new());
}

#[test]
fn vectors_compare_element_by_element() {
    assert_eq!(Vector::from(vec![1, 2, 3]), Vector::from(vec![1, 2, 3]));
    assert_ne!(Vector::from(vec![1, 2, 3]), Vector::from(vec![1, 2, 4]));
    assert_ne!(Vector::from(vec![1, 2, 3]), Vector::from(vec![1, 2]));
    assert!(Vector::from(vec![1, 2, 3]) < Vector::from(vec![1, 2, 4]));
    assert!(Vector::from(vec![1, 2]) < Vector::from(vec![1, 2, 0]));
    assert!(MutVector::from(vec![2]) > MutVector::from(vec![1, 9, 9]));
    assert_eq!(Vector::<i32>::default(), Vector::from(Vec::new()));
    assert_eq!(MutVector::<i32>::default().len(), 0);
    assert_eq!(VectorSlice::<i32>::default().len(), 0);
    assert_eq!(MutVectorSlice::<i32>::default().len(), 0);
    let vector = Vector::from(vec![1, 2, 3]);
    assert_eq!(vector.clone(), vector);
}

#[test]
fn vectors_are_ordered_like_words_in_a_dictionary() {
    let cases: Vec<(Vec<i32>, Vec<i32>, Ordering)> = vec![
        (vec![], vec![], Ordering::Equal),
        (vec![], vec![0], Ordering::Less),
        (vec![0], vec![], Ordering::Greater),
        (vec![1, 2, 3], vec![1, 2, 3], Ordering::Equal),
        (vec![1, 2, 3], vec![1, 2, 4], Ordering::Less),
        (vec![1, 3], vec![1, 2, 4], Ordering::Greater),
        (vec![1, 2], vec![1, 2, 0], Ordering::Less),
        (vec![2], vec![1, 9, 9], Ordering::Greater),
    ];
    for (a, b, expected) in cases {
        let mut a_copy = a.clone();
        let mut b_copy = b.clone();
        assert_eq!(Vector::from(a.clone()).partial_cmp(&Vector::from(b.clone())), Some(expected));
        assert_eq!(Vector::from(a.clone()).cmp(&Vector::from(b.clone())), expected);
        assert_eq!(MutVector::from(a.clone()).partial_cmp(&MutVector::from(b.clone())), Some(expected));
        assert_eq!(MutVector::from(a.clone()).cmp(&MutVector::from(b.clone())), expected);
        assert_eq!(
            VectorSlice::from(a.as_slice()).partial_cmp(&VectorSlice::from(b.as_slice())),
            Some(expected)
        );
        assert_eq!(VectorSlice::from(a.as_slice()).cmp(&VectorSlice::from(b.as_slice())), expected);
        assert_eq!(
            MutVectorSlice::from(a_copy.as_mut_slice())
                .partial_cmp(&MutVectorSlice::from(b_copy.as_mut_slice())),
            Some(expected)
        );
        assert_eq!(Vector::from(a.clone()) == Vector::from(b.clone()), expected == Ordering::Equal);
        assert_eq!(
            VectorSlice::from(a.as_slice()) == VectorSlice::from(b.as_slice()),
            expected == Ordering::Equal
        );
        assert_eq!(
            MutVector::from(a.clone()) == MutVector::from(b.clone()),
            expected == Ordering::Equal
        );
    }
}

#[test]
fn elements_without_an_order_leave_vectors_without_one() {
    let a = Vector::from(vec![1.0, f64::NAN, 3.0]);
    let b = Vector::from(vec![1.0, 2.0, 3.0]);
    let c = Vector::from(vec![0.5, f64::NAN]);
    assert_eq!(a.partial_cmp(&b), None);
    assert_eq!(c.partial_cmp(&a), Some(Ordering::Less));
    assert!(a != a);
    assert!(b == b);
}

#[test]
fn plain_slices_are_compared_and_ordered() {
    assert!(slices_equal(&[1, 2, 3], &[1, 2, 3]));
    assert!(!slices_equal(&[1, 2, 3], &[1, 2, 4]));
    assert!(!slices_equal(&[1, 2, 3], &[1, 2]));
    assert!(slices_equal::<i32>(&[], &[]));
    assert_eq!(compare_slices(&[1, 2, 3], &[1, 2, 3]), Some(Ordering::Equal));
    assert_eq!(compare_slices(&[1, 2], &[1, 2, 3]), Some(Ordering::Less));
    assert_eq!(compare_slices(&[1, 3], &[1, 2, 3]), Some(Ordering::Greater));
    assert_eq!(compare_slices(&[0], &[]), Some(Ordering::Greater));
    assert_eq!(compare_slices(&[f32::NAN], &[1.0]), None);
}
