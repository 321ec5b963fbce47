use adv_linalg_lib::vectors::{MutVector, Vector, VectorSlice};

fn samples() -> Vec<(Vec<i64>, Vec<i64>, Vec<i64>)> {
    vec![
        (vec![], vec![], vec![]),
        (vec![1], vec![2], vec![3]),
        (vec![1, 2, 3], vec![3, 2, 1], vec![-7, 0, 7]),
        (vec![-5, 40, 0, 9], vec![100, -100, 3, 3], vec![8, 8, -8, 1]),
        (vec![1 << 40, -(1 << 41)], vec![1 << 39, 1 << 39], vec![-1, 1]),
    ]
}

#[test]
fn addition_is_commutative() {
    for (a, b, _) in samples() {
        let a = Vector::from(a);
        let b = Vector::from(b);
        assert_eq!(a.add(&b), b.add(&a));
    }
}

#[test]
fn addition_is_associative() {
    for (a, b, c) in samples() {
        let a = Vector::from(a);
        let b = Vector::from(b);
        let c = Vector::from(c);
        let left_first = a.add(&b).unwrap().add(&c);
        let right_first = a.add(&b.add(&c).unwrap());
        assert_eq!(left_first, right_first);
    }
}

#[test]
fn adding_what_was_subtracted_restores_the_vector() {
    for (a, b, _) in samples() {
        let a = Vector::from(a);
        let b = Vector::from(b);
        assert_eq!(a.sub(&b).unwrap().add(&b), Ok(a.clone()));

        let mut buffer = MutVector::from(Vector::from(&a));
        buffer.sub(&b).unwrap().add(&b).unwrap();
        assert_eq!(Vector::from(buffer), a);
    }
}

#[test]
fn dot_product_is_symmetric() {
    for (a, b, c) in samples() {
        if a.iter().all(|x| x.abs() < 1 << 20) {
            let a = Vector::from(a);
            let b = Vector::from(b);
            let c = MutVector::from(c);
            assert_eq!(a.dot(&b), b.dot(&a));
            assert_eq!(a.dot(&c), c.dot(&a));
        }
    }
}

#[test]
fn mapping_twice_is_mapping_with_the_composition() {
    for (a, _, _) in samples() {
        let a = Vector::from(a);
        let twice = a.map(|x| x + 1).map(|y| y.to_string());
        let once = a.map(|x| (x + 1).to_string());
        assert_eq!(twice, once);

        let view: VectorSlice<i64> = a.as_slice(0..a.len()).unwrap();
        let mut buffer = MutVector::from(Vector::from(view));
        buffer.map_mut(|x| x * 3).map_mut(|y| y - 1);
        assert_eq!(Vector::from(buffer), a.map(|x| x * 3 - 1));
    }
}

#[test]
fn in_place_results_equal_fresh_results() {
    for (a, b, _) in samples() {
        let fresh_sum = Vector::from(a.clone()).add(&Vector::from(b.clone())).unwrap();
        let fresh_difference = Vector::from(a.clone()).sub(&Vector::from(b.clone())).unwrap();

        let mut left = MutVector::from(a.clone());
        left.add(&Vector::from(b.clone())).unwrap();
        assert_eq!(Vector::from(left), fresh_sum);

        let mut right = MutVector::from(b.clone());
        right.add_to(&Vector::from(a.clone())).unwrap();
        assert_eq!(Vector::from(right), fresh_sum);

        let mut left = MutVector::from(a.clone());
        left.sub(&Vector::from(b.clone())).unwrap();
        assert_eq!(Vector::from(left), fresh_difference);

        let mut right = MutVector::from(b.clone());
        right.sub_from(&Vector::from(a.clone())).unwrap();
        assert_eq!(Vector::from(right), fresh_difference);
    }
}

#[test]
fn in_place_operations_keep_the_length() {
    for (a, b, _) in samples() {
        let len = a.len();
        let other = Vector::from(b);
        let mut buffer = MutVector::from(a);
        assert_eq!(buffer.combine_mut(&other, |l, r| l ^ r).unwrap().len(), len);
        assert_eq!(buffer.combine_enumerate_mut(&other, |i, l, r| l ^ r ^ i as i64).unwrap().len(), len);
        assert_eq!(buffer.map_mut(|x| x / 2).len(), len);
        assert_eq!(buffer.add(&other).unwrap().len(), len);
        assert_eq!(buffer.sub(&other).unwrap().len(), len);
        assert_eq!(buffer.len(), len);
    }
}
