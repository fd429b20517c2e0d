use parallel_matrix::{dot_product, MultiplyError, Scalar, Vector};

#[test]
fn dot_product_sums_the_products() {
    let row = Vector::new(vec![1, 2, 3]);
    let col = Vector::new(vec![7, 9, 11]);
    assert_eq!(dot_product(row, col), Ok(58));
}

#[test]
fn dot_product_of_empty_vectors_is_zero() {
    let row: Vector<i64> = Vector::new(vec![]);
    let col: Vector<i64> = Vector::new(vec![]);
    assert_eq!(dot_product(row, col), Ok(0));
}

#[test]
fn dot_product_rejects_different_lengths() {
    let row = Vector::new(vec![1, 2, 3]);
    let col = Vector::new(vec![1, 2]);
    assert_eq!(dot_product(row, col), Err(MultiplyError::DimensionMismatch));
    let row: Vector<u64> = Vector::new(vec![]);
    let col = Vector::new(vec![1]);
    assert_eq!(dot_product(row, col), Err(MultiplyError::DimensionMismatch));
}

#[test]
fn dot_product_with_negative_values() {
    let row = Vector::new(vec![-2i64, 3, -5]);
    let col = Vector::new(vec![4i64, -1, -6]);
    assert_eq!(dot_product(row, col), Ok(-8 - 3 + 30));
}

#[test]
fn vector_keeps_its_elements() {
    let v = Vector::new(vec![5u32, 6, 7]);
    assert_eq!(v.len(), 3);
    assert_eq!(*v.get(0), 5);
    assert_eq!(*v.get(2), 7);
}

#[test]
fn integer_scalars_have_zero_as_seed() {
    assert_eq!(<i32 as Scalar>::zero(), 0);
    assert_eq!(<i64 as Scalar>::zero(), 0);
    assert_eq!(<u32 as Scalar>::zero(), 0);
    assert_eq!(<u64 as Scalar>::zero(), 0);
}

#[test]
fn integer_scalars_add_and_multiply() {
    assert_eq!(Scalar::plus(20i32, 22), 42);
    assert_eq!(Scalar::times(-6i32, 7), -42);
    assert_eq!(Scalar::plus(20i64, -22), -2);
    assert_eq!(Scalar::times(6i64, 7), 42);
    assert_eq!(Scalar::plus(20u32, 22), 42);
    assert_eq!(Scalar::times(6u32, 7), 42);
    assert_eq!(Scalar::plus(20u64, 22), 42);
    assert_eq!(Scalar::times(6u64, 7), 42);
}

#[test]
fn integer_scalars_wrap_around() {
    assert_eq!(Scalar::plus(i32::MAX, 1), i32::MIN);
    assert_eq!(Scalar::times(i32::MAX, 2), -2);
    assert_eq!(Scalar::plus(i64::MIN, -1), i64::MAX);
    assert_eq!(Scalar::times(i64::MAX, 2), -2);
    assert_eq!(Scalar::plus(u32::MAX, 1), 0);
    assert_eq!(Scalar::times(u32::MAX, 2), u32::MAX - 1);
    assert_eq!(Scalar::plus(u64::MAX, 2), 1);
    assert_eq!(Scalar::times(u64::MAX, u64::MAX), 1);
}

#[test]
fn every_integer_width_is_a_scalar() {
    assert_eq!(Scalar::plus(u8::MAX, 3), 2);
    assert_eq!(Scalar::times(16u8, 17), 16);
    assert_eq!(Scalar::plus(i8::MIN, -1), i8::MAX);
    assert_eq!(Scalar::times(-3i8, 50), 106);
    assert_eq!(Scalar::plus(u16::MAX, 1), 0);
    assert_eq!(Scalar::times(300u16, 300), 24464);
    assert_eq!(Scalar::plus(i16::MAX, 1), i16::MIN);
    assert_eq!(Scalar::times(-200i16, 200), 25536);
    assert_eq!(Scalar::plus(u128::MAX, 1), 0);
    assert_eq!(Scalar::times(u128::MAX, 2), u128::MAX - 1);
    assert_eq!(Scalar::plus(i128::MAX, 1), i128::MIN);
    assert_eq!(Scalar::times(-7i128, 6), -42);
    assert_eq!(Scalar::plus(usize::MAX, 1), 0);
    assert_eq!(Scalar::times(6usize, 7), 42);
    assert_eq!(Scalar::plus(isize::MAX, 1), isize::MIN);
    assert_eq!(Scalar::times(-6isize, 7), -42);
    assert_eq!(<u8 as Scalar>::zero(), 0);
    assert_eq!(<i128 as Scalar>::zero(), 0);
    assert_eq!(<usize as Scalar>::zero(), 0);
}

#[test]
fn dot_product_wraps_like_its_scalar() {
    let row = Vector::new(vec![i32::MAX, 1]);
    let col = Vector::new(vec![1, 1]);
    assert_eq!(dot_product(row, col), Ok(i32::MIN));
}
