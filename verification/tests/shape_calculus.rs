use gpt_neo_attention::shape::broadcast_shapes;
use gpt_neo_attention::shape::matmul_result_shape;
use gpt_neo_attention::shape::transpose_last_two;

#[test]
fn broadcast_equal_shapes() {
    let a = vec![2i64, 3, 4];
    let b = vec![2i64, 3, 4];
    assert_eq!(broadcast_shapes(&a, &b), vec![2, 3, 4]);
}

#[test]
fn broadcast_stretches_singletons() {
    let a = vec![2i64, 1];
    let b = vec![1i64, 3];
    assert_eq!(broadcast_shapes(&a, &b), vec![2, 3]);
}

#[test]
fn broadcast_aligns_from_the_right() {
    let a = vec![3i64, 1, 5];
    let b = vec![4i64, 5];
    assert_eq!(broadcast_shapes(&a, &b), vec![3, 4, 5]);
}

#[test]
fn broadcast_keeps_empty_dimension() {
    let a = vec![0i64, 1];
    let b = vec![1i64, 5];
    assert_eq!(broadcast_shapes(&a, &b), vec![0, 5]);
}

#[test]
fn broadcast_with_scalar() {
    let a = vec![2i64, 3];
    let b: Vec<i64> = vec![];
    assert_eq!(broadcast_shapes(&a, &b), vec![2, 3]);
}

#[test]
fn matmul_of_plain_matrices() {
    let a = vec![3i64, 4];
    let b = vec![4i64, 5];
    assert_eq!(matmul_result_shape(&a, &b), vec![3, 5]);
}

#[test]
fn matmul_broadcasts_batch_dimensions() {
    let a = vec![2i64, 3, 4];
    let b = vec![4i64, 5];
    assert_eq!(matmul_result_shape(&a, &b), vec![2, 3, 5]);
    let c = vec![7i64, 1, 3, 4];
    let d = vec![2i64, 4, 5];
    assert_eq!(matmul_result_shape(&c, &d), vec![7, 2, 3, 5]);
}

#[test]
fn transpose_swaps_trailing_dimensions() {
    let a = vec![1i64, 2, 3, 4];
    assert_eq!(transpose_last_two(&a), vec![1, 2, 4, 3]);
    let b = vec![5i64, 6];
    assert_eq!(transpose_last_two(&b), vec![6, 5]);
}
