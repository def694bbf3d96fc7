use rusty_ggml::context::{GContext, GError};
use rusty_ggml::matmul::{can_mul_mat, mul_mat_output_shape, GMulMat, GMulMatT};
use rusty_ggml::tensor::GTensor;
use rusty_ggml::util::GType;

#[test]
fn matrix_times_vector() {
    let mut ctx = GContext::new(1_000_000, false);
    let a = ctx.new_tensor(GType::F32, [3, 4]).unwrap();
    let b = ctx.new_tensor(GType::F32, [4]).unwrap();
    let r: Result<GTensor<1>, GError> = ctx.mul_mat(&a, &b);
    let r = r.unwrap();
    assert_eq!(r.shape, vec![3]);
    assert_eq!(r.typ, GType::F32);
    let c = ctx.new_tensor(GType::F32, [5]).unwrap();
    let r: Result<GTensor<1>, GError> = ctx.mul_mat(&a, &c);
    assert!(matches!(r, Err(GError::InvalidOperation)));
}

#[test]
fn equal_ranks_keep_rank() {
    let mut ctx = GContext::new(1_000_000, false);
    let a = ctx.new_tensor(GType::F32, [3, 4]).unwrap();
    let b = ctx.new_tensor(GType::F32, [5, 4]).unwrap();
    let r: GTensor<2> = GMulMatT::mul_mat(&a, &mut ctx, &b).unwrap();
    assert_eq!(r.shape, vec![5, 3]);
}

#[test]
fn vector_times_matrix() {
    let mut ctx = GContext::new(1_000_000, false);
    let a = ctx.new_tensor(GType::F32, [4]).unwrap();
    let b = ctx.new_tensor(GType::F32, [5, 4]).unwrap();
    let r: GTensor<1> = ctx.mul_mat(&a, &b).unwrap();
    assert_eq!(r.shape, vec![5]);
}

#[test]
fn rank_three_by_two_and_two_by_three() {
    let mut ctx = GContext::new(1_000_000, false);
    let a = ctx.new_tensor(GType::F32, [1, 3, 4]).unwrap();
    let b = ctx.new_tensor(GType::F32, [5, 4]).unwrap();
    let r: GTensor<2> = ctx.mul_mat(&a, &b).unwrap();
    assert_eq!(r.shape, vec![5, 3]);
    let c = ctx.new_tensor(GType::F32, [3, 4]).unwrap();
    let d = ctx.new_tensor(GType::F32, [1, 5, 4]).unwrap();
    let r: GTensor<2> = ctx.mul_mat(&c, &d).unwrap();
    assert_eq!(r.shape, vec![5, 3]);
    let e = ctx.new_tensor(GType::F32, [2, 5, 4]).unwrap();
    let r: Result<GTensor<2>, GError> = ctx.mul_mat(&c, &e);
    assert!(matches!(r, Err(GError::InvalidOperation)));
}

#[test]
fn product_that_does_not_fit_is_refused() {
    let mut ctx = GContext::new(2_000, true);
    let a = ctx.new_tensor(GType::F32, [300, 4]).unwrap();
    let b = ctx.new_tensor(GType::F32, [300, 4]).unwrap();
    let mut small = GContext::new(2_000, false);
    let before = small.context_used;
    let r: Result<GTensor<2>, GError> = small.mul_mat(&a, &b);
    match r {
        Err(GError::InsufficientMemory(req)) => {
            assert_eq!(req.required_ctx, 416 + 300 * 300 * 4 + 1);
        }
        other => panic!("unexpected {:?}", other),
    }
    assert_eq!(small.context_used, before);
}

#[test]
fn shape_helpers() {
    assert!(can_mul_mat(&vec![3, 4], &vec![4]));
    assert!(!can_mul_mat(&vec![3, 4], &vec![5]));
    assert!(can_mul_mat(&vec![2, 3, 4], &vec![2, 7, 4]));
    assert!(!can_mul_mat(&vec![2, 3, 4], &vec![1, 7, 4]));
    assert_eq!(mul_mat_output_shape(&vec![2, 3, 4], &vec![2, 7, 4], 3), vec![2, 7, 3]);
}
