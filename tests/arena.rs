use rusty_ggml::context::{GContext, GError, ScratchBuffer};
use rusty_ggml::memory::{GMemoryRequest, GMemoryRequestType, TENSOR_OVERHEAD};
use rusty_ggml::util::GType;

#[test]
fn ten_thousand_byte_arena_takes_one_tensor_then_refuses() {
    let mut ctx = GContext::new(10_000, false);
    let t = ctx.new_tensor(GType::F32, [1000, 1, 1, 1]).unwrap();
    assert_eq!(t.shape, vec![1000, 1, 1, 1]);
    assert_eq!(ctx.context_used, TENSOR_OVERHEAD + 4001);
    match ctx.new_tensor(GType::F32, [2000, 1, 1, 1]) {
        Err(GError::InsufficientMemory(req)) => {
            assert!(!req.fits);
            assert_eq!(req.required_ctx, TENSOR_OVERHEAD + 8001);
            assert_eq!(req.available_ctx, 10_000 - TENSOR_OVERHEAD - 4001);
        }
        other => panic!("unexpected {:?}", other),
    }
    assert_eq!(ctx.context_used, TENSOR_OVERHEAD + 4001);
}

#[test]
fn scratch_buffer_is_the_limiting_pool() {
    let mut ctx = GContext::new(1_000_000, false);
    let idx = ctx.register_scratch_buffer(ScratchBuffer::new(4096));
    assert_eq!(idx, 0);
    ctx.set_scratch_buffer(Some(0)).unwrap();
    match ctx.new_tensor(GType::F32, [1250]) {
        Err(GError::InsufficientMemory(req)) => {
            assert_eq!(req.current_scratch_buffer, Some(0));
            assert_eq!(req.required_scratch, 5001);
            assert_eq!(req.available_scratch, 4096);
            assert!(req.required_scratch > req.available_scratch);
            assert!(req.required_ctx <= req.available_ctx);
        }
        other => panic!("unexpected {:?}", other),
    }
    assert_eq!(ctx.context_used, 0);
    assert_eq!(ctx.scratch_buffers[0].used, 0);
}

#[test]
fn scratch_buffer_takes_payload_and_main_pool_the_overhead() {
    let mut ctx = GContext::new(1_000_000, false);
    ctx.register_scratch_buffer(ScratchBuffer::new(4096));
    ctx.set_scratch_buffer(Some(0)).unwrap();
    let req = ctx.reserve_tensor(GType::F16, &[100, 10]).unwrap();
    assert_eq!(req.required_ctx, TENSOR_OVERHEAD);
    assert_eq!(req.required_scratch, 2001);
    assert_eq!(req.total_required, TENSOR_OVERHEAD + 2001);
    assert_eq!(ctx.context_used, TENSOR_OVERHEAD);
    assert_eq!(ctx.scratch_buffers[0].used, 2001);
}

#[test]
fn rotation_resets_scratch_usage() {
    let mut ctx = GContext::new(1_000_000, false);
    ctx.register_scratch_buffer(ScratchBuffer::new(4096));
    ctx.register_scratch_buffer(ScratchBuffer::new(8192));
    ctx.set_scratch_buffer(Some(1)).unwrap();
    ctx.new_tensor(GType::F32, [1000]).unwrap();
    assert_eq!(ctx.scratch_buffers[1].used, 4001);
    ctx.set_scratch_buffer(None).unwrap();
    ctx.rotate_scratch_buffer(1).unwrap();
    assert_eq!(ctx.scratch_buffers[1].used, 0);
    assert_eq!(ctx.scratch_buffers[1].capacity, 8192);
    assert_eq!(ctx.current_scratch_buffer, Some(1));
    assert_eq!(ctx.rotate_scratch_buffer(2), Err(GError::InvalidOperation));

    let mut buf = ScratchBuffer { capacity: 10, used: 7 };
    buf.rotate();
    assert_eq!(buf, ScratchBuffer { capacity: 10, used: 0 });
}

#[test]
fn unknown_scratch_index_is_refused() {
    let mut ctx = GContext::new(100, false);
    assert_eq!(ctx.set_scratch_buffer(Some(0)), Err(GError::InvalidOperation));
    assert_eq!(ctx.current_scratch_buffer, None);
}

#[test]
fn no_alloc_mode_always_fits_and_charges_nothing() {
    let mut ctx = GContext::new(10, true);
    let t = ctx.new_tensor(GType::F32, [1_000_000, 4]).unwrap();
    assert_eq!(t.typ, GType::F32);
    assert_eq!(ctx.context_used, 0);
}

#[test]
fn load_adopts_reported_usage() {
    let ctx = GContext::load(300, 1000, false).unwrap();
    assert_eq!(ctx.context_used, 300);
    assert_eq!(ctx.available_ctx(), 700);
    assert!(matches!(GContext::load(1001, 1000, false), Err(GError::InitializationFailed)));
    assert!(GContext::load(1001, 1000, true).is_ok());
}

#[test]
fn quantized_payload_rounds_up_and_pads_a_block() {
    let ctx = GContext::new(1_000_000, false);
    let r = GMemoryRequest::estimate_tensor_request(&ctx, GType::Q4_0, &[64]);
    assert_eq!(r.total_required, TENSOR_OVERHEAD + 36 + 32);
    let r = GMemoryRequest::estimate_tensor_request(&ctx, GType::Q4_0, &[33]);
    assert_eq!(r.total_required, TENSOR_OVERHEAD + 19 + 32);
    assert!(r.fits);
}

#[test]
fn zero_extent_costs_only_the_padding() {
    let ctx = GContext::new(1_000_000, false);
    let r = GMemoryRequest::estimate_tensor_request(&ctx, GType::I32, &[0, 5]);
    assert_eq!(r.total_required, TENSOR_OVERHEAD + 1);
}

#[test]
fn oversized_tensor_saturates_and_does_not_fit() {
    let ctx = GContext::new(usize::MAX, false);
    let r = GMemoryRequest::estimate_tensor_request(&ctx, GType::F32, &[usize::MAX, usize::MAX, 2]);
    assert_eq!(r.total_required, usize::MAX);
    assert_eq!(r.required_ctx, usize::MAX);
    assert!(!r.fits);
    let r = GMemoryRequest::estimate_tensor_request(&ctx, GType::I8, &[usize::MAX]);
    assert!(!r.fits);
}

#[test]
fn estimate_is_repeatable_and_pads_shape() {
    let ctx = GContext::new(5000, false);
    let a = GMemoryRequest::estimate_tensor_request(&ctx, GType::F32, &[7, 3]);
    let b = GMemoryRequest::estimate_tensor_request(&ctx, GType::F32, &[7, 3]);
    assert_eq!(a, b);
    assert_eq!(a.reqtype, GMemoryRequestType::Tensor { typ: GType::F32, shape: [7, 3, 1, 1] });
    assert_eq!(
        GMemoryRequestType::new_tensor_request(GType::F16, [2, 3]),
        GMemoryRequestType::Tensor { typ: GType::F16, shape: [2, 3, 1, 1] }
    );
}

#[test]
fn fit_or_die_follows_the_verdict() {
    let ctx = GContext::new(500, false);
    let ok = GMemoryRequest::estimate_tensor_request(&ctx, GType::I8, &[10]);
    assert_eq!(ok.fit_or_die(), Ok(ok));
    let bad = GMemoryRequest::estimate_tensor_request(&ctx, GType::I8, &[100]);
    assert!(!bad.fits);
    assert_eq!(bad.fit_or_die(), Err(GError::InsufficientMemory(bad)));
}

#[test]
fn element_sizes() {
    assert_eq!(GType::F32.type_size(), 4);
    assert_eq!(GType::Q8_0.type_size(), 34);
    assert_eq!(GType::Q8_0.block_size(), 32);
    assert_eq!(GType::F16.block_size(), 1);
}
