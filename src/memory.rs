use vstd::prelude::*;

use crate::context::{GContext, GError};
use crate::util::{block_size_spec, type_size_spec, GType};

verus! {

/// Largest rank of a tensor; request shapes are padded to it.
pub const MAX_DIMS: usize = 4;

/// Bytes that every tensor takes in the main pool whatever its payload: the
/// native object header (32), the native tensor descriptor (368) and an
/// alignment allowance (16).
pub const TENSOR_OVERHEAD: usize = 416;

/// What a memory request is for.
#[derive(Debug, Clone, Copy, PartialEq, Eq)]
pub enum GMemoryRequestType {
    Unknown,
    Tensor { typ: GType, shape: [usize; 4] },
}

/// Number of elements of a tensor of this shape.
pub open spec fn elem_count(s: Seq<usize>) -> int
    decreases s.len(),
{
    if s.len() == 0 {
        1
    } else {
        elem_count(s.drop_last()) * s.last()
    }
}

pub open spec fn ceil_div(a: int, b: int) -> int {
    (a + b - 1) / b
}

/// Payload bytes charged for a tensor: its elements' bytes, rounded up to a
/// whole byte, plus one block of padding.
pub open spec fn payload_bytes(t: GType, s: Seq<usize>) -> int {
    ceil_div(elem_count(s) * type_size_spec(t), block_size_spec(t) as int) + block_size_spec(t)
}

/// `x`, or the largest `usize` where `x` is larger.
pub open spec fn clamp_usize(x: int) -> int {
    if x > usize::MAX {
        usize::MAX as int
    } else {
        x
    }
}

/// Extent `i` of `s`, or 1 beyond its rank.
pub open spec fn pad_at(s: Seq<usize>, i: int) -> usize {
    if i < s.len() {
        s[i]
    } else {
        1
    }
}

/// `s` padded with trailing 1s (or cut) to `MAX_DIMS` extents.
pub open spec fn padded_shape(s: Seq<usize>) -> [usize; 4] {
    [pad_at(s, 0), pad_at(s, 1), pad_at(s, 2), pad_at(s, 3)]
}

/// A snapshot of what a prospective tensor needs from the arena and what the
/// arena has free, with the verdict.
#[derive(Debug, Clone, Copy, PartialEq, Eq)]
pub struct GMemoryRequest {
    pub reqtype: GMemoryRequestType,
    pub required_ctx: usize,
    pub required_scratch: usize,
    pub total_required: usize,
    pub available_ctx: usize,
    pub available_scratch: usize,
    pub current_scratch_buffer: Option<usize>,
    pub fits: bool,
}

/// Bytes free in the active scratch buffer (0 with none active).
pub open spec fn available_scratch_spec(c: GContext) -> int {
    match c.current_scratch_buffer {
        Some(i) => c.scratch_buffers@[i as int].available_spec(),
        None => 0,
    }
}

/// Bytes a tensor is charged in the main pool: the overhead alone where a
/// scratch buffer takes the payload, both otherwise.
pub open spec fn needed_ctx(c: GContext, t: GType, s: Seq<usize>) -> int {
    if c.current_scratch_buffer.is_some() {
        TENSOR_OVERHEAD as int
    } else {
        TENSOR_OVERHEAD + payload_bytes(t, s)
    }
}

/// Bytes a tensor is charged in the active scratch buffer.
pub open spec fn needed_scratch(c: GContext, t: GType, s: Seq<usize>) -> int {
    if c.current_scratch_buffer.is_some() {
        payload_bytes(t, s)
    } else {
        0
    }
}

/// Whether a tensor of type `t` and shape `s` fits in the arena as it stands.
pub open spec fn fits_spec(c: GContext, t: GType, s: Seq<usize>) -> bool {
    c.no_alloc || (needed_ctx(c, t, s) <= c.available_ctx_spec() && needed_scratch(c, t, s)
        <= available_scratch_spec(c))
}

/// The request that estimating a tensor of type `t` and shape `s` against
/// the arena `c` yields. Byte counts too large for `usize` read as its maximum.
pub open spec fn estimate_spec(c: GContext, t: GType, s: Seq<usize>) -> GMemoryRequest {
    GMemoryRequest {
        reqtype: GMemoryRequestType::Tensor { typ: t, shape: padded_shape(s) },
        required_ctx: clamp_usize(needed_ctx(c, t, s)) as usize,
        required_scratch: clamp_usize(needed_scratch(c, t, s)) as usize,
        total_required: clamp_usize(TENSOR_OVERHEAD + payload_bytes(t, s)) as usize,
        available_ctx: c.available_ctx_spec() as usize,
        available_scratch: available_scratch_spec(c) as usize,
        current_scratch_buffer: c.current_scratch_buffer,
        fits: fits_spec(c, t, s),
    }
}

proof fn lemma_elem_count_nonneg(s: Seq<usize>)
    ensures
        elem_count(s) >= 0,
    decreases s.len(),
{
    if s.len() > 0 {
        lemma_elem_count_nonneg(s.drop_last());
        let a = elem_count(s.drop_last());
        let b = s.last() as int;
        assert(a * b >= 0) by (nonlinear_arith)
            requires
                a >= 0,
                b >= 0,
        ;
    }
}

/// Payload bytes are never below one block of padding.
pub proof fn lemma_payload_positive(t: GType, s: Seq<usize>)
    ensures
        payload_bytes(t, s) >= block_size_spec(t) >= 1,
{
    lemma_elem_count_nonneg(s);
    let x = elem_count(s);
    let y = type_size_spec(t) as int;
    assert(x * y >= 0) by (nonlinear_arith)
        requires
            x >= 0,
            y >= 0,
    ;
    let a = x * y;
    let b = block_size_spec(t) as int;
    assert(ceil_div(a, b) >= 0) by (nonlinear_arith)
        requires
            a >= 0,
            b >= 1,
    ;
}

proof fn lemma_zero_extent(s: Seq<usize>, j: int)
    requires
        0 <= j < s.len(),
        s[j] == 0,
    ensures
        elem_count(s) == 0,
    decreases s.len(),
{
    if j < s.len() - 1 {
        assert(s.drop_last()[j] == 0);
        lemma_zero_extent(s.drop_last(), j);
        assert(elem_count(s) == elem_count(s.drop_last()) * s.last());
    } else {
        assert(s.last() == 0);
        assert(elem_count(s) == elem_count(s.drop_last()) * 0);
    }
}

proof fn lemma_prefix_le(s: Seq<usize>, k: int)
    requires
        0 <= k <= s.len(),
        forall|j: int| 0 <= j < s.len() ==> s[j] >= 1,
    ensures
        0 <= elem_count(s.take(k)) <= elem_count(s),
    decreases s.len(),
{
    if s.len() == 0 {
        assert(s.take(k) =~= s);
    } else if k == s.len() {
        assert(s.take(k) =~= s);
        lemma_prefix_le(s.drop_last(), k - 1);
    } else {
        assert(s.drop_last().take(k) =~= s.take(k));
        lemma_prefix_le(s.drop_last(), k);
        let a = elem_count(s.drop_last());
        let b = s.last() as int;
        assert(a <= a * b) by (nonlinear_arith)
            requires
                a >= 0,
                b >= 1,
        ;
    }
}

proof fn lemma_huge_payload(a: int, b: int)
    requires
        a >= u128::MAX - 32,
        1 <= b <= 32,
    ensures
        ceil_div(a, b) + b > usize::MAX,
{
    let q = (a + b - 1) / b;
    vstd::arithmetic::div_mod::lemma_fundamental_div_mod(a + b - 1, b);
    let r = (a + b - 1) % b;
    assert(q >= 0x100000000000000000000) by (nonlinear_arith)
        requires
            q * b + r == a + b - 1,
            0 <= r < b,
            b <= 32,
            a >= u128::MAX - 32,
    ;
}

/// Payload bytes of a tensor of type `t` and shape `s`, where they fit in a `usize`.
fn payload_size(t: GType, s: &[usize]) -> (r: Option<usize>)
    ensures
        payload_bytes(t, s@) >= 1,
        r == (if payload_bytes(t, s@) <= usize::MAX {
            Some(payload_bytes(t, s@) as usize)
        } else {
            None::<usize>
        }),
{
    let ts = t.type_size() as u128;
    let bs = t.block_size() as u128;
    let ghost ec = elem_count(s@);
    proof {
        lemma_payload_positive(t, s@);
    }
    let mut k: usize = 0;
    while k < s.len()
        invariant
            0 <= k <= s.len(),
            forall|j: int| 0 <= j < k ==> s@[j] >= 1,
        decreases s.len() - k,
    {
        if s[k] == 0 {
            let b = t.block_size();
            proof {
                lemma_zero_extent(s@, k as int);
                assert(ceil_div(0, b as int) == 0) by (nonlinear_arith)
                    requires
                        b >= 1,
                ;
            }
            return Some(b);
        }
        k += 1;
    }
    let mut count: u128 = 1;
    let mut i: usize = 0;
    let mut overflow = false;
    while i < s.len()
        invariant
            0 <= i <= s.len(),
            forall|j: int| 0 <= j < s.len() ==> s@[j] >= 1,
            !overflow ==> count == elem_count(s@.take(i as int)),
            ec == elem_count(s@),
            overflow ==> ec > u128::MAX,
        decreases s.len() - i,
    {
        assert(s@.take(i + 1).drop_last() =~= s@.take(i as int));
        match count.checked_mul(s[i] as u128) {
            Some(c) => {
                if !overflow {
                    count = c;
                }
            },
            None => {
                if !overflow {
                    proof {
                        assert(count * s@[i as int] > u128::MAX);
                        assert(elem_count(s@.take(i + 1)) == count * s@[i as int]);
                        lemma_prefix_le(s@, i + 1);
                    }
                    overflow = true;
                }
            },
        }
        i += 1;
    }
    assert(s@.take(s.len() as int) =~= s@);
    assert(!overflow ==> count == ec);
    if overflow {
        proof {
            assert(ec * type_size_spec(t) >= ec) by (nonlinear_arith)
                requires
                    ec >= 0,
                    type_size_spec(t) >= 1,
            ;
            lemma_huge_payload(ec * type_size_spec(t), bs as int);
        }
        return None;
    }
    let bytes = match count.checked_mul(ts) {
        Some(b) => b,
        None => {
            proof {
                assert(count * ts > u128::MAX);
                assert(ts == type_size_spec(t));
                lemma_huge_payload(ec * type_size_spec(t), bs as int);
            }
            return None;
        },
    };
    let sum = match bytes.checked_add(bs - 1) {
        Some(x) => x,
        None => {
            proof {
                assert(ts == type_size_spec(t));
                assert(bytes + bs - 1 > u128::MAX);
                lemma_huge_payload(ec * type_size_spec(t), bs as int);
            }
            return None;
        },
    };
    let q = sum / bs;
    let p = match q.checked_add(bs) {
        Some(x) => x,
        None => {
            return None;
        },
    };
    if p > usize::MAX as u128 {
        None
    } else {
        Some(p as usize)
    }
}

/// The estimate never fits where the arena lacks the bytes that the tensor
/// needs in a pool it is charged to (outside no-allocation mode), and it
/// never reports less than the tensor's payload: the elements' bytes rounded
/// up to whole blocks, plus one block of padding (up to the largest `usize`).
pub proof fn lemma_estimate_is_a_safe_gate(c: GContext, t: GType, s: Seq<usize>)
    requires
        c.wf(),
    ensures
        ({
            let r = estimate_spec(c, t, s);
            &&& (!c.no_alloc && (needed_ctx(c, t, s) > c.available_ctx_spec() || needed_scratch(
                c,
                t,
                s,
            ) > available_scratch_spec(c))) ==> !r.fits
            &&& r.fits ==> (c.no_alloc || (r.required_ctx <= r.available_ctx
                && r.required_scratch <= r.available_scratch))
            &&& payload_bytes(t, s) * block_size_spec(t) >= elem_count(s) * type_size_spec(t)
            &&& r.total_required >= clamp_usize(payload_bytes(t, s))
            &&& match r.current_scratch_buffer {
                Some(_) => r.required_scratch == clamp_usize(payload_bytes(t, s)),
                None => r.required_ctx == r.total_required,
            }
        }),
{
    lemma_payload_positive(t, s);
    lemma_elem_count_nonneg(s);
    let a = elem_count(s) * type_size_spec(t);
    let b = block_size_spec(t) as int;
    let q = ceil_div(a, b);
    vstd::arithmetic::div_mod::lemma_fundamental_div_mod(a + b - 1, b);
    let rem = (a + b - 1) % b;
    assert((q + b) * b >= a) by (nonlinear_arith)
        requires
            q * b + rem == a + b - 1,
            0 <= rem < b,
            b >= 1,
    ;
}

/// Estimating twice against an unchanged arena gives the same request.
pub proof fn lemma_estimate_deterministic(
    c: GContext,
    t: GType,
    s: Seq<usize>,
    r1: GMemoryRequest,
    r2: GMemoryRequest,
)
    requires
        r1 == estimate_spec(c, t, s),
        r2 == estimate_spec(c, t, s),
    ensures
        r1 == r2,
{
}

impl GMemoryRequest {
    /// Estimates what a tensor of type `typ` and shape `shape` needs from the
    /// arena `ctx` and whether it fits. Pure: the arena is not touched.
    pub fn estimate_tensor_request(ctx: &GContext, typ: GType, shape: &[usize]) -> (r: Self)
        requires
            ctx.wf(),
            1 <= shape@.len() <= MAX_DIMS,
        ensures
            r == estimate_spec(*ctx, typ, shape@),
    {
        let reqtype = GMemoryRequestType::Tensor { typ, shape: pad_shape(shape) };
        let payload = payload_size(typ, shape);
        let available_ctx = ctx.available_ctx();
        let total_required = match payload {
            Some(p) => if p <= usize::MAX - TENSOR_OVERHEAD {
                p + TENSOR_OVERHEAD
            } else {
                usize::MAX
            },
            None => usize::MAX,
        };
        match ctx.current_scratch_buffer {
            Some(bufid) => {
                let sbuf = ctx.scratch_buffers[bufid];
                let available_scratch = sbuf.capacity - sbuf.used;
                let required = match payload {
                    Some(p) => p,
                    None => usize::MAX,
                };
                let payload_fits = match payload {
                    Some(p) => p <= available_scratch,
                    None => false,
                };
                GMemoryRequest {
                    reqtype,
                    required_ctx: TENSOR_OVERHEAD,
                    required_scratch: required,
                    total_required,
                    available_ctx,
                    available_scratch,
                    current_scratch_buffer: Some(bufid),
                    fits: ctx.no_alloc || (TENSOR_OVERHEAD <= available_ctx && payload_fits),
                }
            },
            None => {
                let ctx_fits = match payload {
                    Some(p) => p <= usize::MAX - TENSOR_OVERHEAD && p + TENSOR_OVERHEAD
                        <= available_ctx,
                    None => false,
                };
                GMemoryRequest {
                    reqtype,
                    required_ctx: total_required,
                    required_scratch: 0,
                    total_required,
                    available_ctx,
                    available_scratch: 0,
                    current_scratch_buffer: None,
                    fits: ctx.no_alloc || ctx_fits,
                }
            },
        }
    }

    /// Turns a failing verdict into an error that carries the request.
    pub fn fit_or_die(self) -> (r: Result<Self, GError>)
        ensures
            self.fits ==> r == Ok::<Self, GError>(self),
            !self.fits ==> r == Err::<Self, GError>(GError::InsufficientMemory(self)),
    {
        if self.fits {
            Ok(self)
        } else {
            Err(GError::InsufficientMemory(self))
        }
    }
}

impl GMemoryRequestType {
    /// A request for a tensor of type `typ` whose shape is `shape` padded
    /// with trailing 1s to `MAX_DIMS` extents.
    pub fn new_tensor_request<const DIMS: usize>(typ: GType, shape: [usize; DIMS]) -> (r: Self)
        requires
            1 <= DIMS <= MAX_DIMS,
        ensures
            r == (GMemoryRequestType::Tensor { typ, shape: padded_shape(shape@) }),
    {
        GMemoryRequestType::Tensor { typ, shape: pad_shape(shape.as_slice()) }
    }
}

/// `s` padded with trailing 1s to `MAX_DIMS` extents.
fn pad_shape(s: &[usize]) -> (r: [usize; 4])
    ensures
        r == padded_shape(s@),
{
    let p0 = if 0 < s.len() { s[0] } else { 1 };
    let p1 = if 1 < s.len() { s[1] } else { 1 };
    let p2 = if 2 < s.len() { s[2] } else { 1 };
    let p3 = if 3 < s.len() { s[3] } else { 1 };
    [p0, p1, p2, p3]
}

} // verus!
