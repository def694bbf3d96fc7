use vstd::prelude::*;

use crate::context::{GContext, GError, ScratchBuffer};
use crate::memory::{
    estimate_spec, fits_spec, lemma_payload_positive, needed_ctx, payload_bytes, GMemoryRequest, MAX_DIMS,
};
use crate::util::GType;

verus! {

/// Metadata of a tensor of rank `DIMS` placed in an arena: its element type
/// and its extents, outermost first. The data itself stays with the native
/// engine.
#[derive(Debug, Clone)]
pub struct GTensor<const DIMS: usize> {
    pub typ: GType,
    pub shape: Vec<usize>,
}

impl<const DIMS: usize> GTensor<DIMS> {
    /// The rank is one the engine supports and the shape has that many extents.
    pub open spec fn wf(&self) -> bool {
        &&& 1 <= DIMS <= MAX_DIMS
        &&& self.shape@.len() == DIMS
    }
}

/// A one-dimensional tensor.
pub type GTensor1 = GTensor<1>;

/// A two-dimensional tensor.
pub type GTensor2 = GTensor<2>;

/// A three-dimensional tensor.
pub type GTensor3 = GTensor<3>;

/// A four-dimensional tensor.
pub type GTensor4 = GTensor<4>;

/// How the arena `n` stands after a tensor of type `t` and shape `s` was
/// charged to the arena `o`: the main pool takes its share and the active
/// scratch buffer the payload. In no-allocation mode nothing is charged.
pub open spec fn charged(o: GContext, n: GContext, t: GType, s: Seq<usize>) -> bool {
    &&& n.context_size == o.context_size
    &&& n.no_alloc == o.no_alloc
    &&& n.current_scratch_buffer == o.current_scratch_buffer
    &&& if o.no_alloc {
        n.context_used == o.context_used && n.scratch_buffers@ == o.scratch_buffers@
    } else {
        &&& n.context_used == o.context_used + needed_ctx(o, t, s)
        &&& match o.current_scratch_buffer {
            Some(i) => n.scratch_buffers@ == o.scratch_buffers@.update(
                i as int,
                ScratchBuffer {
                    capacity: o.scratch_buffers@[i as int].capacity,
                    used: (o.scratch_buffers@[i as int].used + payload_bytes(t, s)) as usize,
                },
            ),
            None => n.scratch_buffers@ == o.scratch_buffers@,
        }
    }
}

impl GContext {
    /// Estimates a tensor of type `typ` and shape `shape`. Where it fits,
    /// charges it to the arena and returns the request; otherwise fails with
    /// the request, and the arena keeps its state. Call this before the
    /// native allocating call.
    pub fn reserve_tensor(&mut self, typ: GType, shape: &[usize]) -> (r: Result<
        GMemoryRequest,
        GError,
    >)
        requires
            old(self).wf(),
            1 <= shape@.len() <= MAX_DIMS,
        ensures
            final(self).wf(),
            r.is_ok() <==> fits_spec(*old(self), typ, shape@),
            match r {
                Ok(req) => req == estimate_spec(*old(self), typ, shape@) && charged(
                    *old(self),
                    *final(self),
                    typ,
                    shape@,
                ),
                Err(e) => e == GError::InsufficientMemory(estimate_spec(*old(self), typ, shape@))
                    && *final(self) == *old(self),
            },
    {
        let req = GMemoryRequest::estimate_tensor_request(self, typ, shape);
        let req = match req.fit_or_die() {
            Ok(req) => req,
            Err(e) => {
                return Err(e);
            },
        };
        proof {
            lemma_payload_positive(typ, shape@);
        }
        assert(req.fits);
        if !self.no_alloc {
            assert(needed_ctx(*self, typ, shape@) <= self.available_ctx_spec());
            assert(req.required_ctx == needed_ctx(*self, typ, shape@));
            self.context_used = self.context_used + req.required_ctx;
            if let Some(i) = self.current_scratch_buffer {
                let mut buf = self.scratch_buffers[i];
                buf.used = buf.used + req.required_scratch;
                self.scratch_buffers.set(i, buf);
            }
        }
        proof {
            assert forall|j: int| 0 <= j < self.scratch_buffers@.len() implies (
            #[trigger] self.scratch_buffers@[j]).wf() by {
                assert(old(self).scratch_buffers@[j].wf());
            }
        }
        Ok(req)
    }

    /// A new tensor of type `typ` and shape `shape`, gated and charged as
    /// `reserve_tensor` says.
    pub fn new_tensor<const DIMS: usize>(&mut self, typ: GType, shape: [usize; DIMS]) -> (r:
        Result<GTensor<DIMS>, GError>)
        requires
            old(self).wf(),
            1 <= DIMS <= MAX_DIMS,
        ensures
            final(self).wf(),
            r.is_ok() <==> fits_spec(*old(self), typ, shape@),
            match r {
                Ok(t) => t.wf() && t.typ == typ && t.shape@ == shape@ && charged(
                    *old(self),
                    *final(self),
                    typ,
                    shape@,
                ),
                Err(e) => e == GError::InsufficientMemory(estimate_spec(*old(self), typ, shape@))
                    && *final(self) == *old(self),
            },
    {
        let s = shape.as_slice();
        match self.reserve_tensor(typ, s) {
            Ok(_) => Ok(GTensor { typ, shape: vstd::slice::slice_to_vec(s) }),
            Err(e) => Err(e),
        }
    }
}

} // verus!
