use vstd::prelude::*;

use crate::memory::GMemoryRequest;

verus! {

/// A fixed-capacity bump region for tensor payloads kept out of the main pool.
#[derive(Debug, Clone, Copy, PartialEq, Eq, Structural)]
pub struct ScratchBuffer {
    pub capacity: usize,
    pub used: usize,
}

impl ScratchBuffer {
    pub open spec fn wf(&self) -> bool {
        self.used <= self.capacity
    }

    /// Bytes still free in this buffer.
    pub open spec fn available_spec(&self) -> int {
        self.capacity - self.used
    }

    /// An empty scratch buffer of `capacity` bytes.
    pub fn new(capacity: usize) -> (r: ScratchBuffer)
        ensures
            r.capacity == capacity,
            r.used == 0,
            r.wf(),
    {
        ScratchBuffer { capacity, used: 0 }
    }

    /// Starts a new pass over this buffer: everything in it is discarded.
    pub fn rotate(&mut self)
        ensures
            final(self).capacity == old(self).capacity,
            final(self).used == 0,
            final(self).wf(),
    {
        self.used = 0;
    }
}

/// Errors of the arena and of the operators built on it.
#[derive(Debug, Clone, Copy, PartialEq, Eq)]
pub enum GError {
    /// Operand shapes or an argument fail an operator's precondition.
    InvalidOperation,
    /// The request does not fit; it is carried for diagnostics.
    InsufficientMemory(GMemoryRequest),
    /// The native layer reported a state that cannot be adopted.
    InitializationFailed,
}

/// The arena: the main pool's capacity and usage, the registered scratch
/// buffers and which one (if any) receives new tensor payloads.
#[derive(Debug, Clone)]
pub struct GContext {
    pub context_size: usize,
    pub context_used: usize,
    pub scratch_buffers: Vec<ScratchBuffer>,
    pub current_scratch_buffer: Option<usize>,
    pub no_alloc: bool,
}

impl GContext {
    /// Usage stays within capacity (outside no-allocation mode), every
    /// scratch buffer is within its own capacity, and the active index is valid.
    pub open spec fn wf(&self) -> bool {
        &&& (!self.no_alloc ==> self.context_used <= self.context_size)
        &&& forall|i: int|
            0 <= i < self.scratch_buffers@.len() ==> (#[trigger] self.scratch_buffers@[i]).wf()
        &&& match self.current_scratch_buffer {
            Some(i) => i < self.scratch_buffers@.len(),
            None => true,
        }
    }

    /// Bytes still free in the main pool.
    pub open spec fn available_ctx_spec(&self) -> int {
        if self.context_used <= self.context_size {
            self.context_size - self.context_used
        } else {
            0
        }
    }

    /// A fresh arena of `context_size` bytes with nothing used.
    pub fn new(context_size: usize, no_alloc: bool) -> (r: GContext)
        ensures
            r.wf(),
            r.context_size == context_size,
            r.context_used == 0,
            r.scratch_buffers@.len() == 0,
            r.current_scratch_buffer.is_none(),
            r.no_alloc == no_alloc,
    {
        GContext {
            context_size,
            context_used: 0,
            scratch_buffers: Vec::new(),
            current_scratch_buffer: None,
            no_alloc,
        }
    }

    /// Adopts a pool that the native layer initialised, with the usage and
    /// size it reported. A usage beyond the size cannot be adopted.
    pub fn load(reported_used: usize, reported_size: usize, no_alloc: bool) -> (r: Result<
        GContext,
        GError,
    >)
        ensures
            match r {
                Ok(c) => {
                    &&& c.wf()
                    &&& c.context_size == reported_size
                    &&& c.context_used == reported_used
                    &&& c.scratch_buffers@.len() == 0
                    &&& c.current_scratch_buffer.is_none()
                    &&& c.no_alloc == no_alloc
                },
                Err(e) => e == GError::InitializationFailed,
            },
            r.is_err() <==> (!no_alloc && reported_used > reported_size),
    {
        if !no_alloc && reported_used > reported_size {
            return Err(GError::InitializationFailed);
        }
        Ok(
            GContext {
                context_size: reported_size,
                context_used: reported_used,
                scratch_buffers: Vec::new(),
                current_scratch_buffer: None,
                no_alloc,
            },
        )
    }

    /// Bytes still free in the main pool.
    pub fn available_ctx(&self) -> (r: usize)
        ensures
            r == self.available_ctx_spec(),
    {
        if self.context_used <= self.context_size {
            self.context_size - self.context_used
        } else {
            0
        }
    }

    /// Appends a scratch buffer and returns its index. The active buffer does
    /// not change.
    pub fn register_scratch_buffer(&mut self, buf: ScratchBuffer) -> (r: usize)
        requires
            old(self).wf(),
            buf.wf(),
            old(self).scratch_buffers@.len() < usize::MAX,
        ensures
            final(self).wf(),
            r == old(self).scratch_buffers@.len(),
            final(self).scratch_buffers@ == old(self).scratch_buffers@.push(buf),
            final(self).current_scratch_buffer == old(self).current_scratch_buffer,
            final(self).context_size == old(self).context_size,
            final(self).context_used == old(self).context_used,
            final(self).no_alloc == old(self).no_alloc,
    {
        let r = self.scratch_buffers.len();
        self.scratch_buffers.push(buf);
        r
    }

    /// Selects the scratch buffer that receives new payloads (`None`: the
    /// main pool). An index of no registered buffer is refused and changes
    /// nothing.
    pub fn set_scratch_buffer(&mut self, idx: Option<usize>) -> (r: Result<(), GError>)
        requires
            old(self).wf(),
        ensures
            final(self).wf(),
            r.is_err() <==> (match idx {
                Some(i) => i >= old(self).scratch_buffers@.len(),
                None => false,
            }),
            r.is_err() ==> r == Err::<(), GError>(GError::InvalidOperation) && *final(self)
                == *old(self),
            r.is_ok() ==> final(self).current_scratch_buffer == idx,
            final(self).scratch_buffers@ == old(self).scratch_buffers@,
            final(self).context_size == old(self).context_size,
            final(self).context_used == old(self).context_used,
            final(self).no_alloc == old(self).no_alloc,
    {
        if let Some(i) = idx {
            if i >= self.scratch_buffers.len() {
                return Err(GError::InvalidOperation);
            }
        }
        self.current_scratch_buffer = idx;
        Ok(())
    }

    /// Starts a new pass over scratch buffer `idx`: its usage drops to zero
    /// and it becomes the active buffer. An index of no registered buffer is
    /// refused and changes nothing.
    pub fn rotate_scratch_buffer(&mut self, idx: usize) -> (r: Result<(), GError>)
        requires
            old(self).wf(),
        ensures
            final(self).wf(),
            r.is_err() <==> idx >= old(self).scratch_buffers@.len(),
            r.is_err() ==> r == Err::<(), GError>(GError::InvalidOperation) && *final(self)
                == *old(self),
            r.is_ok() ==> {
                &&& final(self).scratch_buffers@ == old(self).scratch_buffers@.update(
                    idx as int,
                    ScratchBuffer { capacity: old(self).scratch_buffers@[idx as int].capacity, used: 0 },
                )
                &&& final(self).current_scratch_buffer == Some(idx)
            },
            final(self).context_size == old(self).context_size,
            final(self).context_used == old(self).context_used,
            final(self).no_alloc == old(self).no_alloc,
    {
        if idx >= self.scratch_buffers.len() {
            return Err(GError::InvalidOperation);
        }
        let mut buf = self.scratch_buffers[idx];
        buf.rotate();
        self.scratch_buffers.set(idx, buf);
        self.current_scratch_buffer = Some(idx);
        Ok(())
    }
}

} // verus!
