//! Typed memory-arena accounting and shape rules for a native tensor engine.
//!
//! The library decides, before any native allocation happens, whether a tensor
//! fits in the arena (and in the active scratch buffer), and which operand
//! shapes an operator accepts. The native calls themselves live with the caller.
use vstd::prelude::*;

pub mod context;
pub mod matmul;
pub mod memory;
pub mod tensor;
pub mod util;

verus! {

} // verus!
