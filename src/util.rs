use vstd::prelude::*;

verus! {

/// Element types of the native engine that the arena knows how to size.
#[derive(Debug, Clone, Copy, PartialEq, Eq, Structural)]
pub enum GType {
    F32,
    F16,
    Q4_0,
    Q4_1,
    Q5_0,
    Q5_1,
    Q8_0,
    Q8_1,
    I8,
    I16,
    I32,
}

/// Bytes taken by one block of the type.
pub open spec fn type_size_spec(t: GType) -> nat {
    match t {
        GType::F32 => 4,
        GType::F16 => 2,
        GType::Q4_0 => 18,
        GType::Q4_1 => 20,
        GType::Q5_0 => 22,
        GType::Q5_1 => 24,
        GType::Q8_0 => 34,
        GType::Q8_1 => 36,
        GType::I8 => 1,
        GType::I16 => 2,
        GType::I32 => 4,
    }
}

/// Elements held by one block of the type.
pub open spec fn block_size_spec(t: GType) -> nat {
    match t {
        GType::F32 | GType::F16 | GType::I8 | GType::I16 | GType::I32 => 1,
        _ => 32,
    }
}

impl GType {
    /// Bytes taken by one block of this type.
    pub fn type_size(self) -> (r: usize)
        ensures
            r == type_size_spec(self),
    {
        match self {
            GType::F32 => 4,
            GType::F16 => 2,
            GType::Q4_0 => 18,
            GType::Q4_1 => 20,
            GType::Q5_0 => 22,
            GType::Q5_1 => 24,
            GType::Q8_0 => 34,
            GType::Q8_1 => 36,
            GType::I8 => 1,
            GType::I16 => 2,
            GType::I32 => 4,
        }
    }

    /// Elements held by one block of this type; also the extra padding that
    /// a tensor of this type is charged for.
    pub fn block_size(self) -> (r: usize)
        ensures
            r == block_size_spec(self),
    {
        match self {
            GType::F32 | GType::F16 | GType::I8 | GType::I16 | GType::I32 => 1,
            _ => 32,
        }
    }
}

} // verus!
