use vstd::prelude::*;

verus! {

/// Element type of a tensor.
#[derive(Debug, Clone, Copy, PartialEq, Eq, Structural)]
pub enum DType {
    U8,
    U32,
    I16,
    I32,
    I64,
    BF16,
    F16,
    F32,
    F64,
    F8E4M3,
}

/// Size of one element of `dt`, in bytes.
pub open spec fn dtype_size(dt: DType) -> nat {
    match dt {
        DType::U8 | DType::F8E4M3 => 1,
        DType::I16 | DType::BF16 | DType::F16 => 2,
        DType::U32 | DType::I32 | DType::F32 => 4,
        DType::I64 | DType::F64 => 8,
    }
}

/// The floating-point types that the reduction kernels handle on the host.
pub open spec fn is_host_float(dt: DType) -> bool {
    dt == DType::BF16 || dt == DType::F16 || dt == DType::F32 || dt == DType::F64
}

/// The three floating-point types that the device kernels are built for.
pub open spec fn is_kernel_float(dt: DType) -> bool {
    dt == DType::BF16 || dt == DType::F16 || dt == DType::F32
}

impl DType {
    pub fn size_in_bytes(&self) -> (r: usize)
        ensures
            r == dtype_size(*self),
            1 <= r <= 8,
    {
        match self {
            DType::U8 | DType::F8E4M3 => 1,
            DType::I16 | DType::BF16 | DType::F16 => 2,
            DType::U32 | DType::I32 | DType::F32 => 4,
            DType::I64 | DType::F64 => 8,
        }
    }

    pub fn is_host_float(&self) -> (r: bool)
        ensures
            r == is_host_float(*self),
    {
        match self {
            DType::BF16 | DType::F16 | DType::F32 | DType::F64 => true,
            _ => false,
        }
    }

    pub fn is_kernel_float(&self) -> (r: bool)
        ensures
            r == is_kernel_float(*self),
    {
        match self {
            DType::BF16 | DType::F16 | DType::F32 => true,
            _ => false,
        }
    }
}

} // verus!
