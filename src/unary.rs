use vstd::prelude::*;
use crate::device::Backend;
use crate::dtype::{is_host_float, is_kernel_float, DType};
use crate::error::OpError;
use crate::tensor::Tensor;

verus! {

/// Threads per block of the CUDA element-wise launch.
pub const CUDA_THREADS: usize = 1024;

/// How the element-wise sigmoid runs.
#[derive(Debug, Clone, Copy, PartialEq, Eq, Structural)]
pub enum SigmoidPath {
    /// Host map that follows the input's strides.
    Host,
    /// CUDA: `blocks` blocks of `threads` threads, one element per thread.
    CudaGrid { blocks: u32, threads: u32 },
    /// Metal, contiguous input with an even element count in a 16-bit
    /// type: each thread handles two elements.
    MetalTiled,
    /// Metal, contiguous input.
    MetalContiguous,
    /// Metal, strided input.
    MetalStrided,
}

/// One sigmoid launch; the result goes to a fresh contiguous buffer.
pub struct SigmoidLaunch {
    pub path: SigmoidPath,
    pub dtype: DType,
    pub src_start: usize,
    pub elem_count: usize,
    pub out_shape: Vec<usize>,
}

/// The refusal, if any, of the element-wise sigmoid.
pub open spec fn sigmoid_error(xs: Tensor) -> Option<OpError> {
    match xs.backend() {
        Backend::Cpu => if !is_host_float(xs.dtype) {
            Some(OpError::UnsupportedDType)
        } else {
            None
        },
        Backend::Cuda => if !is_host_float(xs.dtype) {
            Some(OpError::UnsupportedDType)
        } else if xs.layout.count() > u32::MAX {
            Some(OpError::ShapeTooLarge)
        } else {
            None
        },
        Backend::Metal => if !is_kernel_float(xs.dtype) {
            Some(OpError::UnsupportedDType)
        } else {
            None
        },
    }
}

/// The path an accepted sigmoid takes.
pub open spec fn sigmoid_path(xs: Tensor) -> SigmoidPath {
    let n = xs.layout.count();
    match xs.backend() {
        Backend::Cpu => SigmoidPath::Host,
        Backend::Cuda => SigmoidPath::CudaGrid {
            blocks: ((n + CUDA_THREADS - 1) / (CUDA_THREADS as int)) as u32,
            threads: CUDA_THREADS as u32,
        },
        Backend::Metal => if !xs.layout.is_row_major() {
            SigmoidPath::MetalStrided
        } else if n % 2 == 0 && (xs.dtype == DType::BF16 || xs.dtype == DType::F16) {
            SigmoidPath::MetalTiled
        } else {
            SigmoidPath::MetalContiguous
        },
    }
}

/// Element-wise `1 / (1 + exp(-x))`. The only fused operator here with a
/// gradient: `dL/dx = dL/dy * y * (1 - y)` for the forward output `y`.
pub fn sigmoid(xs: &Tensor) -> (r: Result<SigmoidLaunch, OpError>)
    ensures
        r is Ok <==> sigmoid_error(*xs) is None,
        r matches Err(e) ==> sigmoid_error(*xs) == Some(e),
        r matches Ok(l) ==> {
            &&& l.path == sigmoid_path(*xs)
            &&& l.dtype == xs.dtype
            &&& l.src_start == xs.layout.offset_view()
            &&& l.elem_count == xs.layout.count()
            &&& l.out_shape@ == xs.shape()
        },
{
    let n = xs.layout.elem_count();
    let path = match xs.device.backend() {
        Backend::Cpu => {
            if !xs.dtype.is_host_float() {
                return Err(OpError::UnsupportedDType);
            }
            SigmoidPath::Host
        },
        Backend::Cuda => {
            if !xs.dtype.is_host_float() {
                return Err(OpError::UnsupportedDType);
            }
            if n > u32::MAX as usize {
                return Err(OpError::ShapeTooLarge);
            }
            let blocks = (n + (CUDA_THREADS - 1)) / CUDA_THREADS;
            SigmoidPath::CudaGrid { blocks: blocks as u32, threads: CUDA_THREADS as u32 }
        },
        Backend::Metal => {
            if !xs.dtype.is_kernel_float() {
                return Err(OpError::UnsupportedDType);
            }
            let half = match xs.dtype {
                DType::BF16 | DType::F16 => true,
                _ => false,
            };
            if !xs.layout.is_contiguous() {
                SigmoidPath::MetalStrided
            } else if n % 2 == 0 && half {
                SigmoidPath::MetalTiled
            } else {
                SigmoidPath::MetalContiguous
            }
        },
    };
    Ok(
        SigmoidLaunch {
            path,
            dtype: xs.dtype,
            src_start: xs.layout.start_offset(),
            elem_count: n,
            out_shape: xs.dims().clone(),
        },
    )
}

} // verus!
