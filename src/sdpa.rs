use vstd::prelude::*;
use crate::device::Backend;
use crate::dtype::{is_kernel_float, DType};
use crate::error::OpError;
use crate::tensor::{shape3, shape4, Tensor};

verus! {

/// Key/value sequence length above which the single-query path splits the
/// reduction over blocks.
pub const TWO_PASS_KV_THRESHOLD: usize = 1024;

/// Number of blocks the two-pass kernel splits the key/value sequence into.
pub const TWO_PASS_BLOCKS: usize = 32;

/// Smallest query sequence length served by the full-attention kernel.
pub const FULL_MIN_SEQ: usize = 2;

/// Head dimensions the fused attention kernels are built for.
pub open spec fn supported_head_dim(d: usize) -> bool {
    d == 32 || d == 64 || d == 96 || d == 128 || d == 256
}

/// The attention kernel chosen for a query.
#[derive(Debug, Clone, Copy, PartialEq, Eq, Structural)]
pub enum SdpaKernel {
    /// Single query, one pass over the keys.
    Vector,
    /// Single query, keys split over `TWO_PASS_BLOCKS` blocks whose partial
    /// results are merged afterwards.
    VectorTwoPass,
    /// Full quadratic attention; query and key lengths are equal.
    Full,
}

/// Everything needed to issue fused scaled-dot-product attention; `scale`
/// and the softcap are supplied at launch time.
pub struct SdpaLaunch {
    pub kernel: SdpaKernel,
    pub dtype: DType,
    /// (batch, q_heads, q_seq, v_dim).
    pub out_shape: Vec<usize>,
    /// Two-pass only: shape of the per-block partial outputs,
    /// (batch, q_heads, blocks, v_dim); empty otherwise.
    pub partials_shape: Vec<usize>,
    /// Two-pass only: shape of the per-block running sums and maxima,
    /// (batch, q_heads, blocks); empty otherwise.
    pub stats_shape: Vec<usize>,
    pub q_start: usize,
    pub k_start: usize,
    pub v_start: usize,
}

/// The refusal, if any, of fused attention on `q` (batch, q_heads, q_seq,
/// dim), `k` (batch, kv_heads, kv_seq, dim) and `v` (batch, kv_heads,
/// kv_seq, v_dim), in the order the checks are made.
pub open spec fn sdpa_error(q: Tensor, k: Tensor, v: Tensor) -> Option<OpError> {
    let q_heads = q.shape()[1];
    let q_seq = q.shape()[2];
    let head_dim = q.shape()[3];
    let kv_heads = k.shape()[1];
    if k.device != q.device || v.device != q.device {
        Some(OpError::PreconditionViolation)
    } else if !(q.device is Metal) {
        Some(OpError::BackendUnsupported)
    } else if q.rank() != 4 || k.rank() != 4 || v.rank() != 4 {
        Some(OpError::ShapeMismatch)
    } else if head_dim != k.shape()[3] {
        Some(OpError::PreconditionViolation)
    } else if v.shape()[1] != kv_heads {
        Some(OpError::PreconditionViolation)
    } else if kv_heads == 0 || q_heads % kv_heads != 0 {
        Some(OpError::PreconditionViolation)
    } else if !supported_head_dim(head_dim) {
        Some(OpError::PreconditionViolation)
    } else if !(q_seq == 1 || (q_seq >= FULL_MIN_SEQ && q_heads == kv_heads)) {
        Some(OpError::PreconditionViolation)
    } else if k.dtype != q.dtype || v.dtype != q.dtype {
        Some(OpError::PreconditionViolation)
    } else if !is_kernel_float(q.dtype) {
        Some(OpError::UnsupportedDType)
    } else if q_seq != 1 && q_seq != k.shape()[2] {
        Some(OpError::PreconditionViolation)
    } else {
        None
    }
}

/// The kernel that serves an accepted query.
pub open spec fn sdpa_kernel(q: Tensor, k: Tensor) -> SdpaKernel {
    if q.shape()[2] == 1 {
        if k.shape()[2] > TWO_PASS_KV_THRESHOLD {
            SdpaKernel::VectorTwoPass
        } else {
            SdpaKernel::Vector
        }
    } else {
        SdpaKernel::Full
    }
}

/// What a successful attention launch holds.
pub open spec fn sdpa_launch_ok(l: SdpaLaunch, q: Tensor, k: Tensor, v: Tensor) -> bool {
    let (b, h, s, vd) = (q.shape()[0], q.shape()[1], q.shape()[2], v.shape()[3]);
    &&& l.kernel == sdpa_kernel(q, k)
    &&& l.dtype == q.dtype
    &&& l.out_shape@ == seq![b, h, s, vd]
    &&& l.partials_shape@ == (if l.kernel == SdpaKernel::VectorTwoPass {
        seq![b, h, TWO_PASS_BLOCKS, vd]
    } else {
        Seq::<usize>::empty()
    })
    &&& l.stats_shape@ == (if l.kernel == SdpaKernel::VectorTwoPass {
        seq![b, h, TWO_PASS_BLOCKS]
    } else {
        Seq::<usize>::empty()
    })
    &&& l.q_start == q.layout.offset_view()
    &&& l.k_start == k.layout.offset_view()
    &&& l.v_start == v.layout.offset_view()
}

/// Validation and kernel routing on the Metal backend.
#[verifier::rlimit(40)]
fn metal_fwd(q: &Tensor, k: &Tensor, v: &Tensor) -> (r: Result<SdpaLaunch, OpError>)
    requires
        k.device == q.device,
        v.device == q.device,
        q.device is Metal,
    ensures
        r is Ok <==> sdpa_error(*q, *k, *v) is None,
        r matches Err(e) ==> sdpa_error(*q, *k, *v) == Some(e),
        r matches Ok(l) ==> sdpa_launch_ok(l, *q, *k, *v),
{
    let (b, q_heads, q_seq, head_dim) = match q.layout.dims4() {
        Ok(d) => d,
        Err(e) => return Err(e),
    };
    let (_kb, kv_heads, kv_seq, k_dim) = match k.layout.dims4() {
        Ok(d) => d,
        Err(e) => return Err(e),
    };
    let (_vb, v_heads, _vs, v_dim) = match v.layout.dims4() {
        Ok(d) => d,
        Err(e) => return Err(e),
    };
    if head_dim != k_dim {
        return Err(OpError::PreconditionViolation);
    }
    if v_heads != kv_heads {
        return Err(OpError::PreconditionViolation);
    }
    if kv_heads == 0 || q_heads % kv_heads != 0 {
        return Err(OpError::PreconditionViolation);
    }
    let supported = head_dim == 32 || head_dim == 64 || head_dim == 96 || head_dim == 128
        || head_dim == 256;
    if !supported {
        return Err(OpError::PreconditionViolation);
    }
    let vector = q_seq == 1;
    let full = q_seq >= FULL_MIN_SEQ && q_heads == kv_heads;
    if !(vector || full) {
        return Err(OpError::PreconditionViolation);
    }
    if k.dtype != q.dtype || v.dtype != q.dtype {
        return Err(OpError::PreconditionViolation);
    }
    if !q.dtype.is_kernel_float() {
        return Err(OpError::UnsupportedDType);
    }
    let out_shape = shape4(b, q_heads, q_seq, v_dim);
    let (kernel, partials_shape, stats_shape) = if vector {
        if kv_seq > TWO_PASS_KV_THRESHOLD {
            (
                SdpaKernel::VectorTwoPass,
                shape4(b, q_heads, TWO_PASS_BLOCKS, v_dim),
                shape3(b, q_heads, TWO_PASS_BLOCKS),
            )
        } else {
            (SdpaKernel::Vector, Vec::new(), Vec::new())
        }
    } else {
        if q_seq != kv_seq {
            return Err(OpError::PreconditionViolation);
        }
        (SdpaKernel::Full, Vec::new(), Vec::new())
    };
    Ok(
        SdpaLaunch {
            kernel,
            dtype: q.dtype,
            out_shape,
            partials_shape,
            stats_shape,
            q_start: q.layout.start_offset(),
            k_start: k.layout.start_offset(),
            v_start: v.layout.start_offset(),
        },
    )
}

/// Scaled dot-product attention `softmax(q k^T * scale) v` with a fused
/// kernel. A single query (`q_seq == 1`) may attend to any number of keys
/// and use grouped heads; longer queries need `q_seq == kv_seq` and equal
/// head counts. Only the Metal backend implements it.
pub fn sdpa(q: &Tensor, k: &Tensor, v: &Tensor) -> (r: Result<SdpaLaunch, OpError>)
    ensures
        r is Ok <==> sdpa_error(*q, *k, *v) is None,
        r matches Err(e) ==> sdpa_error(*q, *k, *v) == Some(e),
        r matches Ok(l) ==> sdpa_launch_ok(l, *q, *k, *v),
{
    if !k.device.same_device(&q.device) || !v.device.same_device(&q.device) {
        return Err(OpError::PreconditionViolation);
    }
    match q.device.backend() {
        Backend::Metal => metal_fwd(q, k, v),
        _ => Err(OpError::BackendUnsupported),
    }
}

} // verus!
