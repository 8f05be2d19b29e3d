use vstd::prelude::*;
use crate::device::{Backend, Device};
use crate::dtype::{is_host_float, is_kernel_float, DType};
use crate::error::OpError;
use crate::layout::{elem_count, lemma_fits_at_zero, Layout};
use crate::tensor::{opt_tensor, Tensor};

verus! {

/// Row length from which the CUDA normalisation kernels use a full block.
pub const WIDE_ROW: usize = 1024;

/// The kernels that reduce each row (last dimension) of their input.
#[derive(Debug, Clone, Copy, PartialEq, Eq, Structural)]
pub enum RowOp {
    Softmax,
    RmsNorm,
    LayerNorm,
    /// Softmax of `(x + mask) * scale`, fused.
    AttnSoftmax,
}

/// Element types a row kernel is built for on a backend.
pub open spec fn row_supported(op: RowOp, backend: Backend, dt: DType) -> bool {
    match backend {
        Backend::Cpu => match op {
            RowOp::Softmax => is_host_float(dt),
            RowOp::RmsNorm | RowOp::LayerNorm => is_kernel_float(dt),
            RowOp::AttnSoftmax => false,
        },
        Backend::Cuda => match op {
            RowOp::AttnSoftmax => false,
            _ => is_host_float(dt),
        },
        Backend::Metal => is_kernel_float(dt),
    }
}

/// Threads that cooperate on one row in the CUDA kernels: the
/// normalisations use a full block of 1024 threads on wide rows and a single
/// warp otherwise; softmax always uses one warp.
pub open spec fn cuda_block_size(op: RowOp, row_len: usize) -> u32 {
    match op {
        RowOp::RmsNorm | RowOp::LayerNorm => if row_len < WIDE_ROW {
            32
        } else {
            1024
        },
        _ => 32,
    }
}

/// Number of rows of a tensor with dimensions `shape` (rank at least 1);
/// none when rows are empty.
pub open spec fn row_count(shape: Seq<usize>) -> nat {
    let len = shape.last();
    if len == 0 {
        0
    } else {
        elem_count(shape) / (len as nat)
    }
}

/// The CUDA launch grid has one block per row, and the row length is passed
/// as a 32-bit signed integer.
pub open spec fn cuda_limits_ok(shape: Seq<usize>) -> bool {
    row_count(shape) <= u32::MAX && shape.last() <= i32::MAX
}

/// One row-reduction launch.
pub struct RowLaunch {
    pub backend: Backend,
    pub op: RowOp,
    pub dtype: DType,
    /// Element offset of the first row in the source buffer.
    pub src_start: usize,
    pub n_rows: usize,
    pub row_len: usize,
    /// CUDA block size; 0 on other backends.
    pub block_size: u32,
    /// Element offsets of the per-column operands (alpha, then beta) or of
    /// the mask.
    pub operand_starts: Vec<usize>,
    /// Whether the result overwrites the source rows; otherwise it goes to
    /// a fresh contiguous buffer.
    pub in_place: bool,
    pub out_shape: Vec<usize>,
}

pub open spec fn opt_start(p: Option<Tensor>) -> Seq<usize> {
    match p {
        Some(t) => seq![t.layout.offset_view()],
        None => Seq::empty(),
    }
}

/// What a row launch of `op` holds when it reads rows of a contiguous
/// buffer region of dimensions `shape` starting at `start`.
pub open spec fn rows_ok(
    l: RowLaunch,
    op: RowOp,
    backend: Backend,
    dt: DType,
    shape: Seq<usize>,
    start: usize,
    operand_starts: Seq<usize>,
    in_place: bool,
) -> bool {
    &&& l.backend == backend
    &&& l.op == op
    &&& l.dtype == dt
    &&& l.src_start == start
    &&& l.row_len == shape.last()
    &&& l.n_rows == row_count(shape)
    &&& l.n_rows * l.row_len == elem_count(shape)
    &&& l.block_size == (if backend == Backend::Cuda {
        cuda_block_size(op, shape.last())
    } else {
        0
    })
    &&& l.operand_starts@ == operand_starts
    &&& l.in_place == in_place
    &&& l.out_shape@ == shape
}

/// The refusal, if any, once the operator's own shape checks have passed:
/// operands on one device, a supported and common element type, contiguous
/// layouts, and the CUDA launch limits.
pub open spec fn launch_error(op: RowOp, xs: Tensor, p1: Option<Tensor>, p2: Option<Tensor>) -> Option<
    OpError,
> {
    if (p1 matches Some(t) && t.device != xs.device) || (p2 matches Some(t) && t.device
        != xs.device) {
        Some(OpError::PreconditionViolation)
    } else if !row_supported(op, xs.backend(), xs.dtype) || (p1 matches Some(t) && t.dtype
        != xs.dtype) || (p2 matches Some(t) && t.dtype != xs.dtype) {
        Some(OpError::UnsupportedDType)
    } else if !xs.layout.is_row_major() || (p1 matches Some(t) && !t.layout.is_row_major()) || (
    p2 matches Some(t) && !t.layout.is_row_major()) {
        Some(OpError::PreconditionViolation)
    } else if xs.backend() == Backend::Cuda && !cuda_limits_ok(xs.shape()) {
        Some(OpError::ShapeTooLarge)
    } else {
        None
    }
}

fn opt_row_major(p: Option<&Tensor>) -> (r: bool)
    ensures
        r == (opt_tensor(p) matches Some(t) ==> t.layout.is_row_major()),
{
    match p {
        Some(t) => t.layout.is_contiguous(),
        None => true,
    }
}

fn opt_same_device(p: Option<&Tensor>, d: &Device) -> (r: bool)
    ensures
        r == (opt_tensor(p) matches Some(t) ==> t.device == *d),
{
    match p {
        Some(t) => t.device.same_device(d),
        None => true,
    }
}

fn opt_same_dtype(p: Option<&Tensor>, dt: DType) -> (r: bool)
    ensures
        r == (opt_tensor(p) matches Some(t) ==> t.dtype == dt),
{
    match p {
        Some(t) => t.dtype == dt,
        None => true,
    }
}

fn supported(op: RowOp, backend: Backend, dt: DType) -> (r: bool)
    ensures
        r == row_supported(op, backend, dt),
{
    match backend {
        Backend::Cpu => match op {
            RowOp::Softmax => dt.is_host_float(),
            RowOp::RmsNorm | RowOp::LayerNorm => dt.is_kernel_float(),
            RowOp::AttnSoftmax => false,
        },
        Backend::Cuda => match op {
            RowOp::AttnSoftmax => false,
            _ => dt.is_host_float(),
        },
        Backend::Metal => dt.is_kernel_float(),
    }
}

/// The partial products of a non-empty shape are multiples of its last
/// dimension.
proof fn lemma_suffix_multiple_of_last(s: Seq<usize>, i: int) -> (k: nat)
    requires
        0 <= i < s.len(),
    ensures
        crate::layout::suffix_size(s, i) == k * (s.last() as nat),
    decreases s.len() - i,
{
    if i == s.len() - 1 {
        assert(crate::layout::suffix_size(s, i + 1) == 1);
        1
    } else {
        let k1 = lemma_suffix_multiple_of_last(s, i + 1);
        let d = s[i] as nat;
        let l = s.last() as nat;
        assert(d * (k1 * l) == (d * k1) * l) by (nonlinear_arith);
        d * k1
    }
}

/// The rows of a shape of rank at least 1 tile all of its elements.
proof fn lemma_rows_cover(s: Seq<usize>)
    requires
        s.len() >= 1,
    ensures
        row_count(s) * (s.last() as nat) == elem_count(s),
{
    let l = s.last() as nat;
    let k = lemma_suffix_multiple_of_last(s, 0);
    if l == 0 {
        assert(k * l == 0) by (nonlinear_arith)
            requires
                l == 0,
        ;
    } else {
        assert((k * l) / l == k) by (nonlinear_arith)
            requires
                l > 0,
        ;
    }
}

/// Row geometry of a layout of rank at least 1: (rows, row length).
fn rows_of(l: &Layout) -> (r: (usize, usize))
    requires
        l.dims_view().len() >= 1,
    ensures
        r.0 == row_count(l.dims_view()),
        r.1 == l.dims_view().last(),
        r.0 * r.1 == elem_count(l.dims_view()),
{
    let count = l.elem_count();
    proof {
        lemma_rows_cover(l.dims_view());
    }
    let len = match l.dim_from_end(1) {
        Ok(d) => d,
        Err(_) => 0,
    };
    if len == 0 {
        (0, len)
    } else {
        (count / len, len)
    }
}

/// Plans a row launch after the operator's own shape checks.
fn plan_rows(
    op: RowOp,
    xs: &Tensor,
    p1: Option<&Tensor>,
    p2: Option<&Tensor>,
    in_place: bool,
) -> (r: Result<RowLaunch, OpError>)
    requires
        xs.rank() >= 1,
    ensures
        r is Ok <==> launch_error(op, *xs, opt_tensor(p1), opt_tensor(p2)) is None,
        r matches Err(e) ==> launch_error(op, *xs, opt_tensor(p1), opt_tensor(p2)) == Some(e),
        r matches Ok(l) ==> rows_ok(
            l,
            op,
            xs.backend(),
            xs.dtype,
            xs.shape(),
            xs.layout.offset_view(),
            opt_start(opt_tensor(p1)) + opt_start(opt_tensor(p2)),
            in_place,
        ),
{
    if !opt_same_device(p1, &xs.device) || !opt_same_device(p2, &xs.device) {
        return Err(OpError::PreconditionViolation);
    }
    let backend = xs.device.backend();
    if !supported(op, backend, xs.dtype) || !opt_same_dtype(p1, xs.dtype) || !opt_same_dtype(
        p2,
        xs.dtype,
    ) {
        return Err(OpError::UnsupportedDType);
    }
    if !xs.layout.is_contiguous() || !opt_row_major(p1) || !opt_row_major(p2) {
        return Err(OpError::PreconditionViolation);
    }
    let (n_rows, row_len) = rows_of(&xs.layout);
    let block_size: u32 = match backend {
        Backend::Cuda => {
            if n_rows > u32::MAX as usize || row_len > i32::MAX as usize {
                return Err(OpError::ShapeTooLarge);
            }
            match op {
                RowOp::RmsNorm | RowOp::LayerNorm => if row_len < WIDE_ROW {
                    32
                } else {
                    1024
                },
                _ => 32,
            }
        },
        _ => 0,
    };
    let mut operand_starts: Vec<usize> = Vec::new();
    if let Some(t) = p1 {
        operand_starts.push(t.layout.start_offset());
    }
    if let Some(t) = p2 {
        operand_starts.push(t.layout.start_offset());
    }
    assert(operand_starts@ =~= opt_start(opt_tensor(p1)) + opt_start(opt_tensor(p2)));
    Ok(
        RowLaunch {
            backend,
            op,
            dtype: xs.dtype,
            src_start: xs.layout.start_offset(),
            n_rows,
            row_len,
            block_size,
            operand_starts,
            in_place,
            out_shape: xs.dims().clone(),
        },
    )
}

/// The refusal, if any, of the fused softmax over the last dimension.
pub open spec fn softmax_error(xs: Tensor) -> Option<OpError> {
    if xs.rank() == 0 {
        Some(OpError::ShapeMismatch)
    } else {
        launch_error(RowOp::Softmax, xs, None, None)
    }
}

/// The refusal, if any, of the fused RMS norm of `xs` scaled by `alpha`.
pub open spec fn rms_norm_error(xs: Tensor, alpha: Tensor) -> Option<OpError> {
    if xs.rank() == 0 || alpha.rank() != 1 || alpha.shape()[0] != xs.shape().last() {
        Some(OpError::ShapeMismatch)
    } else {
        launch_error(RowOp::RmsNorm, xs, Some(alpha), None)
    }
}

/// The refusal, if any, of the fused layer norm of `xs` with `alpha` and
/// `beta`.
pub open spec fn layer_norm_error(xs: Tensor, alpha: Tensor, beta: Tensor) -> Option<OpError> {
    if xs.rank() == 0 || alpha.rank() != 1 || beta.rank() != 1 || alpha.shape()[0]
        != xs.shape().last() || beta.shape()[0] != xs.shape().last() {
        Some(OpError::ShapeMismatch)
    } else {
        launch_error(RowOp::LayerNorm, xs, Some(alpha), Some(beta))
    }
}

fn softmax_checked(xs: &Tensor, in_place: bool) -> (r: Result<RowLaunch, OpError>)
    ensures
        r is Ok <==> softmax_error(*xs) is None,
        r matches Err(e) ==> softmax_error(*xs) == Some(e),
        r matches Ok(l) ==> rows_ok(
            l,
            RowOp::Softmax,
            xs.backend(),
            xs.dtype,
            xs.shape(),
            xs.layout.offset_view(),
            Seq::empty(),
            in_place,
        ),
{
    if xs.layout.rank() == 0 {
        return Err(OpError::ShapeMismatch);
    }
    let r = plan_rows(RowOp::Softmax, xs, None, None, in_place);
    assert(opt_start(opt_tensor(None)) + opt_start(opt_tensor(None)) =~= Seq::<usize>::empty());
    r
}

/// Softmax over the last dimension, written to a fresh buffer. The input
/// must be contiguous.
pub fn softmax_last_dim(xs: &Tensor) -> (r: Result<RowLaunch, OpError>)
    ensures
        r is Ok <==> softmax_error(*xs) is None,
        r matches Err(e) ==> softmax_error(*xs) == Some(e),
        r matches Ok(l) ==> rows_ok(
            l,
            RowOp::Softmax,
            xs.backend(),
            xs.dtype,
            xs.shape(),
            xs.layout.offset_view(),
            Seq::empty(),
            false,
        ),
{
    softmax_checked(xs, false)
}

/// Softmax over the last dimension, overwriting the input rows. The input
/// must be contiguous.
pub fn inplace_softmax_last_dim(xs: &Tensor) -> (r: Result<RowLaunch, OpError>)
    ensures
        r is Ok <==> softmax_error(*xs) is None,
        r matches Err(e) ==> softmax_error(*xs) == Some(e),
        r matches Ok(l) ==> rows_ok(
            l,
            RowOp::Softmax,
            xs.backend(),
            xs.dtype,
            xs.shape(),
            xs.layout.offset_view(),
            Seq::empty(),
            true,
        ),
{
    softmax_checked(xs, true)
}

/// RMS norm over the last dimension, `x / sqrt(mean(x^2) + eps) * alpha`;
/// `alpha` is one-dimensional with one entry per column.
pub fn rms_norm(xs: &Tensor, alpha: &Tensor) -> (r: Result<RowLaunch, OpError>)
    ensures
        r is Ok <==> rms_norm_error(*xs, *alpha) is None,
        r matches Err(e) ==> rms_norm_error(*xs, *alpha) == Some(e),
        r matches Ok(l) ==> rows_ok(
            l,
            RowOp::RmsNorm,
            xs.backend(),
            xs.dtype,
            xs.shape(),
            xs.layout.offset_view(),
            seq![alpha.layout.offset_view()],
            false,
        ),
{
    let hidden = match xs.layout.dim_from_end(1) {
        Ok(d) => d,
        Err(e) => return Err(e),
    };
    let hidden_alpha = match alpha.layout.dims1() {
        Ok(d) => d,
        Err(e) => return Err(e),
    };
    if hidden != hidden_alpha {
        return Err(OpError::ShapeMismatch);
    }
    let r = plan_rows(RowOp::RmsNorm, xs, Some(alpha), None, false);
    assert(opt_start(opt_tensor(Some(alpha))) + opt_start(opt_tensor(None)) =~= seq![
        alpha.layout.offset_view(),
    ]);
    r
}

/// Layer norm over the last dimension,
/// `(x - mean) / sqrt(var + eps) * alpha + beta`; `alpha` and `beta` are
/// one-dimensional with one entry per column.
pub fn layer_norm(xs: &Tensor, alpha: &Tensor, beta: &Tensor) -> (r: Result<RowLaunch, OpError>)
    ensures
        r is Ok <==> layer_norm_error(*xs, *alpha, *beta) is None,
        r matches Err(e) ==> layer_norm_error(*xs, *alpha, *beta) == Some(e),
        r matches Ok(l) ==> rows_ok(
            l,
            RowOp::LayerNorm,
            xs.backend(),
            xs.dtype,
            xs.shape(),
            xs.layout.offset_view(),
            seq![alpha.layout.offset_view(), beta.layout.offset_view()],
            false,
        ),
{
    let hidden = match xs.layout.dim_from_end(1) {
        Ok(d) => d,
        Err(e) => return Err(e),
    };
    let hidden_alpha = match alpha.layout.dims1() {
        Ok(d) => d,
        Err(e) => return Err(e),
    };
    let hidden_beta = match beta.layout.dims1() {
        Ok(d) => d,
        Err(e) => return Err(e),
    };
    if hidden != hidden_alpha || hidden != hidden_beta {
        return Err(OpError::ShapeMismatch);
    }
    let r = plan_rows(RowOp::LayerNorm, xs, Some(alpha), Some(beta), false);
    assert(opt_start(opt_tensor(Some(alpha))) + opt_start(opt_tensor(Some(beta))) =~= seq![
        alpha.layout.offset_view(),
        beta.layout.offset_view(),
    ]);
    r
}

/// A masked, scaled softmax launch.
pub struct AttnSoftmaxLaunch {
    /// When false, `(xs + mask) * scale` is first written to a fresh
    /// contiguous buffer of the input's shape and `rows` runs the plain
    /// softmax over that buffer.
    pub fused: bool,
    pub rows: RowLaunch,
}

/// `xs` has rank 4, `mask` rank 2, and the mask's dimensions equal the last
/// two dimensions of `xs`.
pub open spec fn attn_shapes_ok(xs: Tensor, mask: Tensor) -> bool {
    &&& xs.rank() == 4
    &&& mask.rank() == 2
    &&& mask.shape()[1] == xs.shape()[3]
    &&& mask.shape()[0] == xs.shape()[2]
}

/// The refusal, if any, of the masked softmax.
pub open spec fn attn_softmax_error(xs: Tensor, mask: Tensor) -> Option<OpError> {
    if !attn_shapes_ok(xs, mask) {
        Some(OpError::ShapeMismatch)
    } else if xs.backend() == Backend::Metal {
        launch_error(RowOp::AttnSoftmax, xs, Some(mask), None)
    } else if mask.device != xs.device {
        Some(OpError::PreconditionViolation)
    } else if mask.dtype != xs.dtype || !row_supported(RowOp::Softmax, xs.backend(), xs.dtype) {
        Some(OpError::UnsupportedDType)
    } else if xs.backend() == Backend::Cuda && !cuda_limits_ok(xs.shape()) {
        Some(OpError::ShapeTooLarge)
    } else {
        None
    }
}

/// What a successful masked softmax launch holds.
pub open spec fn attn_launch_ok(l: AttnSoftmaxLaunch, xs: Tensor, mask: Tensor, in_place: bool) -> bool {
    if xs.backend() == Backend::Metal {
        &&& l.fused
        &&& rows_ok(
            l.rows,
            RowOp::AttnSoftmax,
            Backend::Metal,
            xs.dtype,
            xs.shape(),
            xs.layout.offset_view(),
            seq![mask.layout.offset_view()],
            in_place,
        )
    } else {
        &&& !l.fused
        &&& rows_ok(
            l.rows,
            RowOp::Softmax,
            xs.backend(),
            xs.dtype,
            xs.shape(),
            0,
            Seq::empty(),
            false,
        )
    }
}

#[verifier::rlimit(30)]
fn attn_checked(xs: &Tensor, mask: &Tensor, in_place: bool) -> (r: Result<AttnSoftmaxLaunch, OpError>)
    ensures
        r is Ok <==> attn_softmax_error(*xs, *mask) is None,
        r matches Err(e) ==> attn_softmax_error(*xs, *mask) == Some(e),
        r matches Ok(l) ==> attn_launch_ok(l, *xs, *mask, in_place),
{
    if xs.layout.rank() != 4 || mask.layout.rank() != 2 {
        return Err(OpError::ShapeMismatch);
    }
    let m1 = match mask.layout.dim_from_end(1) {
        Ok(d) => d,
        Err(e) => return Err(e),
    };
    let m2 = match mask.layout.dim_from_end(2) {
        Ok(d) => d,
        Err(e) => return Err(e),
    };
    let x1 = match xs.layout.dim_from_end(1) {
        Ok(d) => d,
        Err(e) => return Err(e),
    };
    let x2 = match xs.layout.dim_from_end(2) {
        Ok(d) => d,
        Err(e) => return Err(e),
    };
    if m1 != x1 || m2 != x2 {
        return Err(OpError::ShapeMismatch);
    }
    if xs.device.is_metal() {
        let rows = match plan_rows(RowOp::AttnSoftmax, xs, Some(mask), None, in_place) {
            Ok(l) => l,
            Err(e) => return Err(e),
        };
        assert(opt_start(opt_tensor(Some(mask))) + opt_start(opt_tensor(None)) =~= seq![
            mask.layout.offset_view(),
        ]);
        return Ok(AttnSoftmaxLaunch { fused: true, rows });
    }
    if !mask.device.same_device(&xs.device) {
        return Err(OpError::PreconditionViolation);
    }
    if mask.dtype != xs.dtype {
        return Err(OpError::UnsupportedDType);
    }
    proof {
        lemma_fits_at_zero(xs.shape(), xs.layout.offset_view() as nat);
    }
    let scaled = match Tensor::contiguous(xs.dtype, xs.device, xs.dims().clone()) {
        Ok(t) => t,
        Err(e) => return Err(e),
    };
    let rows = match softmax_checked(&scaled, false) {
        Ok(l) => l,
        Err(e) => return Err(e),
    };
    Ok(AttnSoftmaxLaunch { fused: false, rows })
}

/// Softmax over the last dimension of `(xs + mask) * scale`, with `scale`
/// supplied at launch time: `xs` has rank 4 and `mask` rank 2 matching the
/// last two dimensions of `xs`. Fused on Metal; elsewhere the masked and
/// scaled input is materialised first.
pub fn attn_softmax_last_dim(xs: &Tensor, mask: &Tensor) -> (r: Result<AttnSoftmaxLaunch, OpError>)
    ensures
        r is Ok <==> attn_softmax_error(*xs, *mask) is None,
        r matches Err(e) ==> attn_softmax_error(*xs, *mask) == Some(e),
        r matches Ok(l) ==> attn_launch_ok(l, *xs, *mask, false),
{
    attn_checked(xs, mask, false)
}

/// In-place form of `attn_softmax_last_dim`: the result replaces `xs`.
pub fn inplace_attn_softmax_last_dim(xs: &Tensor, mask: &Tensor) -> (r: Result<
    AttnSoftmaxLaunch,
    OpError,
>)
    ensures
        r is Ok <==> attn_softmax_error(*xs, *mask) is None,
        r matches Err(e) ==> attn_softmax_error(*xs, *mask) == Some(e),
        r matches Ok(l) ==> attn_launch_ok(l, *xs, *mask, true),
{
    attn_checked(xs, mask, true)
}

} // verus!
