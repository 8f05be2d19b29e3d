use vstd::prelude::*;
use crate::composed::{lemma_broadcast_last, slow_norm_error, slow_norm_shape, softmax_dim_error};
use crate::device::Backend;
use crate::dtype::is_kernel_float;
use crate::error::OpError;
use crate::rowwise::{
    attn_shapes_ok,
    attn_softmax_error,
    layer_norm_error,
    rms_norm_error,
    softmax_error,
};
use crate::sdpa::{sdpa_error, sdpa_kernel, supported_head_dim, SdpaKernel};
use crate::tensor::{Dim, Tensor};

verus! {

/// Whenever the fused softmax over the last dimension accepts `xs`, the
/// composed softmax over the last dimension accepts it too; both produce a
/// tensor of the shape and element type of `xs`.
pub proof fn lemma_softmax_last_dim_matches_composed(xs: Tensor)
    requires
        softmax_error(xs) is None,
    ensures
        softmax_dim_error(xs, Dim::Minus(1)) is None,
{
}

/// The fused softmax accepts its own output again: a fresh contiguous
/// tensor of the same shape, element type and device as an accepted input.
pub proof fn lemma_softmax_output_accepted(xs: Tensor, out: Tensor)
    requires
        softmax_error(xs) is None,
        out.dtype == xs.dtype,
        out.device == xs.device,
        out.shape() == xs.shape(),
        out.layout.is_row_major(),
    ensures
        softmax_error(out) is None,
{
}

/// Whenever the fused RMS norm accepts `x` and `alpha`, the composed RMS
/// norm accepts them too and produces a tensor of the shape of `x`.
pub proof fn lemma_rms_norm_matches_slow(x: Tensor, alpha: Tensor)
    requires
        x.layout.well_formed(),
        rms_norm_error(x, alpha) is None,
    ensures
        slow_norm_error(x, alpha, None) is None,
        slow_norm_shape(x, alpha, None) == x.shape(),
{
    assert(alpha.shape() =~= seq![x.shape().last()]);
    lemma_broadcast_last(x.shape());
}

/// The fused RMS norm refuses an `alpha` whose length differs from the last
/// dimension of `x` with a shape mismatch.
pub proof fn lemma_rms_norm_rejects_mismatch(x: Tensor, alpha: Tensor)
    requires
        x.rank() >= 1,
        alpha.rank() == 1,
        alpha.shape()[0] != x.shape().last(),
    ensures
        rms_norm_error(x, alpha) == Some(OpError::ShapeMismatch),
{
}

/// Whenever the fused layer norm accepts `x`, `alpha` and `beta`, the
/// composed layer norm accepts them too and produces a tensor of the shape
/// of `x`.
pub proof fn lemma_layer_norm_matches_slow(x: Tensor, alpha: Tensor, beta: Tensor)
    requires
        x.layout.well_formed(),
        layer_norm_error(x, alpha, beta) is None,
    ensures
        slow_norm_error(x, alpha, Some(beta)) is None,
        slow_norm_shape(x, alpha, Some(beta)) == x.shape(),
{
    assert(alpha.shape() =~= seq![x.shape().last()]);
    assert(beta.shape() =~= seq![x.shape().last()]);
    lemma_broadcast_last(x.shape());
}

/// The fused layer norm refuses an `alpha` or a `beta` whose length differs
/// from the last dimension of `x` with a shape mismatch.
pub proof fn lemma_layer_norm_rejects_mismatch(x: Tensor, alpha: Tensor, beta: Tensor)
    requires
        x.rank() >= 1,
        alpha.rank() == 1,
        beta.rank() == 1,
        alpha.shape()[0] != x.shape().last() || beta.shape()[0] != x.shape().last(),
    ensures
        layer_norm_error(x, alpha, beta) == Some(OpError::ShapeMismatch),
{
}

/// Fused attention on three rank-4 operands on one Metal device refuses an
/// unsupported head dimension with a precondition violation.
pub proof fn lemma_sdpa_rejects_head_dim(q: Tensor, k: Tensor, v: Tensor)
    requires
        q.device is Metal,
        k.device == q.device,
        v.device == q.device,
        q.rank() == 4,
        k.rank() == 4,
        v.rank() == 4,
        !supported_head_dim(q.shape()[3]),
    ensures
        sdpa_error(q, k, v) == Some(OpError::PreconditionViolation),
{
}

/// Fused attention on three rank-4 operands on one Metal device refuses a
/// query head count that is not a multiple of the key/value head count with
/// a precondition violation.
pub proof fn lemma_sdpa_rejects_ungrouped_heads(q: Tensor, k: Tensor, v: Tensor)
    requires
        q.device is Metal,
        k.device == q.device,
        v.device == q.device,
        q.rank() == 4,
        k.rank() == 4,
        v.rank() == 4,
        k.shape()[1] == 0 || q.shape()[1] % k.shape()[1] != 0,
    ensures
        sdpa_error(q, k, v) == Some(OpError::PreconditionViolation),
{
}

/// Fused attention serves both eligible cases on Metal: a single query
/// (vector kernel, any key length, grouped heads allowed) and a query as
/// long as the keys with equal head counts (full kernel), for a supported
/// head dimension and one of the three kernel element types.
pub proof fn lemma_sdpa_serves_eligible(q: Tensor, k: Tensor, v: Tensor)
    requires
        q.device is Metal,
        k.device == q.device,
        v.device == q.device,
        q.rank() == 4,
        k.rank() == 4,
        v.rank() == 4,
        q.shape()[3] == k.shape()[3],
        supported_head_dim(q.shape()[3]),
        v.shape()[1] == k.shape()[1],
        k.shape()[1] > 0,
        q.shape()[1] % k.shape()[1] == 0,
        q.shape()[2] == 1 || (q.shape()[2] >= 2 && q.shape()[2] == k.shape()[2] && q.shape()[1]
            == k.shape()[1]),
        k.dtype == q.dtype,
        v.dtype == q.dtype,
        is_kernel_float(q.dtype),
    ensures
        sdpa_error(q, k, v) is None,
        q.shape()[2] == 1 ==> sdpa_kernel(q, k) != SdpaKernel::Full,
        q.shape()[2] != 1 ==> sdpa_kernel(q, k) == SdpaKernel::Full,
{
}

/// The masked softmax refuses an input that is not of rank 4, or a mask that
/// is not of rank 2, with a shape mismatch.
pub proof fn lemma_attn_softmax_rejects_ranks(xs: Tensor, mask: Tensor)
    requires
        xs.rank() != 4 || mask.rank() != 2,
    ensures
        attn_softmax_error(xs, mask) == Some(OpError::ShapeMismatch),
{
}

/// Off Metal, the masked softmax of correctly shaped operands on one device
/// with one element type is the plain fused softmax of the materialised
/// `(xs + mask) * scale`: it is accepted exactly when that softmax is.
pub proof fn lemma_attn_softmax_decomposes(xs: Tensor, mask: Tensor, scaled: Tensor)
    requires
        attn_shapes_ok(xs, mask),
        xs.backend() != Backend::Metal,
        mask.device == xs.device,
        mask.dtype == xs.dtype,
        scaled.dtype == xs.dtype,
        scaled.device == xs.device,
        scaled.shape() == xs.shape(),
        scaled.layout.is_row_major(),
    ensures
        attn_softmax_error(xs, mask) == softmax_error(scaled),
{
}

} // verus!
