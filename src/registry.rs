use vstd::prelude::*;
use crate::device::Backend;

verus! {

/// The fused operators, as the tensor-execution engine registers them.
#[derive(Debug, Clone, Copy, PartialEq, Eq, Structural)]
pub enum FusedOp {
    Sigmoid,
    SoftmaxLastDim,
    AttnSoftmaxLastDim,
    RmsNorm,
    LayerNorm,
    Sdpa,
    BatchMatmul,
    BatchMatmulAdd,
}

/// Number of tensor operands of each operator.
pub open spec fn op_arity(op: FusedOp) -> nat {
    match op {
        FusedOp::Sigmoid | FusedOp::SoftmaxLastDim => 1,
        FusedOp::AttnSoftmaxLastDim | FusedOp::RmsNorm | FusedOp::BatchMatmul => 2,
        FusedOp::LayerNorm | FusedOp::Sdpa | FusedOp::BatchMatmulAdd => 3,
    }
}

/// The operators that also come in a form that overwrites their first
/// operand.
pub open spec fn op_in_place(op: FusedOp) -> bool {
    op == FusedOp::SoftmaxLastDim || op == FusedOp::AttnSoftmaxLastDim
}

/// Only the sigmoid defines a gradient; the other fused kernels are
/// forward-only.
pub open spec fn op_has_backward(op: FusedOp) -> bool {
    op == FusedOp::Sigmoid
}

/// The backends with a forward implementation of each operator.
pub open spec fn op_on_backend(op: FusedOp, b: Backend) -> bool {
    match op {
        FusedOp::Sigmoid | FusedOp::SoftmaxLastDim | FusedOp::RmsNorm | FusedOp::LayerNorm => true,
        FusedOp::AttnSoftmaxLastDim | FusedOp::Sdpa => b == Backend::Metal,
        FusedOp::BatchMatmul | FusedOp::BatchMatmulAdd => b == Backend::Cuda,
    }
}

impl FusedOp {
    /// Stable diagnostic name.
    pub fn name(&self) -> (r: &'static str)
        ensures
            *self == FusedOp::Sigmoid ==> r@ == "sigmoid"@,
            *self == FusedOp::SoftmaxLastDim ==> r@ == "softmax-last-dim"@,
            *self == FusedOp::AttnSoftmaxLastDim ==> r@ == "attn-softmax-last-dim"@,
            *self == FusedOp::RmsNorm ==> r@ == "rms-norm"@,
            *self == FusedOp::LayerNorm ==> r@ == "layer-norm"@,
            *self == FusedOp::Sdpa ==> r@ == "metal-sdpa"@,
            *self == FusedOp::BatchMatmul ==> r@ == "cublaslt-batch-matmul"@,
            *self == FusedOp::BatchMatmulAdd ==> r@ == "cublaslt-batch-matmul-add"@,
    {
        match self {
            FusedOp::Sigmoid => "sigmoid",
            FusedOp::SoftmaxLastDim => "softmax-last-dim",
            FusedOp::AttnSoftmaxLastDim => "attn-softmax-last-dim",
            FusedOp::RmsNorm => "rms-norm",
            FusedOp::LayerNorm => "layer-norm",
            FusedOp::Sdpa => "metal-sdpa",
            FusedOp::BatchMatmul => "cublaslt-batch-matmul",
            FusedOp::BatchMatmulAdd => "cublaslt-batch-matmul-add",
        }
    }

    pub fn arity(&self) -> (r: usize)
        ensures
            r == op_arity(*self),
    {
        match self {
            FusedOp::Sigmoid | FusedOp::SoftmaxLastDim => 1,
            FusedOp::AttnSoftmaxLastDim | FusedOp::RmsNorm | FusedOp::BatchMatmul => 2,
            FusedOp::LayerNorm | FusedOp::Sdpa | FusedOp::BatchMatmulAdd => 3,
        }
    }

    pub fn has_in_place_form(&self) -> (r: bool)
        ensures
            r == op_in_place(*self),
    {
        match self {
            FusedOp::SoftmaxLastDim | FusedOp::AttnSoftmaxLastDim => true,
            _ => false,
        }
    }

    pub fn has_backward(&self) -> (r: bool)
        ensures
            r == op_has_backward(*self),
    {
        match self {
            FusedOp::Sigmoid => true,
            _ => false,
        }
    }

    /// Whether `backend` has a forward implementation; on the others the
    /// forward fails with `BackendUnsupported`.
    pub fn runs_on(&self, backend: Backend) -> (r: bool)
        ensures
            r == op_on_backend(*self, backend),
    {
        match self {
            FusedOp::Sigmoid | FusedOp::SoftmaxLastDim | FusedOp::RmsNorm | FusedOp::LayerNorm => true,
            FusedOp::AttnSoftmaxLastDim | FusedOp::Sdpa => backend == Backend::Metal,
            FusedOp::BatchMatmul | FusedOp::BatchMatmulAdd => backend == Backend::Cuda,
        }
    }
}

} // verus!
