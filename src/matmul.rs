use vstd::prelude::*;
use crate::device::{Backend, Device};
use crate::dtype::{is_kernel_float, DType};
use crate::error::OpError;
use crate::layout::{elem_count, fits, lemma_count3};
use crate::registry::FusedOp;
use crate::tensor::{opt_tensor, shape3, Tensor};

verus! {

/// Activation applied by the batched-GEMM epilogue.
#[derive(Debug, Clone, Copy, PartialEq, Eq, Structural)]
pub enum Activation {
    Relu,
    Gelu,
}

/// The vendor matmul library as bound to one CUDA device. It names the
/// device whose library handle executes the launches; creating that handle
/// is the device runtime's work.
pub struct CublasLt {
    pub ordinal: usize,
}

impl CublasLt {
    /// Binds a handle to `device`, which must be a CUDA device.
    pub fn new(device: &Device) -> (r: Result<CublasLt, OpError>)
        ensures
            r is Ok <==> device is Cuda,
            r matches Ok(h) ==> *device == Device::Cuda(h.ordinal),
            r matches Err(e) ==> e == OpError::BackendUnsupported,
    {
        match device {
            Device::Cuda(ordinal) => Ok(CublasLt { ordinal: *ordinal }),
            _ => Err(OpError::BackendUnsupported),
        }
    }
}

/// The parameters of one batched GEMM call in the "TN" convention: `a` is
/// read transposed, `b` as stored.
pub struct MatmulConfig {
    pub transa: bool,
    pub transb: bool,
    pub m: usize,
    pub n: usize,
    pub k: usize,
    pub lda: usize,
    pub ldb: usize,
    pub ldc: usize,
    pub stride_a: usize,
    pub stride_b: usize,
    pub stride_c: usize,
    pub batch_size: i32,
}

/// Everything needed to issue the fused batched matmul.
pub struct MatmulLaunch {
    pub dtype: DType,
    pub config: MatmulConfig,
    /// Element offsets of the first element of `a`, `b` and the bias.
    pub a_start: usize,
    pub b_start: usize,
    pub bias_start: Option<usize>,
    pub act: Option<Activation>,
    /// True when the result is written over the accumulator `c` and
    /// `beta * c` takes part; false when a fresh zeroed output buffer is
    /// used, in which case `beta` does not apply.
    pub accumulate: bool,
    /// (batch, n, m).
    pub out_shape: Vec<usize>,
}

/// Output shape of the TN batched matmul of `a` (batch, m, k) and
/// `b` (batch, n, k).
pub open spec fn matmul_out_shape(a: Tensor, b: Tensor) -> Seq<usize> {
    seq![a.shape()[0], b.shape()[1], a.shape()[1]]
}

/// The refusal, if any, of a batched matmul of element type `dt` on
/// operands `a`, `b`, optional `bias` and optional accumulator `c`, in the
/// order the checks are made.
pub open spec fn matmul_error(
    a: Tensor,
    b: Tensor,
    bias: Option<Tensor>,
    c: Option<Tensor>,
    dt: DType,
) -> Option<OpError> {
    let out = matmul_out_shape(a, b);
    if !(a.device is Cuda) {
        Some(OpError::BackendUnsupported)
    } else if b.device != a.device || (bias matches Some(t) && t.device != a.device) {
        Some(OpError::PreconditionViolation)
    } else if a.rank() != 3 || b.rank() != 3 {
        Some(OpError::ShapeMismatch)
    } else if b.shape()[2] != a.shape()[2] || b.shape()[0] != a.shape()[0] {
        Some(OpError::ShapeMismatch)
    } else if a.dtype != dt || b.dtype != dt {
        Some(OpError::UnsupportedDType)
    } else if bias matches Some(t) && (t.rank() != 1 || t.shape()[0] != a.shape()[1]) {
        Some(OpError::ShapeMismatch)
    } else if bias matches Some(t) && t.dtype != dt {
        Some(OpError::UnsupportedDType)
    } else if c matches Some(t) && !(t.device is Cuda) {
        Some(OpError::PreconditionViolation)
    } else if c matches Some(t) && t.dtype != dt {
        Some(OpError::UnsupportedDType)
    } else if c matches Some(t) && (!t.layout.is_row_major() || t.layout.offset_view() != 0) {
        Some(OpError::PreconditionViolation)
    } else if c matches Some(t) && (t.layout.count() != elem_count(out) || t.shape() != out) {
        Some(OpError::ShapeMismatch)
    } else if c is None && !fits(out, 0) {
        Some(OpError::ShapeTooLarge)
    } else if a.shape()[0] > i32::MAX {
        Some(OpError::PreconditionViolation)
    } else {
        None
    }
}

/// What a successful batched matmul launch holds.
pub open spec fn matmul_launch_ok(
    l: MatmulLaunch,
    a: Tensor,
    b: Tensor,
    bias: Option<Tensor>,
    c: Option<Tensor>,
    act: Option<Activation>,
    dt: DType,
) -> bool {
    let (batch, m, k, n) = (a.shape()[0], a.shape()[1], a.shape()[2], b.shape()[1]);
    &&& l.dtype == dt
    &&& l.config.transa && !l.config.transb
    &&& l.config.m == m && l.config.n == n && l.config.k == k
    &&& l.config.lda == k && l.config.ldb == k && l.config.ldc == m
    &&& l.config.stride_a == a.layout.strides_view()[0]
    &&& l.config.stride_b == b.layout.strides_view()[0]
    &&& l.config.stride_c == (n as nat) * (m as nat)
    &&& l.config.batch_size == batch
    &&& l.a_start == a.layout.offset_view()
    &&& l.b_start == b.layout.offset_view()
    &&& l.bias_start == (match bias {
        Some(t) => Some(t.layout.offset_view()),
        None => None::<usize>,
    })
    &&& l.act == act
    &&& l.accumulate == c is Some
    &&& l.out_shape@ == matmul_out_shape(a, b)
}

/// The refusal, if any, of the CUDA forward: the element type of `a`
/// selects one of the three supported GEMM variants.
pub open spec fn cuda_matmul_error(
    a: Tensor,
    b: Tensor,
    bias: Option<Tensor>,
    c: Option<Tensor>,
) -> Option<OpError> {
    if !is_kernel_float(a.dtype) {
        Some(OpError::UnsupportedDType)
    } else {
        matmul_error(a, b, bias, c, a.dtype)
    }
}

/// The refusal, if any, of `fused_batch_matmul`: all operands must share a
/// device, which must be a CUDA device.
pub open spec fn fused_matmul_error(
    a: Tensor,
    b: Tensor,
    bias: Option<Tensor>,
    c: Option<Tensor>,
) -> Option<OpError> {
    if b.device != a.device || (bias matches Some(t) && t.device != a.device) {
        Some(OpError::PreconditionViolation)
    } else if !(a.device is Cuda) {
        Some(OpError::BackendUnsupported)
    } else {
        cuda_matmul_error(a, b, bias, c)
    }
}

/// The fused batched matmul `act(alpha * a^T b + beta * c + bias)`, with
/// `alpha` and `beta` supplied by the caller at launch time.
pub struct CublasLTBatchMatmul {
    pub cublaslt: CublasLt,
    pub act: Option<Activation>,
    /// Optional accumulator, overwritten with the result.
    pub c: Option<Tensor>,
}

impl CublasLTBatchMatmul {
    /// The registered operator: with a bias operand the three-operand form.
    pub fn op(&self, with_bias: bool) -> (r: FusedOp)
        ensures
            r == (if with_bias {
                FusedOp::BatchMatmulAdd
            } else {
                FusedOp::BatchMatmul
            }),
    {
        if with_bias {
            FusedOp::BatchMatmulAdd
        } else {
            FusedOp::BatchMatmul
        }
    }

    /// Validates the operands for element type `dt` and derives the GEMM
    /// configuration.
    #[verifier::rlimit(40)]
    fn plan(&self, a: &Tensor, b: &Tensor, bias: Option<&Tensor>, dt: DType) -> (r: Result<
        MatmulLaunch,
        OpError,
    >)
        ensures
            r is Ok <==> matmul_error(*a, *b, opt_tensor(bias), self.c, dt) is None,
            r matches Err(e) ==> matmul_error(*a, *b, opt_tensor(bias), self.c, dt) == Some(e),
            r matches Ok(l) ==> matmul_launch_ok(
                l,
                *a,
                *b,
                opt_tensor(bias),
                self.c,
                self.act,
                dt,
            ),
    {
        if !a.device.is_cuda() {
            return Err(OpError::BackendUnsupported);
        }
        if !b.device.same_device(&a.device) {
            return Err(OpError::PreconditionViolation);
        }
        if let Some(t) = bias {
            if !t.device.same_device(&a.device) {
                return Err(OpError::PreconditionViolation);
            }
        }
        let (batch_size, m, k) = match a.layout.dims3() {
            Ok(d) => d,
            Err(e) => return Err(e),
        };
        let (b_0, n, b_2) = match b.layout.dims3() {
            Ok(d) => d,
            Err(e) => return Err(e),
        };
        if b_2 != k {
            return Err(OpError::ShapeMismatch);
        }
        if b_0 != batch_size {
            return Err(OpError::ShapeMismatch);
        }
        if a.dtype != dt || b.dtype != dt {
            return Err(OpError::UnsupportedDType);
        }
        let ghost out = seq![batch_size, n, m];
        assert(out == matmul_out_shape(*a, *b));
        proof {
            lemma_count3(out);
        }
        let bias_start = match bias {
            Some(t) => {
                let len = match t.layout.dims1() {
                    Ok(d) => d,
                    Err(e) => return Err(e),
                };
                if len != m {
                    return Err(OpError::ShapeMismatch);
                }
                if t.dtype != dt {
                    return Err(OpError::UnsupportedDType);
                }
                Some(t.layout.start_offset())
            },
            None => None,
        };
        // Element counts of one output matrix and of the whole output.
        let nm = n.checked_mul(m);
        let count = match nm {
            Some(x) => batch_size.checked_mul(x),
            None => None,
        };
        let accumulate = match &self.c {
            Some(c) => {
                if !c.device.is_cuda() {
                    return Err(OpError::PreconditionViolation);
                }
                if c.dtype != dt {
                    return Err(OpError::UnsupportedDType);
                }
                match c.layout.contiguous_offsets() {
                    Some((o1, o2)) => {
                        if o1 != 0 {
                            return Err(OpError::PreconditionViolation);
                        }
                        match count {
                            Some(cnt) => {
                                if o2 != cnt {
                                    return Err(OpError::ShapeMismatch);
                                }
                            },
                            None => {
                                return Err(OpError::ShapeMismatch);
                            },
                        }
                    },
                    None => {
                        return Err(OpError::PreconditionViolation);
                    },
                }
                match c.layout.dims3() {
                    Ok((c0, c1, c2)) => {
                        if c0 != batch_size || c1 != n || c2 != m {
                            return Err(OpError::ShapeMismatch);
                        }
                        assert(c.shape() =~= out);
                    },
                    Err(e) => {
                        return Err(e);
                    },
                }
                true
            },
            None => {
                match (nm, count) {
                    (Some(x), Some(cnt)) => {
                        if m > crate::layout::MAX_ELEMENTS || x > crate::layout::MAX_ELEMENTS
                            || cnt > crate::layout::MAX_ELEMENTS {
                            return Err(OpError::ShapeTooLarge);
                        }
                    },
                    _ => {
                        return Err(OpError::ShapeTooLarge);
                    },
                }
                assert(fits(out, 0)) by {
                    assert forall|i: int| 0 <= i <= 3 implies #[trigger] crate::layout::suffix_size(
                        out,
                        i,
                    ) <= crate::layout::MAX_ELEMENTS by {
                        if i == 0 {
                        } else if i == 1 {
                        } else if i == 2 {
                        } else {
                        }
                    }
                }
                false
            },
        };
        if batch_size > i32::MAX as usize {
            return Err(OpError::PreconditionViolation);
        }
        let stride_c = match nm {
            Some(x) => x,
            None => {
                return Err(OpError::ShapeTooLarge);
            },
        };
        let a_stride = a.layout.stride();
        let b_stride = b.layout.stride();
        let config = MatmulConfig {
            transa: true,
            transb: false,
            m,
            n,
            k,
            lda: k,
            ldb: k,
            ldc: m,
            stride_a: a_stride[0],
            stride_b: b_stride[0],
            stride_c,
            batch_size: batch_size as i32,
        };
        let out_shape = shape3(batch_size, n, m);
        Ok(
            MatmulLaunch {
                dtype: dt,
                config,
                a_start: a.layout.start_offset(),
                b_start: b.layout.start_offset(),
                bias_start,
                act: self.act,
                accumulate,
                out_shape,
            },
        )
    }

    /// The batched matmul on `f16` operands.
    pub fn fwd_f16(&self, a: &Tensor, b: &Tensor, bias: Option<&Tensor>) -> (r: Result<
        MatmulLaunch,
        OpError,
    >)
        ensures
            r is Ok <==> matmul_error(*a, *b, opt_tensor(bias), self.c, DType::F16) is None,
            r matches Err(e) ==> matmul_error(*a, *b, opt_tensor(bias), self.c, DType::F16)
                == Some(e),
            r matches Ok(l) ==> matmul_launch_ok(
                l,
                *a,
                *b,
                opt_tensor(bias),
                self.c,
                self.act,
                DType::F16,
            ),
    {
        self.plan(a, b, bias, DType::F16)
    }

    /// The batched matmul on `bf16` operands.
    pub fn fwd_bf16(&self, a: &Tensor, b: &Tensor, bias: Option<&Tensor>) -> (r: Result<
        MatmulLaunch,
        OpError,
    >)
        ensures
            r is Ok <==> matmul_error(*a, *b, opt_tensor(bias), self.c, DType::BF16) is None,
            r matches Err(e) ==> matmul_error(*a, *b, opt_tensor(bias), self.c, DType::BF16)
                == Some(e),
            r matches Ok(l) ==> matmul_launch_ok(
                l,
                *a,
                *b,
                opt_tensor(bias),
                self.c,
                self.act,
                DType::BF16,
            ),
    {
        self.plan(a, b, bias, DType::BF16)
    }

    /// The batched matmul on `f32` operands.
    pub fn fwd_f32(&self, a: &Tensor, b: &Tensor, bias: Option<&Tensor>) -> (r: Result<
        MatmulLaunch,
        OpError,
    >)
        ensures
            r is Ok <==> matmul_error(*a, *b, opt_tensor(bias), self.c, DType::F32) is None,
            r matches Err(e) ==> matmul_error(*a, *b, opt_tensor(bias), self.c, DType::F32)
                == Some(e),
            r matches Ok(l) ==> matmul_launch_ok(
                l,
                *a,
                *b,
                opt_tensor(bias),
                self.c,
                self.act,
                DType::F32,
            ),
    {
        self.plan(a, b, bias, DType::F32)
    }

    /// There is no host implementation of the fused batched matmul.
    pub fn cpu_fwd(&self, a: &Tensor, b: &Tensor, bias: Option<&Tensor>) -> (r: Result<
        MatmulLaunch,
        OpError,
    >)
        ensures
            r == Err::<MatmulLaunch, OpError>(OpError::BackendUnsupported),
    {
        Err(OpError::BackendUnsupported)
    }

    /// The CUDA forward: selects the GEMM variant from the element type of
    /// `a`.
    pub fn cuda_fwd(&self, a: &Tensor, b: &Tensor, bias: Option<&Tensor>) -> (r: Result<
        MatmulLaunch,
        OpError,
    >)
        ensures
            r is Ok <==> cuda_matmul_error(*a, *b, opt_tensor(bias), self.c) is None,
            r matches Err(e) ==> cuda_matmul_error(*a, *b, opt_tensor(bias), self.c) == Some(e),
            r matches Ok(l) ==> matmul_launch_ok(
                l,
                *a,
                *b,
                opt_tensor(bias),
                self.c,
                self.act,
                a.dtype,
            ),
    {
        match a.dtype {
            DType::F16 => self.fwd_f16(a, b, bias),
            DType::BF16 => self.fwd_bf16(a, b, bias),
            DType::F32 => self.fwd_f32(a, b, bias),
            _ => Err(OpError::UnsupportedDType),
        }
    }
}

/// Fused batched matmul with optional accumulator, bias and activation:
/// `act(alpha * a^T b + beta * out + bias)` for `a` of shape (batch, m, k)
/// and `b` of shape (batch, n, k); the result has shape (batch, n, m).
/// `beta` takes part only when `out` is given.
pub fn fused_batch_matmul(
    a: &Tensor,
    b: &Tensor,
    out: Option<&Tensor>,
    bias: Option<&Tensor>,
    act: Option<Activation>,
    cublaslt: CublasLt,
) -> (r: Result<MatmulLaunch, OpError>)
    ensures
        r is Ok <==> fused_matmul_error(*a, *b, opt_tensor(bias), opt_tensor(out)) is None,
        r matches Err(e) ==> fused_matmul_error(*a, *b, opt_tensor(bias), opt_tensor(out)) == Some(
            e,
        ),
        r matches Ok(l) ==> matmul_launch_ok(
            l,
            *a,
            *b,
            opt_tensor(bias),
            opt_tensor(out),
            act,
            a.dtype,
        ),
{
    let c = match out {
        Some(t) => Some(t.duplicate()),
        None => None,
    };
    let op = CublasLTBatchMatmul { cublaslt, act, c };
    if !b.device.same_device(&a.device) {
        return Err(OpError::PreconditionViolation);
    }
    if let Some(t) = bias {
        if !t.device.same_device(&a.device) {
            return Err(OpError::PreconditionViolation);
        }
    }
    match a.device.backend() {
        Backend::Cpu => op.cpu_fwd(a, b, bias),
        Backend::Metal => Err(OpError::BackendUnsupported),
        Backend::Cuda => op.cuda_fwd(a, b, bias),
    }
}


} // verus!
