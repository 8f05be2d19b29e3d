use vstd::prelude::*;
use crate::dtype::{is_host_float, DType};
use crate::error::OpError;
use crate::layout::{fits, lemma_fits_at_zero};
use crate::tensor::{dim_index, opt_tensor, Dim, Tensor};

verus! {

/// Dimension `idx` counted from the end of `s` (0 is the last), with missing
/// leading dimensions taken as 1.
pub open spec fn dim_back(s: Seq<usize>, idx: int) -> usize {
    if idx < s.len() {
        s[s.len() - 1 - idx]
    } else {
        1
    }
}

pub open spec fn max_len(a: Seq<usize>, b: Seq<usize>) -> nat {
    if a.len() >= b.len() {
        a.len()
    } else {
        b.len()
    }
}

/// Two dimensions broadcast when they are equal or one of them is 1.
pub open spec fn dims_broadcast(a: usize, b: usize) -> bool {
    a == b || a == 1 || b == 1
}

pub open spec fn broadcast_dim(a: usize, b: usize) -> usize {
    if a == 1 {
        b
    } else {
        a
    }
}

/// `a` and `b` broadcast against each other, aligned at their last
/// dimensions.
pub open spec fn broadcast_compatible(a: Seq<usize>, b: Seq<usize>) -> bool {
    forall|idx: int|
        0 <= idx < max_len(a, b) ==> #[trigger] dims_broadcast(dim_back(a, idx), dim_back(b, idx))
}

/// The shape that `a` and `b` broadcast to.
pub open spec fn broadcast_dims(a: Seq<usize>, b: Seq<usize>) -> Seq<usize> {
    let n = max_len(a, b);
    Seq::new(n, |i: int| broadcast_dim(dim_back(a, n - 1 - i), dim_back(b, n - 1 - i)))
}

/// The shape that two operand shapes broadcast to in an element-wise binary
/// operation.
pub fn broadcast_shape(a: &Vec<usize>, b: &Vec<usize>) -> (r: Result<Vec<usize>, OpError>)
    ensures
        r is Ok <==> broadcast_compatible(a@, b@),
        r matches Ok(v) ==> v@ == broadcast_dims(a@, b@),
        r matches Err(e) ==> e == OpError::ShapeMismatch,
{
    let la = a.len();
    let lb = b.len();
    let n = if la >= lb {
        la
    } else {
        lb
    };
    let mut out: Vec<usize> = Vec::new();
    let mut i: usize = 0;
    while i < n
        invariant
            la == a@.len(),
            lb == b@.len(),
            n == max_len(a@, b@),
            i <= n,
            out@.len() == i,
            forall|j: int|
                0 <= j < i ==> #[trigger] out@[j] == broadcast_dim(
                    dim_back(a@, n - 1 - j),
                    dim_back(b@, n - 1 - j),
                ),
            forall|idx: int|
                n - i <= idx < n ==> #[trigger] dims_broadcast(dim_back(a@, idx), dim_back(b@, idx)),
        decreases n - i,
    {
        let idx = n - 1 - i;
        let da = if idx < la {
            a[la - 1 - idx]
        } else {
            1
        };
        let db = if idx < lb {
            b[lb - 1 - idx]
        } else {
            1
        };
        if da != db && da != 1 && db != 1 {
            assert(!dims_broadcast(dim_back(a@, idx as int), dim_back(b@, idx as int)));
            return Err(OpError::ShapeMismatch);
        }
        out.push(if da == 1 {
            db
        } else {
            da
        });
        i = i + 1;
    }
    assert(out@ =~= broadcast_dims(a@, b@));
    Ok(out)
}

/// A shape broadcasts with a one-dimensional shape equal to its last
/// dimension, to itself.
pub proof fn lemma_broadcast_last(s: Seq<usize>)
    requires
        s.len() >= 1,
    ensures
        broadcast_compatible(s, seq![s.last()]),
        broadcast_dims(s, seq![s.last()]) == s,
{
    let t = seq![s.last()];
    assert forall|idx: int| 0 <= idx < max_len(s, t) implies #[trigger] dims_broadcast(
        dim_back(s, idx),
        dim_back(t, idx),
    ) by {
        if idx == 0 {
        }
    }
    assert(broadcast_dims(s, t) =~= s) by {
        let n = s.len() as int;
        assert forall|i: int| 0 <= i < n implies #[trigger] broadcast_dims(s, t)[i] == s[i] by {
            if i == n - 1 {
            }
        }
    }
}

/// The refusal, if any, of the composed softmax (or log-softmax) over
/// dimension `dim`.
pub open spec fn softmax_dim_error(xs: Tensor, dim: Dim) -> Option<OpError> {
    if dim_index(dim, xs.rank()) is None {
        Some(OpError::ShapeMismatch)
    } else if !is_host_float(xs.dtype) {
        Some(OpError::UnsupportedDType)
    } else {
        None
    }
}

/// The result of a composed operator: a fresh contiguous tensor of the
/// given element type and shape on the device of `xs`.
pub open spec fn fresh_result(t: Tensor, xs: Tensor, dt: DType, shape: Seq<usize>) -> bool {
    &&& t.dtype == dt
    &&& t.device == xs.device
    &&& t.shape() == shape
    &&& t.layout.is_row_major()
    &&& t.layout.offset_view() == 0
}

fn softmax_composed(xs: &Tensor, dim: Dim) -> (r: Result<Tensor, OpError>)
    ensures
        r is Ok <==> softmax_dim_error(*xs, dim) is None,
        r matches Err(e) ==> softmax_dim_error(*xs, dim) == Some(e),
        r matches Ok(t) ==> fresh_result(t, *xs, xs.dtype, xs.shape()),
{
    match dim.to_index(xs.layout.rank()) {
        Ok(_) => {},
        Err(e) => return Err(e),
    }
    if !xs.dtype.is_host_float() {
        return Err(OpError::UnsupportedDType);
    }
    proof {
        lemma_fits_at_zero(xs.shape(), xs.layout.offset_view() as nat);
    }
    Tensor::contiguous(xs.dtype, xs.device, xs.dims().clone())
}

/// Softmax over dimension `dim`, composed from max, subtract, exp, sum and
/// divide; it accepts any layout and has a gradient.
pub fn softmax(xs: &Tensor, dim: Dim) -> (r: Result<Tensor, OpError>)
    ensures
        r is Ok <==> softmax_dim_error(*xs, dim) is None,
        r matches Err(e) ==> softmax_dim_error(*xs, dim) == Some(e),
        r matches Ok(t) ==> fresh_result(t, *xs, xs.dtype, xs.shape()),
{
    softmax_composed(xs, dim)
}

/// Log-softmax over dimension `dim`, with the same max subtraction as
/// `softmax`.
pub fn log_softmax(xs: &Tensor, dim: Dim) -> (r: Result<Tensor, OpError>)
    ensures
        r is Ok <==> softmax_dim_error(*xs, dim) is None,
        r matches Err(e) ==> softmax_dim_error(*xs, dim) == Some(e),
        r matches Ok(t) ==> fresh_result(t, *xs, xs.dtype, xs.shape()),
{
    softmax_composed(xs, dim)
}

/// The refusal, if any, of the composed RMS norm, and (with `beta`) of the
/// composed layer norm. The normalised input is multiplied by `alpha` and
/// added to `beta` with broadcasting.
pub open spec fn slow_norm_error(x: Tensor, alpha: Tensor, beta: Option<Tensor>) -> Option<OpError> {
    let scaled = broadcast_dims(x.shape(), alpha.shape());
    if x.rank() == 0 {
        Some(OpError::ShapeMismatch)
    } else if !is_host_float(x.dtype) {
        Some(OpError::UnsupportedDType)
    } else if alpha.device != x.device {
        Some(OpError::PreconditionViolation)
    } else if alpha.dtype != x.dtype {
        Some(OpError::UnsupportedDType)
    } else if !broadcast_compatible(x.shape(), alpha.shape()) {
        Some(OpError::ShapeMismatch)
    } else if beta matches Some(b) && b.device != x.device {
        Some(OpError::PreconditionViolation)
    } else if beta matches Some(b) && b.dtype != x.dtype {
        Some(OpError::UnsupportedDType)
    } else if beta matches Some(b) && !broadcast_compatible(scaled, b.shape()) {
        Some(OpError::ShapeMismatch)
    } else if !fits(slow_norm_shape(x, alpha, beta), 0) {
        Some(OpError::ShapeTooLarge)
    } else {
        None
    }
}

/// Shape of the composed norm's result.
pub open spec fn slow_norm_shape(x: Tensor, alpha: Tensor, beta: Option<Tensor>) -> Seq<usize> {
    let scaled = broadcast_dims(x.shape(), alpha.shape());
    match beta {
        Some(b) => broadcast_dims(scaled, b.shape()),
        None => scaled,
    }
}

fn slow_norm(x: &Tensor, alpha: &Tensor, beta: Option<&Tensor>) -> (r: Result<Tensor, OpError>)
    ensures
        r is Ok <==> slow_norm_error(*x, *alpha, opt_tensor(beta)) is None,
        r matches Err(e) ==> slow_norm_error(*x, *alpha, opt_tensor(beta)) == Some(
            e,
        ),
        r matches Ok(t) ==> fresh_result(
            t,
            *x,
            x.dtype,
            slow_norm_shape(*x, *alpha, opt_tensor(beta)),
        ),
{
    if x.layout.rank() == 0 {
        return Err(OpError::ShapeMismatch);
    }
    if !x.dtype.is_host_float() {
        return Err(OpError::UnsupportedDType);
    }
    if !alpha.device.same_device(&x.device) {
        return Err(OpError::PreconditionViolation);
    }
    if alpha.dtype != x.dtype {
        return Err(OpError::UnsupportedDType);
    }
    let scaled = match broadcast_shape(x.dims(), alpha.dims()) {
        Ok(s) => s,
        Err(e) => return Err(e),
    };
    let shape = match beta {
        Some(b) => {
            if !b.device.same_device(&x.device) {
                return Err(OpError::PreconditionViolation);
            }
            if b.dtype != x.dtype {
                return Err(OpError::UnsupportedDType);
            }
            match broadcast_shape(&scaled, b.dims()) {
                Ok(s) => s,
                Err(e) => return Err(e),
            }
        },
        None => scaled,
    };
    Tensor::contiguous(x.dtype, x.device, shape)
}

/// RMS norm composed from primitive operations, `x / sqrt(mean(x^2) + eps)`
/// broadcast-multiplied by `alpha`; half-precision inputs are normalised in
/// `f32`. It accepts any layout and has a gradient.
pub fn rms_norm_slow(x: &Tensor, alpha: &Tensor) -> (r: Result<Tensor, OpError>)
    ensures
        r is Ok <==> slow_norm_error(*x, *alpha, None) is None,
        r matches Err(e) ==> slow_norm_error(*x, *alpha, None) == Some(e),
        r matches Ok(t) ==> fresh_result(t, *x, x.dtype, slow_norm_shape(*x, *alpha, None)),
{
    slow_norm(x, alpha, None)
}

/// Layer norm composed from primitive operations,
/// `(x - mean) / sqrt(var + eps)` broadcast-multiplied by `alpha` and
/// broadcast-added to `beta`. It accepts any layout and has a gradient.
pub fn layer_norm_slow(x: &Tensor, alpha: &Tensor, beta: &Tensor) -> (r: Result<Tensor, OpError>)
    ensures
        r is Ok <==> slow_norm_error(*x, *alpha, Some(*beta)) is None,
        r matches Err(e) ==> slow_norm_error(*x, *alpha, Some(*beta)) == Some(e),
        r matches Ok(t) ==> fresh_result(t, *x, x.dtype, slow_norm_shape(*x, *alpha, Some(*beta))),
{
    slow_norm(x, alpha, Some(beta))
}

/// The refusal, if any, of `swiglu`: the last dimension splits into two
/// equal, non-empty halves.
pub open spec fn swiglu_error(xs: Tensor) -> Option<OpError> {
    if xs.rank() == 0 || xs.shape().last() == 0 || xs.shape().last() % 2 != 0 {
        Some(OpError::ShapeMismatch)
    } else if !is_host_float(xs.dtype) {
        Some(OpError::UnsupportedDType)
    } else {
        None
    }
}

/// `silu(a) * b` for the two halves `a`, `b` of the last dimension; the
/// result has the last dimension halved.
pub fn swiglu(xs: &Tensor) -> (r: Result<Tensor, OpError>)
    ensures
        r is Ok <==> swiglu_error(*xs) is None,
        r matches Err(e) ==> swiglu_error(*xs) == Some(e),
        r matches Ok(t) ==> fresh_result(
            t,
            *xs,
            xs.dtype,
            xs.shape().update(xs.shape().len() - 1, (xs.shape().last() / 2) as usize),
        ),
{
    let n = xs.layout.rank();
    if n == 0 {
        return Err(OpError::ShapeMismatch);
    }
    let mut shape = xs.dims().clone();
    let d = shape[n - 1];
    if d == 0 || d % 2 != 0 {
        return Err(OpError::ShapeMismatch);
    }
    if !xs.dtype.is_host_float() {
        return Err(OpError::UnsupportedDType);
    }
    shape.set(n - 1, d / 2);
    proof {
        let s = xs.shape();
        lemma_fits_at_zero(s, xs.layout.offset_view() as nat);
        lemma_fits_halved_last(s);
    }
    Tensor::contiguous(xs.dtype, xs.device, shape)
}

/// Halving the last dimension keeps a shape within bounds.
proof fn lemma_fits_halved_last(s: Seq<usize>)
    requires
        s.len() >= 1,
        fits(s, 0),
    ensures
        fits(s.update(s.len() - 1, (s.last() / 2) as usize), 0),
{
    let t = s.update(s.len() - 1, (s.last() / 2) as usize);
    let n = s.len() as int;
    assert forall|i: int| 0 <= i <= n implies crate::layout::suffix_size(t, i)
        <= crate::layout::suffix_size(s, i) by {
        lemma_suffix_halved(s, t, i);
    }
    assert(crate::layout::suffix_size(t, 0) <= crate::layout::suffix_size(s, 0));
}

proof fn lemma_suffix_halved(s: Seq<usize>, t: Seq<usize>, i: int)
    requires
        s.len() >= 1,
        t == s.update(s.len() - 1, (s.last() / 2) as usize),
        0 <= i <= s.len(),
    ensures
        crate::layout::suffix_size(t, i) <= crate::layout::suffix_size(s, i),
    decreases s.len() - i,
{
    if i < s.len() {
        lemma_suffix_halved(s, t, i + 1);
        let a = crate::layout::suffix_size(t, i + 1);
        let b = crate::layout::suffix_size(s, i + 1);
        assert((t[i] as nat) * a <= (s[i] as nat) * b) by (nonlinear_arith)
            requires
                a <= b,
                t[i] <= s[i],
        ;
    }
}

} // verus!
