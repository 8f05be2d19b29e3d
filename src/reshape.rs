use vstd::prelude::*;
use crate::composed::fresh_result;
use crate::error::OpError;
use crate::layout::{fits, MAX_ELEMENTS};
use crate::tensor::{shape4, Tensor};

verus! {

/// Output dimensions of `pixel_shuffle` on (b, c, h, w) with factor `r`:
/// (b, c / r^2, h * r, w * r).
pub open spec fn shuffle_dims(s: Seq<usize>, r: usize) -> Seq<usize> {
    seq![s[0], ((s[1] as int) / (r * r)) as usize, (s[2] * r) as usize, (s[3] * r) as usize]
}

/// The refusal, if any, of `pixel_shuffle`.
pub open spec fn pixel_shuffle_error(xs: Tensor, r: usize) -> Option<OpError> {
    let s = xs.shape();
    if xs.rank() != 4 {
        Some(OpError::ShapeMismatch)
    } else if r == 0 {
        Some(OpError::OutOfDomain)
    } else if r * r > MAX_ELEMENTS || (s[1] as int) % (r * r) != 0 {
        Some(OpError::ShapeMismatch)
    } else if s[2] * r > MAX_ELEMENTS || s[3] * r > MAX_ELEMENTS || !fits(shuffle_dims(s, r), 0) {
        Some(OpError::ShapeTooLarge)
    } else {
        None
    }
}

/// Rearranges (b, c * r^2, h, w) into (b, c, h * r, w * r), moving each
/// group of `r^2` channels into an `r` by `r` spatial block.
pub fn pixel_shuffle(xs: &Tensor, upscale_factor: usize) -> (res: Result<Tensor, OpError>)
    ensures
        res is Ok <==> pixel_shuffle_error(*xs, upscale_factor) is None,
        res matches Err(e) ==> pixel_shuffle_error(*xs, upscale_factor) == Some(e),
        res matches Ok(t) ==> fresh_result(
            t,
            *xs,
            xs.dtype,
            shuffle_dims(xs.shape(), upscale_factor),
        ),
{
    let r = upscale_factor;
    let (b, c, h, w) = match xs.layout.dims4() {
        Ok(d) => d,
        Err(e) => return Err(e),
    };
    if r == 0 {
        return Err(OpError::OutOfDomain);
    }
    let rr = match r.checked_mul(r) {
        Some(x) => x,
        None => return Err(OpError::ShapeMismatch),
    };
    assert(rr >= 1) by (nonlinear_arith)
        requires
            r >= 1,
            rr == r * r,
    ;
    if rr > MAX_ELEMENTS || c % rr != 0 {
        return Err(OpError::ShapeMismatch);
    }
    let hr = match h.checked_mul(r) {
        Some(x) => x,
        None => return Err(OpError::ShapeTooLarge),
    };
    let wr = match w.checked_mul(r) {
        Some(x) => x,
        None => return Err(OpError::ShapeTooLarge),
    };
    if hr > MAX_ELEMENTS || wr > MAX_ELEMENTS {
        return Err(OpError::ShapeTooLarge);
    }
    let shape = shape4(b, c / rr, hr, wr);
    assert(shape@ == shuffle_dims(xs.shape(), r));
    Tensor::contiguous(xs.dtype, xs.device, shape)
}

/// Output dimensions of `pixel_unshuffle` on (b, c, h, w) with factor `r`:
/// (b, c * r^2, h / r, w / r).
pub open spec fn unshuffle_dims(s: Seq<usize>, r: usize) -> Seq<usize> {
    seq![s[0], (s[1] * (r * r)) as usize, (s[2] / r) as usize, (s[3] / r) as usize]
}

/// The refusal, if any, of `pixel_unshuffle`.
pub open spec fn pixel_unshuffle_error(xs: Tensor, r: usize) -> Option<OpError> {
    let s = xs.shape();
    if xs.rank() != 4 {
        Some(OpError::ShapeMismatch)
    } else if r == 0 {
        Some(OpError::OutOfDomain)
    } else if s[2] % r != 0 || s[3] % r != 0 {
        Some(OpError::ShapeMismatch)
    } else if s[1] * (r * r) > MAX_ELEMENTS || !fits(unshuffle_dims(s, r), 0) {
        Some(OpError::ShapeTooLarge)
    } else {
        None
    }
}

/// The inverse of `pixel_shuffle`: (b, c, h * r, w * r) into
/// (b, c * r^2, h, w).
pub fn pixel_unshuffle(xs: &Tensor, downscale_factor: usize) -> (res: Result<Tensor, OpError>)
    ensures
        res is Ok <==> pixel_unshuffle_error(*xs, downscale_factor) is None,
        res matches Err(e) ==> pixel_unshuffle_error(*xs, downscale_factor) == Some(e),
        res matches Ok(t) ==> fresh_result(
            t,
            *xs,
            xs.dtype,
            unshuffle_dims(xs.shape(), downscale_factor),
        ),
{
    let r = downscale_factor;
    let (b, c, h, w) = match xs.layout.dims4() {
        Ok(d) => d,
        Err(e) => return Err(e),
    };
    if r == 0 {
        return Err(OpError::OutOfDomain);
    }
    if h % r != 0 || w % r != 0 {
        return Err(OpError::ShapeMismatch);
    }
    let out_c = if c == 0 {
        assert(c * (r * r) == 0) by (nonlinear_arith)
            requires
                c == 0,
        ;
        0
    } else {
        match r.checked_mul(r) {
            Some(rr) => match c.checked_mul(rr) {
                Some(x) => x,
                None => return Err(OpError::ShapeTooLarge),
            },
            None => {
                assert(c * (r * r) >= r * r) by (nonlinear_arith)
                    requires
                        c >= 1,
                ;
                return Err(OpError::ShapeTooLarge);
            },
        }
    };
    if out_c > MAX_ELEMENTS {
        return Err(OpError::ShapeTooLarge);
    }
    let shape = shape4(b, out_c, h / r, w / r);
    assert(shape@ == unshuffle_dims(xs.shape(), r));
    Tensor::contiguous(xs.dtype, xs.device, shape)
}

/// The refusal, if any, of `replication_pad2d` with padding `pad`.
pub open spec fn replication_pad_error(xs: Tensor, pad: usize) -> Option<OpError> {
    let s = xs.shape();
    if pad == 0 {
        None
    } else if pad != 1 {
        Some(OpError::OutOfDomain)
    } else if xs.rank() != 4 || s[2] == 0 || s[3] == 0 {
        Some(OpError::ShapeMismatch)
    } else if s[2] + 2 > MAX_ELEMENTS || s[3] + 2 > MAX_ELEMENTS || !fits(
        seq![s[0], s[1], (s[2] + 2) as usize, (s[3] + 2) as usize],
        0,
    ) {
        Some(OpError::ShapeTooLarge)
    } else {
        None
    }
}

/// Pads the last two dimensions of (b, c, h, w) by repeating the border
/// rows and columns `pad` times; padding 0 returns the input as it is and
/// only padding 1 is supported otherwise.
pub fn replication_pad2d(xs: &Tensor, pad: usize) -> (res: Result<Tensor, OpError>)
    ensures
        res is Ok <==> replication_pad_error(*xs, pad) is None,
        res matches Err(e) ==> replication_pad_error(*xs, pad) == Some(e),
        res matches Ok(t) ==> pad == 0 ==> {
            &&& t.dtype == xs.dtype
            &&& t.device == xs.device
            &&& t.shape() == xs.shape()
            &&& t.layout.strides_view() == xs.layout.strides_view()
            &&& t.layout.offset_view() == xs.layout.offset_view()
        },
        res matches Ok(t) ==> pad == 1 ==> fresh_result(
            t,
            *xs,
            xs.dtype,
            seq![
                xs.shape()[0],
                xs.shape()[1],
                (xs.shape()[2] + 2) as usize,
                (xs.shape()[3] + 2) as usize,
            ],
        ),
{
    if pad == 0 {
        return Ok(xs.duplicate());
    }
    if pad != 1 {
        return Err(OpError::OutOfDomain);
    }
    let (b, c, h, w) = match xs.layout.dims4() {
        Ok(d) => d,
        Err(e) => return Err(e),
    };
    if h == 0 || w == 0 {
        return Err(OpError::ShapeMismatch);
    }
    if h > MAX_ELEMENTS - 2 || w > MAX_ELEMENTS - 2 {
        return Err(OpError::ShapeTooLarge);
    }
    let shape = shape4(b, c, h + 2, w + 2);
    Tensor::contiguous(xs.dtype, xs.device, shape)
}

/// Dimensions of `l` and `r` joined along `dim`.
pub open spec fn concat_dims(l: Seq<usize>, r: Seq<usize>, dim: int) -> Seq<usize> {
    l.update(dim, (l[dim] + r[dim]) as usize)
}

/// The refusal, if any, of `kvconcat` along `dim`.
pub open spec fn kvconcat_error(l: Tensor, r: Tensor, dim: usize) -> Option<OpError> {
    if l.rank() != r.rank() || dim >= l.rank() || exists|i: int|
        0 <= i < l.rank() && i != dim && #[trigger] l.shape()[i] != r.shape()[i] {
        Some(OpError::ShapeMismatch)
    } else if r.device != l.device {
        Some(OpError::PreconditionViolation)
    } else if r.dtype != l.dtype {
        Some(OpError::UnsupportedDType)
    } else if l.shape()[dim as int] + r.shape()[dim as int] > MAX_ELEMENTS || !fits(
        concat_dims(l.shape(), r.shape(), dim as int),
        0,
    ) {
        Some(OpError::ShapeTooLarge)
    } else {
        None
    }
}

/// Concatenates two key/value caches along `concat_dim` into a fresh
/// contiguous tensor; all other dimensions must agree.
pub fn kvconcat(ltensor: &Tensor, rtensor: &Tensor, concat_dim: usize) -> (res: Result<
    Tensor,
    OpError,
>)
    ensures
        res is Ok <==> kvconcat_error(*ltensor, *rtensor, concat_dim) is None,
        res matches Err(e) ==> kvconcat_error(*ltensor, *rtensor, concat_dim) == Some(e),
        res matches Ok(t) ==> fresh_result(
            t,
            *ltensor,
            ltensor.dtype,
            concat_dims(ltensor.shape(), rtensor.shape(), concat_dim as int),
        ),
{
    let ld = ltensor.dims();
    let rd = rtensor.dims();
    let n = ld.len();
    if rd.len() != n || concat_dim >= n {
        return Err(OpError::ShapeMismatch);
    }
    let mut out: Vec<usize> = Vec::new();
    let mut i: usize = 0;
    while i < n
        invariant
            n == ld@.len(),
            n == rd@.len(),
            ld@ == ltensor.shape(),
            rd@ == rtensor.shape(),
            concat_dim < n,
            i <= n,
            out@.len() == i,
            forall|j: int| 0 <= j < i && j != concat_dim ==> #[trigger] ld@[j] == rd@[j],
            forall|j: int| 0 <= j < i && j != concat_dim ==> #[trigger] out@[j] == ld@[j],
            i > concat_dim ==> out@[concat_dim as int] == ld@[concat_dim as int],
        decreases n - i,
    {
        if i != concat_dim && ld[i] != rd[i] {
            return Err(OpError::ShapeMismatch);
        }
        out.push(ld[i]);
        i = i + 1;
    }
    if !rtensor.device.same_device(&ltensor.device) {
        return Err(OpError::PreconditionViolation);
    }
    if rtensor.dtype != ltensor.dtype {
        return Err(OpError::UnsupportedDType);
    }
    let a = ld[concat_dim];
    let b = rd[concat_dim];
    if a > MAX_ELEMENTS || b > MAX_ELEMENTS - a {
        return Err(OpError::ShapeTooLarge);
    }
    out.set(concat_dim, a + b);
    assert(out@ =~= concat_dims(ltensor.shape(), rtensor.shape(), concat_dim as int));
    Tensor::contiguous(ltensor.dtype, ltensor.device, out)
}

/// The identity module: its forward pass returns its input.
#[derive(Debug, Clone, Copy, PartialEq, Eq, Structural)]
pub struct Identity;

impl Identity {
    pub fn new() -> (r: Identity)
        ensures
            r == Identity,
    {
        Identity
    }

    pub fn forward(&self, xs: &Tensor) -> (r: Tensor)
        ensures
            r.dtype == xs.dtype,
            r.device == xs.device,
            r.shape() == xs.shape(),
            r.layout.strides_view() == xs.layout.strides_view(),
            r.layout.offset_view() == xs.layout.offset_view(),
    {
        xs.duplicate()
    }
}

impl Default for Identity {
    fn default() -> (r: Identity)
        ensures
            r == Identity,
    {
        Identity
    }
}

} // verus!
