use vstd::prelude::*;
use crate::device::{backend_of, Backend, Device};
use crate::dtype::DType;
use crate::error::OpError;
use crate::layout::Layout;

verus! {

/// A tensor operand as the dispatch layer sees it: its element type, the
/// device that owns its storage, and the layout of its elements in that
/// storage.
pub struct Tensor {
    pub dtype: DType,
    pub device: Device,
    pub layout: Layout,
}

impl Tensor {
    pub open spec fn shape(&self) -> Seq<usize> {
        self.layout.dims_view()
    }

    pub open spec fn rank(&self) -> nat {
        self.layout.dims_view().len()
    }

    pub open spec fn backend(&self) -> Backend {
        backend_of(self.device)
    }

    pub fn new(dtype: DType, device: Device, layout: Layout) -> (r: Tensor)
        ensures
            r.dtype == dtype,
            r.device == device,
            r.layout == layout,
    {
        Tensor { dtype, device, layout }
    }

    /// A tensor with a contiguous layout of the given dimensions.
    pub fn contiguous(dtype: DType, device: Device, shape: Vec<usize>) -> (r: Result<Tensor, OpError>)
        ensures
            r is Ok <==> crate::layout::fits(shape@, 0),
            r matches Ok(t) ==> {
                &&& t.dtype == dtype
                &&& t.device == device
                &&& t.shape() == shape@
                &&& t.layout.is_row_major()
                &&& t.layout.offset_view() == 0
            },
            r matches Err(e) ==> e == OpError::ShapeTooLarge,
    {
        match Layout::contiguous(shape) {
            Ok(layout) => Ok(Tensor { dtype, device, layout }),
            Err(e) => Err(e),
        }
    }

    /// A copy of this tensor descriptor.
    pub fn duplicate(&self) -> (r: Tensor)
        ensures
            r.dtype == self.dtype,
            r.device == self.device,
            r.shape() == self.shape(),
            r.layout.strides_view() == self.layout.strides_view(),
            r.layout.offset_view() == self.layout.offset_view(),
    {
        Tensor { dtype: self.dtype, device: self.device, layout: self.layout.duplicate() }
    }

    pub fn dims(&self) -> (r: &Vec<usize>)
        ensures
            r@ == self.shape(),
    {
        self.layout.dims()
    }
}

/// The tensor an optional operand refers to.
pub open spec fn opt_tensor(o: Option<&Tensor>) -> Option<Tensor> {
    match o {
        Some(t) => Some(*t),
        None => None,
    }
}

/// Selects a dimension either by its index or by its position from the end.
#[derive(Debug, Clone, Copy, PartialEq, Eq, Structural)]
pub enum Dim {
    /// The dimension with this index.
    Index(usize),
    /// The `k`-th dimension from the end; `Minus(1)` is the last.
    Minus(usize),
}

/// The index that `d` selects in a tensor of rank `rank`, if any.
pub open spec fn dim_index(d: Dim, rank: nat) -> Option<nat> {
    match d {
        Dim::Index(i) => if i < rank { Some(i as nat) } else { None },
        Dim::Minus(k) => if 1 <= k <= rank { Some((rank - k) as nat) } else { None },
    }
}

impl Dim {
    /// Resolves the dimension against a tensor of rank `rank`.
    pub fn to_index(&self, rank: usize) -> (r: Result<usize, OpError>)
        ensures
            r is Ok <==> dim_index(*self, rank as nat) is Some,
            r matches Ok(i) ==> dim_index(*self, rank as nat) == Some(i as nat),
            r matches Err(e) ==> e == OpError::ShapeMismatch,
    {
        match self {
            Dim::Index(i) => if *i < rank {
                Ok(*i)
            } else {
                Err(OpError::ShapeMismatch)
            },
            Dim::Minus(k) => if 1 <= *k && *k <= rank {
                Ok(rank - *k)
            } else {
                Err(OpError::ShapeMismatch)
            },
        }
    }
}

/// The dimension vector (a, b, c).
pub(crate) fn shape3(a: usize, b: usize, c: usize) -> (r: Vec<usize>)
    ensures
        r@ == seq![a, b, c],
{
    let mut v: Vec<usize> = Vec::new();
    v.push(a);
    v.push(b);
    v.push(c);
    assert(v@ =~= seq![a, b, c]);
    v
}

/// The dimension vector (a, b, c, d).
pub(crate) fn shape4(a: usize, b: usize, c: usize, d: usize) -> (r: Vec<usize>)
    ensures
        r@ == seq![a, b, c, d],
{
    let mut v: Vec<usize> = Vec::new();
    v.push(a);
    v.push(b);
    v.push(c);
    v.push(d);
    assert(v@ =~= seq![a, b, c, d]);
    v
}

} // verus!
