use vstd::prelude::*;
use crate::error::OpError;

verus! {

/// Largest number of elements a layout may address. Keeping every element
/// offset below `usize::MAX / 8` lets byte offsets of any element type be
/// computed without overflow.
pub const MAX_ELEMENTS: usize = usize::MAX / 8;

/// Product of the dimensions from index `i` onward (1 past the end).
pub open spec fn suffix_size(dims: Seq<usize>, i: int) -> nat
    decreases dims.len() - i,
{
    if i < 0 || i >= dims.len() {
        1
    } else {
        (dims[i] as nat) * suffix_size(dims, i + 1)
    }
}

/// Number of elements of a tensor with dimensions `dims`.
pub open spec fn elem_count(dims: Seq<usize>) -> nat {
    suffix_size(dims, 0)
}

/// `strides` are the row-major strides of `dims`: each stride is the number
/// of elements spanned by the dimensions after it.
pub open spec fn row_major(dims: Seq<usize>, strides: Seq<usize>) -> bool {
    &&& dims.len() == strides.len()
    &&& forall|i: int| 0 <= i < dims.len() ==> #[trigger] strides[i] == suffix_size(dims, i + 1)
}

/// Every partial product of `dims`, and the end of the buffer region that
/// starts at `start`, stay within `MAX_ELEMENTS`.
pub open spec fn fits(dims: Seq<usize>, start: nat) -> bool {
    &&& forall|i: int| 0 <= i <= dims.len() ==> #[trigger] suffix_size(dims, i) <= MAX_ELEMENTS
    &&& start + elem_count(dims) <= MAX_ELEMENTS
}

pub open spec fn layout_ok(dims: Seq<usize>, strides: Seq<usize>, start: nat) -> bool {
    dims.len() == strides.len() && fits(dims, start)
}

/// Dimension `k` counted from the end (`k == 1` is the last one).
pub open spec fn dim_from_end(dims: Seq<usize>, k: int) -> usize {
    dims[dims.len() - k]
}

/// Index of element `i` (in row-major order) along dimension `j`.
pub open spec fn coord(dims: Seq<usize>, i: nat, j: int) -> nat {
    let step = suffix_size(dims, j + 1);
    if step == 0 || dims[j] == 0 {
        0
    } else {
        (i / step) % (dims[j] as nat)
    }
}

/// Buffer offset, relative to the start, of the part of element `i` that
/// dimensions `j..` contribute.
pub open spec fn partial_offset(dims: Seq<usize>, strides: Seq<usize>, i: nat, j: int) -> nat
    decreases dims.len() - j,
{
    if j < 0 || j >= dims.len() {
        0
    } else {
        coord(dims, i, j) * (strides[j] as nat) + partial_offset(dims, strides, i, j + 1)
    }
}

/// Buffer offset of element `i`, in row-major order, of a tensor with
/// dimensions `dims` and strides `strides` whose first element is at
/// `start`.
pub open spec fn element_offset(dims: Seq<usize>, strides: Seq<usize>, start: nat, i: nat) -> nat {
    start + partial_offset(dims, strides, i, 0)
}

/// A shape that fits at some start offset also fits at offset 0.
pub proof fn lemma_fits_at_zero(dims: Seq<usize>, start: nat)
    requires
        fits(dims, start),
    ensures
        fits(dims, 0),
{
}

/// Element count and partial products of a rank-3 shape.
pub proof fn lemma_count3(d: Seq<usize>)
    requires
        d.len() == 3,
    ensures
        suffix_size(d, 3) == 1,
        suffix_size(d, 2) == d[2] as nat,
        suffix_size(d, 1) == (d[1] as nat) * (d[2] as nat),
        elem_count(d) == (d[0] as nat) * ((d[1] as nat) * (d[2] as nat)),
{
    assert(suffix_size(d, 3) == 1);
    assert(suffix_size(d, 2) == (d[2] as nat) * suffix_size(d, 3));
    assert(suffix_size(d, 1) == (d[1] as nat) * suffix_size(d, 2));
    assert(suffix_size(d, 0) == (d[0] as nat) * suffix_size(d, 1));
}

/// How the logical indices of a tensor map to offsets in its buffer: the
/// dimensions, one stride per dimension, and the offset of the first element.
pub struct Layout {
    shape: Vec<usize>,
    stride: Vec<usize>,
    start_offset: usize,
}

impl Layout {
    #[verifier::type_invariant]
    spec fn inv(&self) -> bool {
        layout_ok(self.shape@, self.stride@, self.start_offset as nat)
    }

    pub closed spec fn dims_view(&self) -> Seq<usize> {
        self.shape@
    }

    pub closed spec fn strides_view(&self) -> Seq<usize> {
        self.stride@
    }

    pub closed spec fn offset_view(&self) -> usize {
        self.start_offset
    }

    /// The layout's invariant, as callers can see it.
    pub open spec fn well_formed(&self) -> bool {
        layout_ok(self.dims_view(), self.strides_view(), self.offset_view() as nat)
    }

    pub open spec fn is_row_major(&self) -> bool {
        row_major(self.dims_view(), self.strides_view())
    }

    pub open spec fn count(&self) -> nat {
        elem_count(self.dims_view())
    }

    /// Checks that the partial products of `dims` and the region starting at
    /// `start` fit; returns the element count.
    fn check_fits(dims: &Vec<usize>, start: usize) -> (r: Result<usize, OpError>)
        ensures
            r is Ok <==> fits(dims@, start as nat),
            r matches Ok(n) ==> n == elem_count(dims@),
            r matches Err(e) ==> e == OpError::ShapeTooLarge,
    {
        let n = dims.len();
        let mut acc: usize = 1;
        let mut i: usize = n;
        assert(suffix_size(dims@, n as int) == 1);
        while i > 0
            invariant
                n == dims@.len(),
                i <= n,
                acc == suffix_size(dims@, i as int),
                acc <= MAX_ELEMENTS,
                forall|j: int| i <= j <= n ==> #[trigger] suffix_size(dims@, j) <= MAX_ELEMENTS,
            decreases i,
        {
            i = i - 1;
            let d = dims[i];
            assert(suffix_size(dims@, i as int) == (d as nat) * suffix_size(dims@, i + 1));
            match d.checked_mul(acc) {
                Some(p) => {
                    if p > MAX_ELEMENTS {
                        return Err(OpError::ShapeTooLarge);
                    }
                    acc = p;
                },
                None => {
                    return Err(OpError::ShapeTooLarge);
                },
            }
        }
        if start > MAX_ELEMENTS - acc {
            return Err(OpError::ShapeTooLarge);
        }
        Ok(acc)
    }

    /// Row-major strides for `dims`, given that the partial products fit.
    fn row_major_strides(dims: &Vec<usize>, start: usize) -> (r: Vec<usize>)
        requires
            fits(dims@, start as nat),
        ensures
            row_major(dims@, r@),
    {
        let n = dims.len();
        let mut rev: Vec<usize> = Vec::new();
        let mut acc: usize = 1;
        let mut i: usize = n;
        while i > 0
            invariant
                n == dims@.len(),
                i <= n,
                fits(dims@, start as nat),
                acc == suffix_size(dims@, i as int),
                rev@.len() == n - i,
                forall|j: int|
                    0 <= j < n - i ==> #[trigger] rev@[j] == suffix_size(dims@, n - j),
            decreases i,
        {
            rev.push(acc);
            i = i - 1;
            assert(suffix_size(dims@, i as int) == (dims@[i as int] as nat) * suffix_size(
                dims@,
                i + 1,
            ));
            assert(suffix_size(dims@, i as int) <= MAX_ELEMENTS);
            acc = dims[i] * acc;
        }
        let mut out: Vec<usize> = Vec::new();
        let mut k: usize = 0;
        while k < n
            invariant
                n == dims@.len(),
                rev@.len() == n,
                k <= n,
                out@.len() == k,
                forall|j: int| 0 <= j < n ==> #[trigger] rev@[j] == suffix_size(dims@, n - j),
                forall|j: int| 0 <= j < k ==> #[trigger] out@[j] == suffix_size(dims@, j + 1),
            decreases n - k,
        {
            let v = rev[n - 1 - k];
            out.push(v);
            k = k + 1;
        }
        out
    }

    /// A contiguous (row-major) layout starting at element `start`.
    pub fn contiguous_with_offset(shape: Vec<usize>, start: usize) -> (r: Result<Layout, OpError>)
        ensures
            r is Ok <==> fits(shape@, start as nat),
            r matches Ok(l) ==> {
                &&& l.dims_view() == shape@
                &&& l.is_row_major()
                &&& l.offset_view() == start
            },
            r matches Err(e) ==> e == OpError::ShapeTooLarge,
    {
        match Self::check_fits(&shape, start) {
            Err(e) => Err(e),
            Ok(_) => {
                let stride = Self::row_major_strides(&shape, start);
                Ok(Layout { shape, stride, start_offset: start })
            },
        }
    }

    /// A contiguous (row-major) layout starting at element 0.
    pub fn contiguous(shape: Vec<usize>) -> (r: Result<Layout, OpError>)
        ensures
            r is Ok <==> fits(shape@, 0),
            r matches Ok(l) ==> {
                &&& l.dims_view() == shape@
                &&& l.is_row_major()
                &&& l.offset_view() == 0
            },
            r matches Err(e) ==> e == OpError::ShapeTooLarge,
    {
        Self::contiguous_with_offset(shape, 0)
    }

    /// A layout with explicit strides.
    pub fn new(shape: Vec<usize>, stride: Vec<usize>, start: usize) -> (r: Result<Layout, OpError>)
        ensures
            r is Ok <==> layout_ok(shape@, stride@, start as nat),
            r matches Ok(l) ==> {
                &&& l.dims_view() == shape@
                &&& l.strides_view() == stride@
                &&& l.offset_view() == start
            },
            r matches Err(e) ==> e == (if shape@.len() != stride@.len() {
                OpError::ShapeMismatch
            } else {
                OpError::ShapeTooLarge
            }),
    {
        if shape.len() != stride.len() {
            return Err(OpError::ShapeMismatch);
        }
        match Self::check_fits(&shape, start) {
            Err(e) => Err(e),
            Ok(_) => Ok(Layout { shape, stride, start_offset: start }),
        }
    }

    /// A copy of this layout.
    pub fn duplicate(&self) -> (r: Layout)
        ensures
            r.dims_view() == self.dims_view(),
            r.strides_view() == self.strides_view(),
            r.offset_view() == self.offset_view(),
            r.well_formed(),
    {
        proof {
            use_type_invariant(self);
        }
        Layout { shape: self.shape.clone(), stride: self.stride.clone(), start_offset: self.start_offset }
    }

    pub fn dims(&self) -> (r: &Vec<usize>)
        ensures
            r@ == self.dims_view(),
            self.well_formed(),
    {
        proof {
            use_type_invariant(self);
        }
        &self.shape
    }

    pub fn stride(&self) -> (r: &Vec<usize>)
        ensures
            r@ == self.strides_view(),
            self.well_formed(),
    {
        proof {
            use_type_invariant(self);
        }
        &self.stride
    }

    pub fn start_offset(&self) -> (r: usize)
        ensures
            r == self.offset_view(),
            self.well_formed(),
    {
        proof {
            use_type_invariant(self);
        }
        self.start_offset
    }

    pub fn rank(&self) -> (r: usize)
        ensures
            r == self.dims_view().len(),
            self.well_formed(),
    {
        proof {
            use_type_invariant(self);
        }
        self.shape.len()
    }

    pub fn elem_count(&self) -> (r: usize)
        ensures
            r == self.count(),
            self.well_formed(),
    {
        proof {
            use_type_invariant(self);
        }
        let n = self.shape.len();
        let mut acc: usize = 1;
        let mut i: usize = n;
        while i > 0
            invariant
                n == self.shape@.len(),
                i <= n,
                fits(self.shape@, self.start_offset as nat),
                acc == suffix_size(self.shape@, i as int),
            decreases i,
        {
            i = i - 1;
            assert(suffix_size(self.shape@, i as int) == (self.shape@[i as int] as nat)
                * suffix_size(self.shape@, i + 1));
            assert(suffix_size(self.shape@, i as int) <= MAX_ELEMENTS);
            acc = self.shape[i] * acc;
        }
        acc
    }

    /// Whether the strides are the row-major strides of the dimensions.
    pub fn is_contiguous(&self) -> (r: bool)
        ensures
            r == self.is_row_major(),
            self.well_formed(),
    {
        proof {
            use_type_invariant(self);
        }
        let n = self.shape.len();
        let mut acc: usize = 1;
        let mut i: usize = n;
        while i > 0
            invariant
                n == self.shape@.len(),
                n == self.stride@.len(),
                i <= n,
                fits(self.shape@, self.start_offset as nat),
                acc == suffix_size(self.shape@, i as int),
                forall|j: int|
                    i <= j < n ==> #[trigger] self.stride@[j] == suffix_size(self.shape@, j + 1),
            decreases i,
        {
            i = i - 1;
            if self.stride[i] != acc {
                return false;
            }
            assert(suffix_size(self.shape@, i as int) == (self.shape@[i as int] as nat)
                * suffix_size(self.shape@, i + 1));
            assert(suffix_size(self.shape@, i as int) <= MAX_ELEMENTS);
            acc = self.shape[i] * acc;
        }
        true
    }

    /// For a contiguous layout, the range of buffer offsets it covers.
    pub fn contiguous_offsets(&self) -> (r: Option<(usize, usize)>)
        ensures
            r is Some <==> self.is_row_major(),
            r matches Some((a, b)) ==> a == self.offset_view() && b == self.offset_view()
                + self.count(),
            self.well_formed(),
    {
        if self.is_contiguous() {
            let n = self.elem_count();
            let s = self.start_offset();
            Some((s, s + n))
        } else {
            None
        }
    }

    /// Dimension `i`, counted from the front.
    pub fn dim(&self, i: usize) -> (r: Result<usize, OpError>)
        ensures
            r is Ok <==> i < self.dims_view().len(),
            r matches Ok(d) ==> d == self.dims_view()[i as int],
            r matches Err(e) ==> e == OpError::ShapeMismatch,
            self.well_formed(),
    {
        proof {
            use_type_invariant(self);
        }
        if i < self.shape.len() {
            Ok(self.shape[i])
        } else {
            Err(OpError::ShapeMismatch)
        }
    }

    /// Dimension `k` counted from the end: `k == 1` is the last dimension.
    pub fn dim_from_end(&self, k: usize) -> (r: Result<usize, OpError>)
        ensures
            r is Ok <==> 1 <= k <= self.dims_view().len(),
            r matches Ok(d) ==> d == dim_from_end(self.dims_view(), k as int),
            r matches Err(e) ==> e == OpError::ShapeMismatch,
            self.well_formed(),
    {
        proof {
            use_type_invariant(self);
        }
        if 1 <= k && k <= self.shape.len() {
            Ok(self.shape[self.shape.len() - k])
        } else {
            Err(OpError::ShapeMismatch)
        }
    }

    /// The single dimension of a rank-1 layout.
    pub fn dims1(&self) -> (r: Result<usize, OpError>)
        ensures
            r is Ok <==> self.dims_view().len() == 1,
            r matches Ok(d) ==> d == self.dims_view()[0],
            r matches Err(e) ==> e == OpError::ShapeMismatch,
            self.well_formed(),
    {
        proof {
            use_type_invariant(self);
        }
        if self.shape.len() == 1 {
            Ok(self.shape[0])
        } else {
            Err(OpError::ShapeMismatch)
        }
    }

    /// The three dimensions of a rank-3 layout.
    pub fn dims3(&self) -> (r: Result<(usize, usize, usize), OpError>)
        ensures
            r is Ok <==> self.dims_view().len() == 3,
            r matches Ok((a, b, c)) ==> a == self.dims_view()[0] && b == self.dims_view()[1]
                && c == self.dims_view()[2],
            r matches Err(e) ==> e == OpError::ShapeMismatch,
            self.well_formed(),
    {
        proof {
            use_type_invariant(self);
        }
        if self.shape.len() == 3 {
            Ok((self.shape[0], self.shape[1], self.shape[2]))
        } else {
            Err(OpError::ShapeMismatch)
        }
    }

    /// The four dimensions of a rank-4 layout.
    pub fn dims4(&self) -> (r: Result<(usize, usize, usize, usize), OpError>)
        ensures
            r is Ok <==> self.dims_view().len() == 4,
            r matches Ok((a, b, c, d)) ==> a == self.dims_view()[0] && b == self.dims_view()[1]
                && c == self.dims_view()[2] && d == self.dims_view()[3],
            r matches Err(e) ==> e == OpError::ShapeMismatch,
            self.well_formed(),
    {
        proof {
            use_type_invariant(self);
        }
        if self.shape.len() == 4 {
            Ok((self.shape[0], self.shape[1], self.shape[2], self.shape[3]))
        } else {
            Err(OpError::ShapeMismatch)
        }
    }
    /// Buffer offset of every element in row-major order; fails when an
    /// offset does not fit in `usize`.
    pub fn offsets(&self) -> (r: Result<Vec<usize>, OpError>)
        ensures
            r is Ok <==> forall|i: nat|
                i < self.count() ==> #[trigger] element_offset(
                    self.dims_view(),
                    self.strides_view(),
                    self.offset_view() as nat,
                    i,
                ) <= usize::MAX,
            r matches Ok(v) ==> v@.len() == self.count() && forall|i: int|
                0 <= i < v@.len() ==> #[trigger] v@[i] == element_offset(
                    self.dims_view(),
                    self.strides_view(),
                    self.offset_view() as nat,
                    i as nat,
                ),
            r matches Err(e) ==> e == OpError::ShapeTooLarge,
    {
        proof {
            use_type_invariant(self);
        }
        let n = self.shape.len();
        let count = self.elem_count();
        let steps = Self::row_major_strides(&self.shape, self.start_offset);
        let ghost dims = self.shape@;
        let ghost strides = self.stride@;
        let ghost start = self.start_offset as nat;
        let mut out: Vec<usize> = Vec::new();
        let mut i: usize = 0;
        while i < count
            invariant
                n == dims.len(),
                n == strides.len(),
                dims == self.shape@,
                strides == self.stride@,
                start == self.start_offset,
                count == elem_count(dims),
                row_major(dims, steps@),
                i <= count,
                out@.len() == i,
                forall|k: int|
                    0 <= k < i ==> #[trigger] out@[k] == element_offset(dims, strides, start, k as nat),
            decreases count - i,
        {
            let mut acc: usize = self.start_offset;
            let mut j: usize = 0;
            while j < n
                invariant
                    n == dims.len(),
                    n == strides.len(),
                    dims == self.shape@,
                    strides == self.stride@,
                    start == self.start_offset,
                    count == elem_count(dims),
                    i < count,
                    row_major(dims, steps@),
                    j <= n,
                    acc + partial_offset(dims, strides, i as nat, j as int) == element_offset(
                        dims,
                        strides,
                        start,
                        i as nat,
                    ),
                decreases n - j,
            {
                let step = steps[j];
                let d = self.shape[j];
                let c: usize = if step == 0 || d == 0 {
                    0
                } else {
                    (i / step) % d
                };
                assert(c == coord(dims, i as nat, j as int));
                assert(partial_offset(dims, strides, i as nat, j as int) == c * strides[j as int]
                    + partial_offset(dims, strides, i as nat, j + 1));
                let term = match c.checked_mul(self.stride[j]) {
                    Some(t) => t,
                    None => {
                        assert(element_offset(
                            self.dims_view(),
                            self.strides_view(),
                            self.offset_view() as nat,
                            i as nat,
                        ) > usize::MAX);
                        return Err(OpError::ShapeTooLarge);
                    },
                };
                acc = match acc.checked_add(term) {
                    Some(a) => a,
                    None => {
                        assert(element_offset(
                            self.dims_view(),
                            self.strides_view(),
                            self.offset_view() as nat,
                            i as nat,
                        ) > usize::MAX);
                        return Err(OpError::ShapeTooLarge);
                    },
                };
                j = j + 1;
            }
            out.push(acc);
            i = i + 1;
        }
        assert forall|k: nat| k < self.count() implies #[trigger] element_offset(
            self.dims_view(),
            self.strides_view(),
            self.offset_view() as nat,
            k,
        ) <= usize::MAX by {
            assert(out@[k as int] == element_offset(dims, strides, start, k));
        }
        Ok(out)
    }
}

} // verus!
