//! Tensors with a shape: the decoded string tensor, held as an `ndarray`
//! array, and dense views over host memory.

use vstd::prelude::*;
use crate::status::Error;

verus! {

/// The number of elements that `dims` asks for: the product of the extents.
pub open spec fn shape_product(dims: Seq<usize>) -> nat
    decreases dims.len(),
{
    if dims.len() == 0 {
        1
    } else {
        shape_product(dims.drop_last()) * (dims.last() as nat)
    }
}

/// The product of the extents that are not zero.
pub open spec fn nonzero_product(dims: Seq<usize>) -> nat
    decreases dims.len(),
{
    if dims.len() == 0 {
        1
    } else if dims.last() == 0 {
        nonzero_product(dims.drop_last())
    } else {
        nonzero_product(dims.drop_last()) * (dims.last() as nat)
    }
}

/// A flat buffer of `len` elements can take the shape `dims`: the extents
/// multiply to `len`, and those that are not zero stay within `isize::MAX`.
pub open spec fn shape_fits(dims: Seq<usize>, len: nat) -> bool {
    nonzero_product(dims) <= isize::MAX as nat && shape_product(dims) == len
}

/// A shape with a positive number of elements has no extent of zero, so both
/// products agree on it.
pub proof fn lemma_positive_product(dims: Seq<usize>)
    requires
        shape_product(dims) > 0,
    ensures
        nonzero_product(dims) == shape_product(dims),
    decreases dims.len(),
{
    if dims.len() > 0 {
        let rest = shape_product(dims.drop_last());
        let last = dims.last() as nat;
        assert(rest > 0 && last > 0) by (nonlinear_arith)
            requires
                rest * last > 0,
        ;
        lemma_positive_product(dims.drop_last());
    }
}

/// Every extent is one that a buffer in memory can have: not negative and
/// within `usize`.
pub open spec fn extents_valid(dims: Seq<i64>) -> bool {
    forall|i: int| 0 <= i < dims.len() ==> 0 <= #[trigger] dims[i] <= usize::MAX
}

/// The host's dimensions as extents.
pub open spec fn extents(dims: Seq<i64>) -> Seq<usize> {
    Seq::new(dims.len(), |i: int| dims[i] as usize)
}

/// The extents that the host's dimensions stand for.
pub fn dims_to_shape(dims: &Vec<i64>) -> (r: Result<Vec<usize>, Error>)
    ensures
        match r {
            Ok(shape) => extents_valid(dims@) && shape@ == extents(dims@),
            Err(e) => e == Error::ShapeMismatch && !extents_valid(dims@),
        },
{
    let mut shape: Vec<usize> = Vec::new();
    let mut i: usize = 0;
    while i < dims.len()
        invariant
            i <= dims@.len(),
            shape@.len() == i,
            forall|j: int| 0 <= j < i ==> 0 <= #[trigger] dims@[j] <= usize::MAX,
            forall|j: int| 0 <= j < i ==> #[trigger] shape@[j] == dims@[j] as usize,
        decreases dims@.len() - i,
    {
        let d: i64 = dims[i];
        if d < 0 || d as u64 > usize::MAX as u64 {
            return Err(Error::ShapeMismatch);
        }
        shape.push(d as usize);
        i += 1;
    }
    assert(shape@ =~= extents(dims@));
    Ok(shape)
}

/// Every extent is one that the host can be told.
pub open spec fn shape_representable(shape: Seq<usize>) -> bool {
    forall|i: int| 0 <= i < shape.len() ==> #[trigger] shape[i] <= i64::MAX
}

/// The extents as the host takes dimensions.
pub fn shape_to_dims(shape: &[usize]) -> (r: Vec<i64>)
    requires
        shape_representable(shape@),
    ensures
        extents_valid(r@),
        extents(r@) == shape@,
{
    let mut dims: Vec<i64> = Vec::new();
    let mut i: usize = 0;
    while i < shape.len()
        invariant
            i <= shape@.len(),
            dims@.len() == i,
            shape_representable(shape@),
            forall|j: int| 0 <= j < i ==> #[trigger] dims@[j] == shape@[j],
        decreases shape@.len() - i,
    {
        dims.push(shape[i] as i64);
        i += 1;
    }
    assert(extents(dims@) =~= shape@);
    dims
}

/// The views of `items`, in order.
pub open spec fn texts(items: Seq<String>) -> Seq<Seq<char>> {
    Seq::new(items.len(), |i: int| items[i]@)
}

#[verifier::external_type_specification]
#[verifier::external_body]
pub struct ExShapeError(ndarray::ShapeError);

/// An array of text with any number of axes: `ndarray::Array<String, IxDyn>`.
#[verifier::external_body]
pub struct StringArray {
    inner: ndarray::Array<String, ndarray::IxDyn>,
}

/// The extents of the array's axes.
pub uninterp spec fn array_shape(a: StringArray) -> Seq<usize>;

/// The array's elements in logical order, the last index varying fastest.
pub uninterp spec fn array_items(a: StringArray) -> Seq<Seq<char>>;

/// `Array::from` a vector, then `ArrayBase::into_shape`, of ndarray. The
/// reshape succeeds exactly where the shape fits the number of items; the
/// array then has that shape and holds the items in their order, row-major.
#[verifier::external_body]
fn reshape_strings(items: Vec<String>, dims: Vec<usize>) -> (r: Result<
    StringArray,
    ndarray::ShapeError,
>)
    ensures
        r is Ok <==> shape_fits(dims@, items@.len()),
        r is Ok ==> array_shape(r->Ok_0) == dims@ && array_items(r->Ok_0) == texts(items@),
{
    match ndarray::Array::from(items).into_shape(dims) {
        Ok(inner) => Ok(StringArray { inner }),
        Err(e) => Err(e),
    }
}

/// `ArrayBase::shape` of ndarray: the extents of the axes.
#[verifier::external_body]
fn string_array_shape(a: &StringArray) -> (r: Vec<usize>)
    ensures
        r@ == array_shape(*a),
{
    a.inner.shape().to_vec()
}

/// `ArrayBase::iter` of ndarray: the elements in logical order.
#[verifier::external_body]
fn string_array_items(a: &StringArray) -> (r: Vec<String>)
    ensures
        texts(r@) == array_items(*a),
{
    a.inner.iter().cloned().collect()
}

/// `ArrayView::from` a slice, then `ArrayBase::into_shape`, of ndarray:
/// whether the reshape of a flat view into `dims` succeeds.
#[verifier::external_body]
fn slice_takes_shape<T>(data: &[T], dims: &Vec<usize>) -> (r: bool)
    requires
        data@.len() <= isize::MAX,
    ensures
        r == shape_fits(dims@, data@.len()),
{
    ndarray::ArrayView::from(data).into_shape(dims.clone()).is_ok()
}

impl StringArray {
    /// The array of shape `dims` that holds `items` in row-major order.
    pub fn from_shape_vec(items: Vec<String>, dims: Vec<usize>) -> (r: Result<StringArray, Error>)
        ensures
            match r {
                Ok(a) => {
                    &&& shape_fits(dims@, items@.len())
                    &&& array_shape(a) == dims@
                    &&& array_items(a) == texts(items@)
                },
                Err(e) => e == Error::ShapeMismatch && !shape_fits(dims@, items@.len()),
            },
    {
        match reshape_strings(items, dims) {
            Ok(a) => Ok(a),
            Err(_) => Err(Error::ShapeMismatch),
        }
    }

    /// The extents of the axes.
    pub fn shape(&self) -> (r: Vec<usize>)
        ensures
            r@ == array_shape(*self),
    {
        string_array_shape(self)
    }

    /// The elements in logical order.
    pub fn to_vec(&self) -> (r: Vec<String>)
        ensures
            texts(r@) == array_items(*self),
    {
        string_array_items(self)
    }
}

/// A read-only dense tensor: a flat buffer of host memory and the shape it
/// is read in, row-major.
pub struct TensorView<'a, T> {
    dims: Vec<usize>,
    data: &'a [T],
}

/// A writable dense tensor: a flat buffer of host memory and the shape it is
/// written in, row-major.
pub struct TensorViewMut<'a, T> {
    dims: Vec<usize>,
    data: &'a mut [T],
}

impl<'a, T> TensorView<'a, T> {
    #[verifier::type_invariant]
    spec fn well_formed(self) -> bool {
        shape_fits(self.dims@, self.data@.len())
    }

    /// The extents of the axes.
    pub closed spec fn dims(self) -> Seq<usize> {
        self.dims@
    }

    /// The elements, row-major.
    pub closed spec fn elements(self) -> Seq<T> {
        self.data@
    }

    /// The view of `data` in the shape `dims`.
    pub fn new(data: &'a [T], dims: Vec<usize>) -> (r: Result<Self, Error>)
        ensures
            match r {
                Ok(v) => {
                    &&& shape_fits(dims@, data@.len())
                    &&& v.dims() == dims@
                    &&& v.elements() == data@
                },
                Err(e) => e == Error::ShapeMismatch && !shape_fits(dims@, data@.len()),
            },
    {
        if data.len() > isize::MAX as usize {
            proof {
                if shape_product(dims@) == data@.len() {
                    lemma_positive_product(dims@);
                }
            }
            Err(Error::ShapeMismatch)
        } else if slice_takes_shape(data, &dims) {
            Ok(TensorView { dims, data })
        } else {
            Err(Error::ShapeMismatch)
        }
    }

    /// The extents of the axes.
    pub fn shape(&self) -> (r: &Vec<usize>)
        ensures
            r@ == self.dims(),
            shape_product(r@) == self.elements().len(),
    {
        proof {
            use_type_invariant(self);
        }
        &self.dims
    }

    /// The elements, row-major.
    pub fn as_slice(&self) -> (r: &'a [T])
        ensures
            r@ == self.elements(),
            r@.len() == shape_product(self.dims()),
    {
        proof {
            use_type_invariant(self);
        }
        self.data
    }
}

impl<'a, T> TensorViewMut<'a, T> {
    #[verifier::type_invariant]
    spec fn well_formed(self) -> bool {
        shape_fits(self.dims@, self.data@.len())
    }

    /// The extents of the axes.
    pub closed spec fn dims(self) -> Seq<usize> {
        self.dims@
    }

    /// The elements, row-major.
    pub closed spec fn elements(self) -> Seq<T> {
        self.data@
    }

    /// The view of `data` in the shape `dims`.
    pub fn new(data: &'a mut [T], dims: Vec<usize>) -> (r: Result<Self, Error>)
        ensures
            match r {
                Ok(v) => {
                    &&& shape_fits(dims@, old(data)@.len())
                    &&& v.dims() == dims@
                    &&& v.elements() == old(data)@
                },
                Err(e) => e == Error::ShapeMismatch && !shape_fits(dims@, old(data)@.len()),
            },
    {
        if data.len() > isize::MAX as usize {
            proof {
                if shape_product(dims@) == data@.len() {
                    lemma_positive_product(dims@);
                }
            }
            Err(Error::ShapeMismatch)
        } else if slice_takes_shape(data, &dims) {
            Ok(TensorViewMut { dims, data })
        } else {
            Err(Error::ShapeMismatch)
        }
    }

    /// The extents of the axes.
    pub fn shape(&self) -> (r: &Vec<usize>)
        ensures
            r@ == self.dims(),
            shape_product(r@) == self.elements().len(),
    {
        proof {
            use_type_invariant(self);
        }
        &self.dims
    }

    /// Gives up the view for its shape and its buffer.
    pub fn into_parts(self) -> (r: (Vec<usize>, &'a mut [T]))
        ensures
            r.0@ == self.dims(),
            r.1@ == self.elements(),
            shape_product(r.0@) == r.1@.len(),
    {
        proof {
            use_type_invariant(&self);
        }
        let TensorViewMut { dims, data } = self;
        (dims, data)
    }
}

} // verus!
