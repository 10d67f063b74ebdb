//! Operations on arrays of any encoding.
//!
//! An encoding implements of each operation what it can do well, and says so
//! in its capabilities. The functions of this module ask the encoding of an
//! array whether it implements the operation; where it does they call it, and
//! where it does not they bring the array into canonical form and ask the
//! canonical array, which implements every operation. So every array answers
//! every operation, in at most one step through its canonical form.
use crate::array::varbinview::view::view_at;
use crate::array::varbinview::view::view_value;
use crate::array::Array;
use crate::array::Canonical;
use crate::arrow::arrow_buffers;
use crate::arrow::arrow_is_utf8;
use crate::arrow::arrow_nulls;
use crate::arrow::arrow_views;
use crate::arrow::ArrowViewArray;
use crate::dtype::DType;
use crate::error::VortexError;
use crate::error::VortexResult;
use crate::scalar::null_scalar;
use crate::scalar::varbin_scalar_view;
use crate::scalar::Scalar;
use crate::scalar::ScalarView;
use vstd::prelude::*;

verus! {

/// The operations that an encoding implements itself.
#[derive(Clone, Copy, Debug, PartialEq, Eq, Structural)]
pub struct Capabilities {
    /// Reads one element.
    pub scalar_at: bool,
    /// Narrows an array to a range of its elements.
    pub slice: bool,
    /// Converts an array to the Arrow format.
    pub as_arrow: bool,
}

/// What a result amounts to, the scalar taken as a mathematical value.
pub open spec fn scalar_result(r: VortexResult<Scalar>) -> Result<ScalarView, VortexError> {
    match r {
        Ok(scalar) => Ok(scalar@),
        Err(e) => Err(e),
    }
}

/// What element `index` of an Arrow view array reads as, taken as a value of
/// type `dtype`: the null of that type where the null mask says so, else the
/// bytes that the view describes.
pub open spec fn arrow_reads_as(array: ArrowViewArray, dtype: DType, index: int) -> Result<
    ScalarView,
    VortexError,
> {
    if !(0 <= index < arrow_views(array).len() / 16) {
        Err(VortexError::OutOfRange)
    } else if arrow_nulls(array) matches Some(mask) && !mask[index] {
        Ok(null_scalar(dtype))
    } else {
        match view_value(view_at(arrow_views(array), index), arrow_buffers(array)) {
            Ok(bytes) => Ok(varbin_scalar_view(bytes, dtype)),
            Err(e) => Err(e),
        }
    }
}

/// Whether `sliced` holds the elements of an array from `start` up to `stop`:
/// it has the type of the array and `stop - start` elements, and its element
/// `k` reads as element `start + k` of the array does.
pub open spec fn is_slice_of<A: ArrayCompute>(
    sliced: Array,
    array: A,
    start: int,
    stop: int,
) -> bool {
    &&& sliced.wf()
    &&& sliced.spec_dtype() == array.dtype_of()
    &&& sliced.spec_len() == stop - start
    &&& forall|k: int|
        0 <= k < stop - start ==> sliced.spec_scalar_at(k) == array.reads_as(start + k)
}

/// Whether `canonical` holds what an array holds: the same type, the same
/// length, and every element reads alike.
pub open spec fn is_canonical_of<A: ArrayCompute>(canonical: Canonical, array: A) -> bool {
    &&& canonical.wf()
    &&& canonical.spec_array().spec_dtype() == array.dtype_of()
    &&& canonical.spec_array().spec_len() == array.len_of()
    &&& forall|i: int| canonical.spec_array().spec_scalar_at(i) == array.reads_as(i)
}

/// What an encoding offers: a way into canonical form, and of the other
/// operations those that its capabilities name.
pub trait ArrayCompute: Sized {
    /// The invariant of the encoding.
    open spec fn well_formed(&self) -> bool {
        false
    }

    /// The number of elements.
    open spec fn len_of(&self) -> nat {
        0
    }

    /// The logical type.
    open spec fn dtype_of(&self) -> DType {
        DType::Null
    }

    /// What reading element `index` gives.
    open spec fn reads_as(&self, index: int) -> Result<ScalarView, VortexError> {
        Err(VortexError::OutOfRange)
    }

    /// The operations that the encoding implements itself.
    open spec fn publishes(&self) -> Capabilities {
        Capabilities { scalar_at: false, slice: false, as_arrow: false }
    }

    /// The error with which bringing the array into canonical form fails, if
    /// it fails.
    open spec fn canonical_error(&self) -> Option<VortexError> {
        None
    }

    /// The error with which converting the array to Arrow fails, if it
    /// fails, for an encoding that implements the conversion.
    open spec fn arrow_error(&self) -> Option<VortexError> {
        None
    }

    /// The number of elements.
    fn length(&self) -> (len: usize)
        requires
            self.well_formed(),
        ensures
            len == self.len_of(),
    ;

    /// The operations that the encoding implements itself.
    fn capabilities(&self) -> (capabilities: Capabilities)
        requires
            self.well_formed(),
        ensures
            capabilities == self.publishes(),
    ;

    /// Reads element `index`. What comes back is specified for an encoding
    /// that publishes reading; another may answer anything, and is not asked.
    fn scalar_at_fn(&self, index: usize) -> (r: VortexResult<Scalar>)
        requires
            self.well_formed(),
            index < self.len_of(),
        ensures
            self.publishes().scalar_at ==> scalar_result(r) == self.reads_as(index as int),
    ;

    /// Narrows the array to the elements from `start` up to `stop`. What
    /// comes back is specified for an encoding that publishes slicing; another
    /// may answer anything, and is not asked.
    fn slice_fn(&self, start: usize, stop: usize) -> (r: VortexResult<Array>)
        requires
            self.well_formed(),
            start <= stop <= self.len_of(),
        ensures
            self.publishes().slice ==> (r matches Ok(sliced) && {
                &&& sliced.wf()
                &&& sliced.spec_dtype() == self.dtype_of()
                &&& sliced.spec_len() == stop - start
                &&& forall|k: int|
                    0 <= k < stop - start ==> sliced.spec_scalar_at(k) == self.reads_as(start + k)
            }),
    ;

    /// Converts the array to an Arrow view array. What comes back is
    /// specified for an encoding that publishes the conversion; another may
    /// answer anything, and is not asked.
    fn as_arrow_fn(&self) -> (r: VortexResult<ArrowViewArray>)
        requires
            self.well_formed(),
        ensures
            self.publishes().as_arrow ==> match r {
                Ok(array) => {
                    &&& self.arrow_error() is None
                    &&& arrow_is_utf8(array) == (self.dtype_of() is Utf8)
                    &&& arrow_views(array).len() == 16 * self.len_of()
                    &&& forall|i: int|
                        0 <= i < self.len_of() ==> arrow_reads_as(array, self.dtype_of(), i)
                            == self.reads_as(i)
                },
                Err(e) => self.arrow_error() == Some(e),
            },
    ;

    /// Brings the array into canonical form. This must neither change the
    /// array nor depend on anything but the array. A canonical array of
    /// strings or bytes is one that Arrow takes as it is.
    fn flatten_fn(&self) -> (r: VortexResult<Canonical>)
        requires
            self.well_formed(),
        ensures
            match r {
                Ok(canonical) => {
                    &&& self.canonical_error() is None
                    &&& canonical.wf()
                    &&& canonical matches Canonical::VarBinView(views)
                        ==> views.arrow_compatible()
                    &&& canonical.spec_array().spec_dtype() == self.dtype_of()
                    &&& canonical.spec_array().spec_len() == self.len_of()
                    &&& forall|i: int|
                        canonical.spec_array().spec_scalar_at(i) == self.reads_as(i)
                },
                Err(e) => self.canonical_error() == Some(e),
            },
    ;
}

/// What `scalar_at` gives for element `index` of `array`: `OutOfRange` where
/// there is no such element; what the element reads as where the encoding
/// implements reading, or the array has a canonical form; and else the error
/// with which bringing the array into canonical form fails.
pub open spec fn scalar_at_outcome<A: ArrayCompute>(array: A, index: int) -> Result<
    ScalarView,
    VortexError,
> {
    if !(0 <= index < array.len_of()) {
        Err(VortexError::OutOfRange)
    } else if array.publishes().scalar_at {
        array.reads_as(index)
    } else {
        match array.canonical_error() {
            Some(e) => Err(e),
            None => array.reads_as(index),
        }
    }
}

/// Element `index` of `array`, as a scalar.
///
/// Where the encoding of the array does not implement reading, the array is
/// brought into canonical form and the element is read there.
pub fn scalar_at<A: ArrayCompute>(array: &A, index: usize) -> (r: VortexResult<Scalar>)
    requires
        array.well_formed(),
    ensures
        scalar_result(r) == scalar_at_outcome(*array, index as int),
{
    if index >= array.length() {
        return Err(VortexError::OutOfRange);
    }
    if array.capabilities().scalar_at {
        array.scalar_at_fn(index)
    } else {
        match array.flatten_fn() {
            Ok(canonical) => canonical.scalar_at(index),
            Err(e) => Err(e),
        }
    }
}

/// The elements of `array` from `start` up to `stop`, or `OutOfRange` unless
/// `start <= stop <= len`.
///
/// Where the encoding of the array does not implement slicing, the array is
/// brought into canonical form and sliced there; the error with which that
/// fails, if it does, comes back.
pub fn slice<A: ArrayCompute>(array: &A, start: usize, stop: usize) -> (r: VortexResult<Array>)
    requires
        array.well_formed(),
    ensures
        match r {
            Ok(sliced) => start <= stop <= array.len_of() && is_slice_of(
                sliced,
                *array,
                start as int,
                stop as int,
            ),
            Err(e) => if !(start <= stop <= array.len_of()) {
                e == VortexError::OutOfRange
            } else {
                !array.publishes().slice && array.canonical_error() == Some(e)
            },
        },
{
    if start > stop || stop > array.length() {
        return Err(VortexError::OutOfRange);
    }
    if array.capabilities().slice {
        array.slice_fn(start, stop)
    } else {
        match array.flatten_fn() {
            Ok(canonical) => canonical.slice(start, stop),
            Err(e) => Err(e),
        }
    }
}

/// `array` as an Arrow view array.
///
/// Where the encoding of the array does not implement the conversion, the
/// array is brought into canonical form and converted there. Only arrays of
/// strings and of bytes have an Arrow view array: for a canonical array of
/// another type `MismatchedTypes` comes back.
pub fn as_arrow<A: ArrayCompute>(array: &A) -> (r: VortexResult<ArrowViewArray>)
    requires
        array.well_formed(),
    ensures
        match r {
            Ok(arrow) => {
                &&& if array.publishes().as_arrow {
                    array.arrow_error() is None
                } else {
                    array.canonical_error() is None && array.dtype_of().is_varbin()
                }
                &&& arrow_is_utf8(arrow) == (array.dtype_of() is Utf8)
                &&& arrow_views(arrow).len() == 16 * array.len_of()
                &&& forall|i: int|
                    0 <= i < array.len_of() ==> arrow_reads_as(arrow, array.dtype_of(), i)
                        == array.reads_as(i)
            },
            Err(e) => if array.publishes().as_arrow {
                array.arrow_error() == Some(e)
            } else if array.canonical_error() is Some {
                array.canonical_error() == Some(e)
            } else {
                e == VortexError::MismatchedTypes && !array.dtype_of().is_varbin()
            },
        },
{
    if array.capabilities().as_arrow {
        array.as_arrow_fn()
    } else {
        match array.flatten_fn() {
            Ok(canonical) => {
                proof {
                    if canonical is VarBinView {
                        canonical->VarBinView_0.lemma_wf();
                    }
                }
                canonical.as_arrow()
            },
            Err(e) => Err(e),
        }
    }
}

/// The canonical form of `array`, or the error with which bringing it into
/// canonical form fails.
pub fn flatten<A: ArrayCompute>(array: &A) -> (r: VortexResult<Canonical>)
    requires
        array.well_formed(),
    ensures
        match r {
            Ok(canonical) => {
                &&& array.canonical_error() is None
                &&& is_canonical_of(canonical, *array)
                &&& canonical matches Canonical::VarBinView(views) ==> views.arrow_compatible()
            },
            Err(e) => array.canonical_error() == Some(e),
        },
{
    array.flatten_fn()
}

impl Canonical {
    /// This array as an Arrow view array: for an array of strings or bytes
    /// the conversion of that array, for another `MismatchedTypes`.
    pub fn as_arrow(&self) -> (r: VortexResult<ArrowViewArray>)
        requires
            self.wf(),
        ensures
            match r {
                Ok(arrow) => {
                    &&& self matches Canonical::VarBinView(views)
                    &&& views.arrow_compatible()
                    &&& arrow_is_utf8(arrow) == (views.spec_dtype() is Utf8)
                    &&& arrow_views(arrow).len() == 16 * views.spec_len()
                    &&& forall|i: int|
                        0 <= i < views.spec_len() ==> arrow_reads_as(arrow, views.spec_dtype(), i)
                            == views.spec_scalar_at(i)
                },
                Err(e) => match *self {
                    Canonical::VarBinView(views) => e == VortexError::InvalidArgument
                        && !views.arrow_compatible(),
                    _ => e == VortexError::MismatchedTypes,
                },
            },
    {
        match self {
            Canonical::VarBinView(views) => {
                let r = views.as_arrow();
                proof {
                    if r is Ok {
                        views.lemma_arrow_reads_alike(r->Ok_0);
                    }
                }
                r
            },
            _ => Err(VortexError::MismatchedTypes),
        }
    }

    /// Element `index` as a scalar. Every canonical encoding implements
    /// reading.
    pub fn scalar_at(&self, index: usize) -> (r: VortexResult<Scalar>)
        requires
            self.wf(),
        ensures
            scalar_result(r) == self.spec_array().spec_scalar_at(index as int),
    {
        match self {
            Canonical::Bool(a) => a.scalar_at(index),
            Canonical::Primitive(a) => a.scalar_at(index),
            Canonical::VarBinView(a) => a.scalar_at(index),
        }
    }

    /// The elements from `start` up to `stop`, or `OutOfRange` unless
    /// `start <= stop <= len`. Every canonical encoding implements slicing.
    pub fn slice(&self, start: usize, stop: usize) -> (r: VortexResult<Array>)
        requires
            self.wf(),
        ensures
            match r {
                Ok(sliced) => {
                    &&& start <= stop <= self.spec_array().spec_len()
                    &&& sliced.wf()
                    &&& sliced.spec_dtype() == self.spec_array().spec_dtype()
                    &&& sliced.spec_len() == stop - start
                    &&& forall|k: int|
                        0 <= k < stop - start ==> sliced.spec_scalar_at(k)
                            == self.spec_array().spec_scalar_at(start + k)
                },
                Err(e) => e == VortexError::OutOfRange && !(start <= stop
                    <= self.spec_array().spec_len()),
            },
    {
        match self {
            Canonical::Bool(a) => match a.slice(start, stop) {
                Ok(sliced) => Ok(Array::Bool(sliced)),
                Err(e) => Err(e),
            },
            Canonical::Primitive(a) => match a.slice(start, stop) {
                Ok(sliced) => Ok(Array::Primitive(sliced)),
                Err(e) => Err(e),
            },
            Canonical::VarBinView(a) => match a.slice(start, stop) {
                Ok(sliced) => Ok(Array::VarBinView(sliced)),
                Err(e) => Err(e),
            },
        }
    }
}

} // verus!
