//! Arrays of bytes, the shape in which views and data buffers are held.
use crate::array::Array;
use crate::array::Canonical;
use crate::buffer::Buffer;
use crate::compute::ArrayCompute;
use crate::compute::Capabilities;
use crate::dtype::DType;
use crate::dtype::PType;
use crate::error::VortexError;
use crate::error::VortexResult;
use crate::scalar::null_scalar;
use crate::scalar::Scalar;
use crate::scalar::ScalarView;
use crate::scalar::ValueView;
use crate::validity::Validity;
use crate::validity::ValidityView;
use vstd::prelude::*;

verus! {

/// An array of unsigned 8-bit integers.
#[derive(Clone, Debug)]
pub struct PrimitiveArray {
    buffer: Buffer<u8>,
    validity: Validity,
}

impl PrimitiveArray {
    /// The parts are well-formed and explicit validity has one flag for each
    /// element.
    pub closed spec fn wf(&self) -> bool {
        &&& self.buffer.wf()
        &&& self.validity.wf()
        &&& self.validity@.fits(self.buffer@.len() as int)
    }

    /// The elements, null or not.
    pub closed spec fn spec_values(&self) -> Seq<u8> {
        self.buffer@
    }

    pub closed spec fn spec_validity(&self) -> ValidityView {
        self.validity@
    }

    pub open spec fn spec_len(&self) -> nat {
        self.spec_values().len()
    }

    pub open spec fn spec_dtype(&self) -> DType {
        DType::Primitive(
            PType::U8,
            if self.spec_validity() is NonNullable {
                crate::dtype::Nullability::NonNullable
            } else {
                crate::dtype::Nullability::Nullable
            },
        )
    }

    /// What reading element `index` gives.
    pub open spec fn spec_scalar_at(&self, index: int) -> Result<ScalarView, VortexError> {
        if !(0 <= index < self.spec_len()) {
            Err(VortexError::OutOfRange)
        } else if !self.spec_validity().is_valid(index) {
            Ok(null_scalar(self.spec_dtype()))
        } else {
            Ok(
                ScalarView {
                    dtype: self.spec_dtype(),
                    value: ValueView::U8(self.spec_values()[index]),
                },
            )
        }
    }

    /// The non-nullable array of the bytes in `buffer`.
    pub fn from_buffer(buffer: Buffer<u8>) -> (array: PrimitiveArray)
        requires
            buffer.wf(),
        ensures
            array.wf(),
            array.spec_values() == buffer@,
            array.spec_validity() == ValidityView::NonNullable,
            array.spec_dtype() == DType::spec_bytes(),
    {
        PrimitiveArray { buffer, validity: Validity::NonNullable }
    }

    /// The non-nullable array of `values`.
    pub fn from_vec(values: Vec<u8>) -> (array: PrimitiveArray)
        ensures
            array.wf(),
            array.spec_values() == values@,
            array.spec_validity() == ValidityView::NonNullable,
            array.spec_dtype() == DType::spec_bytes(),
    {
        PrimitiveArray::from_buffer(Buffer::from_vec(values))
    }

    /// The array of the bytes in `buffer` with `validity`, or
    /// `InvalidValidity` where explicit validity has not one flag for each
    /// byte.
    pub fn try_new(buffer: Buffer<u8>, validity: Validity) -> (r: VortexResult<PrimitiveArray>)
        requires
            buffer.wf(),
            validity.wf(),
        ensures
            match r {
                Ok(array) => {
                    &&& array.wf()
                    &&& array.spec_values() == buffer@
                    &&& array.spec_validity() == validity@
                    &&& validity@.fits(buffer@.len() as int)
                },
                Err(e) => e == VortexError::InvalidValidity && !validity@.fits(
                    buffer@.len() as int,
                ),
            },
    {
        match validity.to_metadata(buffer.len()) {
            Ok(_) => Ok(PrimitiveArray { buffer, validity }),
            Err(e) => Err(e),
        }
    }

    /// The number of elements.
    pub fn len(&self) -> (len: usize)
        requires
            self.wf(),
        ensures
            len == self.spec_len(),
    {
        self.buffer.len()
    }

    /// The logical type: unsigned 8-bit integers, nullable unless the
    /// validity is `NonNullable`.
    pub fn dtype(&self) -> (dtype: DType)
        ensures
            dtype == self.spec_dtype(),
    {
        DType::Primitive(PType::U8, self.validity.nullability())
    }

    /// The elements.
    pub fn buffer(&self) -> (buffer: &Buffer<u8>)
        requires
            self.wf(),
        ensures
            buffer.wf(),
            buffer@ == self.spec_values(),
    {
        &self.buffer
    }

    /// The elements, given away.
    pub fn into_buffer(self) -> (buffer: Buffer<u8>)
        requires
            self.wf(),
        ensures
            buffer.wf(),
            buffer@ == self.spec_values(),
    {
        self.buffer
    }

    /// The validity.
    pub fn validity(&self) -> (validity: Validity)
        requires
            self.wf(),
        ensures
            validity.wf(),
            validity@ == self.spec_validity(),
    {
        self.validity.share()
    }

    /// A second handle on the same array; no element is copied.
    pub fn share(&self) -> (array: PrimitiveArray)
        requires
            self.wf(),
        ensures
            array.wf(),
            array.spec_values() == self.spec_values(),
            array.spec_validity() == self.spec_validity(),
    {
        PrimitiveArray { buffer: self.buffer.share(), validity: self.validity.share() }
    }

    /// Element `index` as a scalar: the null of the array's type where the
    /// element is null, `OutOfRange` where there is no such element.
    pub fn scalar_at(&self, index: usize) -> (r: VortexResult<Scalar>)
        requires
            self.wf(),
        ensures
            match r {
                Ok(scalar) => self.spec_scalar_at(index as int) == Ok::<ScalarView, VortexError>(
                    scalar@,
                ),
                Err(e) => self.spec_scalar_at(index as int) == Err::<ScalarView, VortexError>(e),
            },
    {
        if index >= self.buffer.len() {
            return Err(VortexError::OutOfRange);
        }
        if self.validity.is_valid(index) {
            Ok(Scalar::byte(self.buffer.get(index), self.validity.nullability()))
        } else {
            Ok(Scalar::null(self.dtype()))
        }
    }

    /// The elements from `start` up to `stop`, sharing the storage of this
    /// array, or `OutOfRange` unless `start <= stop <= len`.
    pub fn slice(&self, start: usize, stop: usize) -> (r: VortexResult<PrimitiveArray>)
        requires
            self.wf(),
        ensures
            match r {
                Ok(array) => {
                    &&& start <= stop <= self.spec_len()
                    &&& array.wf()
                    &&& array.spec_values() == self.spec_values().subrange(
                        start as int,
                        stop as int,
                    )
                    &&& array.spec_validity() == self.spec_validity().slice(
                        start as int,
                        stop as int,
                    )
                    &&& array.spec_dtype() == self.spec_dtype()
                    &&& array.spec_len() == stop - start
                    &&& forall|k: int|
                        0 <= k < stop - start ==> array.spec_scalar_at(k) == self.spec_scalar_at(
                            start + k,
                        )
                },
                Err(e) => e == VortexError::OutOfRange && !(start <= stop <= self.spec_len()),
            },
    {
        let buffer = match self.buffer.slice(start, stop) {
            Ok(buffer) => buffer,
            Err(e) => {
                return Err(e);
            },
        };
        match self.validity.slice(start, stop) {
            Ok(validity) => Ok(PrimitiveArray { buffer, validity }),
            Err(e) => Err(e),
        }
    }
}

impl ArrayCompute for PrimitiveArray {
    open spec fn well_formed(&self) -> bool {
        self.wf()
    }

    open spec fn len_of(&self) -> nat {
        self.spec_len()
    }

    open spec fn dtype_of(&self) -> DType {
        self.spec_dtype()
    }

    open spec fn reads_as(&self, index: int) -> Result<ScalarView, VortexError> {
        self.spec_scalar_at(index)
    }

    open spec fn publishes(&self) -> Capabilities {
        Capabilities { scalar_at: true, slice: true, as_arrow: false }
    }

    open spec fn canonical_error(&self) -> Option<VortexError> {
        None
    }

    fn length(&self) -> (len: usize) {
        self.len()
    }

    fn capabilities(&self) -> (capabilities: Capabilities) {
        Capabilities { scalar_at: true, slice: true, as_arrow: false }
    }

    fn scalar_at_fn(&self, index: usize) -> (r: VortexResult<Scalar>) {
        self.scalar_at(index)
    }

    fn slice_fn(&self, start: usize, stop: usize) -> (r: VortexResult<Array>) {
        match self.slice(start, stop) {
            Ok(sliced) => Ok(Array::Primitive(sliced)),
            Err(e) => Err(e),
        }
    }

    /// The encoding has no Arrow view array: whatever the array holds,
    /// `MismatchedTypes` comes back.
    fn as_arrow_fn(&self) -> (r: VortexResult<crate::arrow::ArrowViewArray>)
        ensures
            r matches Err(e) && e == VortexError::MismatchedTypes,
    {
        Err(VortexError::MismatchedTypes)
    }

    /// The array itself: the encoding is canonical.
    fn flatten_fn(&self) -> (r: VortexResult<Canonical>) {
        Ok(Canonical::Primitive(self.share()))
    }
}

} // verus!
