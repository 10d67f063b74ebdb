//! Arrays of booleans.
use crate::array::Array;
use crate::array::Canonical;
use crate::buffer::Buffer;
use crate::compute::ArrayCompute;
use crate::compute::Capabilities;
use crate::dtype::DType;
use crate::dtype::Nullability;
use crate::error::VortexError;
use crate::error::VortexResult;
use crate::scalar::bool_scalar;
use crate::scalar::Scalar;
use crate::scalar::ScalarView;
use crate::validity::Validity;
use crate::validity::ValidityView;
use vstd::prelude::*;

verus! {

/// An array of booleans.
#[derive(Clone, Debug)]
pub struct BoolArray {
    bits: Buffer<bool>,
    validity: Validity,
}

impl BoolArray {
    /// The parts are well-formed and explicit validity has one flag for each
    /// element.
    pub closed spec fn wf(&self) -> bool {
        &&& self.bits.wf()
        &&& self.validity.wf()
        &&& self.validity@.fits(self.bits@.len() as int)
    }

    /// The elements, null or not.
    pub closed spec fn spec_values(&self) -> Seq<bool> {
        self.bits@
    }

    pub closed spec fn spec_validity(&self) -> ValidityView {
        self.validity@
    }

    pub open spec fn spec_len(&self) -> nat {
        self.spec_values().len()
    }

    pub open spec fn spec_nullability(&self) -> Nullability {
        if self.spec_validity() is NonNullable {
            Nullability::NonNullable
        } else {
            Nullability::Nullable
        }
    }

    pub open spec fn spec_dtype(&self) -> DType {
        DType::Bool(self.spec_nullability())
    }

    /// What reading element `index` gives.
    pub open spec fn spec_scalar_at(&self, index: int) -> Result<ScalarView, VortexError> {
        if !(0 <= index < self.spec_len()) {
            Err(VortexError::OutOfRange)
        } else if !self.spec_validity().is_valid(index) {
            Ok(bool_scalar(None, self.spec_nullability()))
        } else {
            Ok(bool_scalar(Some(self.spec_values()[index]), self.spec_nullability()))
        }
    }

    /// The non-nullable array of `values`.
    pub fn from_vec(values: Vec<bool>) -> (array: BoolArray)
        ensures
            array.wf(),
            array.spec_values() == values@,
            array.spec_validity() == ValidityView::NonNullable,
    {
        BoolArray { bits: Buffer::from_vec(values), validity: Validity::NonNullable }
    }

    /// The array of the flags in `bits` with `validity`, or `InvalidValidity`
    /// where explicit validity has not one flag for each element.
    pub fn try_new(bits: Buffer<bool>, validity: Validity) -> (r: VortexResult<BoolArray>)
        requires
            bits.wf(),
            validity.wf(),
        ensures
            match r {
                Ok(array) => {
                    &&& array.wf()
                    &&& array.spec_values() == bits@
                    &&& array.spec_validity() == validity@
                    &&& validity@.fits(bits@.len() as int)
                },
                Err(e) => e == VortexError::InvalidValidity && !validity@.fits(bits@.len() as int),
            },
    {
        match validity.to_metadata(bits.len()) {
            Ok(_) => Ok(BoolArray { bits, validity }),
            Err(e) => Err(e),
        }
    }

    /// The number of elements.
    pub fn len(&self) -> (len: usize)
        requires
            self.wf(),
        ensures
            len == self.spec_len(),
    {
        self.bits.len()
    }

    /// The logical type: booleans, nullable unless the validity is
    /// `NonNullable`.
    pub fn dtype(&self) -> (dtype: DType)
        ensures
            dtype == self.spec_dtype(),
    {
        DType::Bool(self.validity.nullability())
    }

    /// The elements.
    pub fn boolean_buffer(&self) -> (bits: &Buffer<bool>)
        requires
            self.wf(),
        ensures
            bits.wf(),
            bits@ == self.spec_values(),
    {
        &self.bits
    }

    /// The elements, given away.
    pub fn into_boolean_buffer(self) -> (bits: Buffer<bool>)
        requires
            self.wf(),
        ensures
            bits.wf(),
            bits@ == self.spec_values(),
    {
        self.bits
    }

    /// The validity.
    pub fn validity(&self) -> (validity: Validity)
        requires
            self.wf(),
        ensures
            validity.wf(),
            validity@ == self.spec_validity(),
    {
        self.validity.share()
    }

    /// A second handle on the same array; no element is copied.
    pub fn share(&self) -> (array: BoolArray)
        requires
            self.wf(),
        ensures
            array.wf(),
            array.spec_values() == self.spec_values(),
            array.spec_validity() == self.spec_validity(),
    {
        BoolArray { bits: self.bits.share(), validity: self.validity.share() }
    }

    /// Whether element `index` is present. Where the validity has explicit
    /// flags the element must be one of the array.
    pub fn is_valid(&self, index: usize) -> (valid: bool)
        requires
            self.wf(),
            self.spec_validity() is Array ==> index < self.spec_len(),
        ensures
            valid == self.spec_validity().is_valid(index as int),
    {
        self.validity.is_valid(index)
    }

    /// Element `index` as a scalar: the boolean null where the element is
    /// null, `OutOfRange` where there is no such element.
    pub fn scalar_at(&self, index: usize) -> (r: VortexResult<Scalar>)
        requires
            self.wf(),
        ensures
            match r {
                Ok(scalar) => self.spec_scalar_at(index as int) == Ok::<ScalarView, VortexError>(
                    scalar@,
                ),
                Err(e) => self.spec_scalar_at(index as int) == Err::<ScalarView, VortexError>(e),
            },
    {
        if index >= self.bits.len() {
            return Err(VortexError::OutOfRange);
        }
        let value = if self.is_valid(index) {
            Some(self.bits.get(index))
        } else {
            None
        };
        Ok(Scalar::bool(value, self.validity.nullability()))
    }

    /// The elements from `start` up to `stop`, sharing the storage of this
    /// array, or `OutOfRange` unless `start <= stop <= len`.
    pub fn slice(&self, start: usize, stop: usize) -> (r: VortexResult<BoolArray>)
        requires
            self.wf(),
        ensures
            match r {
                Ok(array) => {
                    &&& start <= stop <= self.spec_len()
                    &&& array.wf()
                    &&& array.spec_values() == self.spec_values().subrange(
                        start as int,
                        stop as int,
                    )
                    &&& array.spec_validity() == self.spec_validity().slice(
                        start as int,
                        stop as int,
                    )
                    &&& array.spec_dtype() == self.spec_dtype()
                    &&& array.spec_len() == stop - start
                    &&& forall|k: int|
                        0 <= k < stop - start ==> array.spec_scalar_at(k) == self.spec_scalar_at(
                            start + k,
                        )
                },
                Err(e) => e == VortexError::OutOfRange && !(start <= stop <= self.spec_len()),
            },
    {
        let bits = match self.bits.slice(start, stop) {
            Ok(bits) => bits,
            Err(e) => {
                return Err(e);
            },
        };
        match self.validity.slice(start, stop) {
            Ok(validity) => Ok(BoolArray { bits, validity }),
            Err(e) => Err(e),
        }
    }
}

impl ArrayCompute for BoolArray {
    open spec fn well_formed(&self) -> bool {
        self.wf()
    }

    open spec fn len_of(&self) -> nat {
        self.spec_len()
    }

    open spec fn dtype_of(&self) -> DType {
        self.spec_dtype()
    }

    open spec fn reads_as(&self, index: int) -> Result<ScalarView, VortexError> {
        self.spec_scalar_at(index)
    }

    open spec fn publishes(&self) -> Capabilities {
        Capabilities { scalar_at: true, slice: true, as_arrow: false }
    }

    open spec fn canonical_error(&self) -> Option<VortexError> {
        None
    }

    fn length(&self) -> (len: usize) {
        self.len()
    }

    fn capabilities(&self) -> (capabilities: Capabilities) {
        Capabilities { scalar_at: true, slice: true, as_arrow: false }
    }

    fn scalar_at_fn(&self, index: usize) -> (r: VortexResult<Scalar>) {
        self.scalar_at(index)
    }

    fn slice_fn(&self, start: usize, stop: usize) -> (r: VortexResult<Array>) {
        match self.slice(start, stop) {
            Ok(sliced) => Ok(Array::Bool(sliced)),
            Err(e) => Err(e),
        }
    }

    /// The encoding has no Arrow view array: whatever the array holds,
    /// `MismatchedTypes` comes back.
    fn as_arrow_fn(&self) -> (r: VortexResult<crate::arrow::ArrowViewArray>)
        ensures
            r matches Err(e) && e == VortexError::MismatchedTypes,
    {
        Err(VortexError::MismatchedTypes)
    }

    /// The array itself: the encoding is canonical.
    fn flatten_fn(&self) -> (r: VortexResult<Canonical>) {
        Ok(Canonical::Bool(self.share()))
    }
}

} // verus!
