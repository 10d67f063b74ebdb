//! The binary-view encoding of variable-length strings and bytes.
//!
//! An array of `n` elements is held as `16 * n` bytes of views, a list of data
//! buffers that reference views point into, and a validity. Slicing narrows the
//! views and the validity and shares the data buffers, which is sound because a
//! reference view records an absolute offset.
//!
//! Whether a reference view points inside its buffer is checked when the
//! element is read, not when the array is made: an array may hold a view that
//! cannot be read, and reading it reports `OutOfRange`.
pub mod builder;
pub mod canonical;
pub mod compute;
pub mod view;

use crate::array::primitive::PrimitiveArray;
use crate::array::varbinview::view::view_at;
use crate::array::varbinview::view::view_value;
use crate::array::varbinview::view::BinaryView;
use crate::array::varbinview::view::VIEW_SIZE_BYTES;
use crate::array::visitor::ArrayVisitor;
use crate::array::visitor::Shown;
use crate::array::Array;
use crate::arrow::buffer_contents;
use crate::buffer::Buffer;
use crate::dtype::DType;
use crate::error::VortexError;
use crate::error::VortexResult;
use crate::scalar::null_scalar;
use crate::scalar::varbin_scalar_view;
use crate::scalar::ScalarView;
use crate::validity::LogicalValidity;
use crate::validity::Validity;
use crate::validity::ValidityMetadata;
use crate::validity::ValidityView;
use vstd::prelude::*;

verus! {

/// What a binary-view array records beside its children: the kind of its
/// validity and the byte length of each data buffer.
#[derive(Clone, Debug)]
pub struct VarBinViewMetadata {
    validity: ValidityMetadata,
    buffer_lens: Vec<u32>,
}

impl VarBinViewMetadata {
    pub closed spec fn spec_validity(&self) -> ValidityMetadata {
        self.validity
    }

    pub closed spec fn spec_buffer_lens(&self) -> Seq<u32> {
        self.buffer_lens@
    }

    /// The metadata of an array with validity of kind `validity` and data
    /// buffers of the lengths in `buffer_lens`.
    pub fn new(validity: ValidityMetadata, buffer_lens: Vec<u32>) -> (metadata: VarBinViewMetadata)
        ensures
            metadata.spec_validity() == validity,
            metadata.spec_buffer_lens() == buffer_lens@,
    {
        VarBinViewMetadata { validity, buffer_lens }
    }

    /// The kind of the validity.
    #[verifier::when_used_as_spec(spec_validity)]
    pub fn validity(&self) -> (validity: ValidityMetadata)
        ensures
            validity == self.spec_validity(),
    {
        self.validity
    }

    /// The byte length of each data buffer.
    pub fn buffer_lens(&self) -> (lens: &Vec<u32>)
        ensures
            lens@ == self.spec_buffer_lens(),
    {
        &self.buffer_lens
    }
}

/// An array of strings or of bytes in the binary-view encoding.
#[derive(Clone, Debug)]
pub struct VarBinViewArray {
    dtype: DType,
    len: usize,
    metadata: VarBinViewMetadata,
    views: Buffer<u8>,
    buffers: Vec<Buffer<u8>>,
    validity_flags: Option<Buffer<bool>>,
}

/// Whether every array of `arrays` is one of raw bytes.
pub open spec fn all_bytes(arrays: Seq<Array>) -> bool {
    forall|i: int| 0 <= i < arrays.len() ==> (#[trigger] arrays[i]).spec_dtype().is_bytes()
}

/// Whether the length of every array of `arrays` fits 32 bits.
pub open spec fn all_fit_u32(arrays: Seq<Array>) -> bool {
    forall|i: int| 0 <= i < arrays.len() ==> (#[trigger] arrays[i]).spec_len() <= u32::MAX
}

/// The bytes of each array of `arrays`.
pub open spec fn array_contents(arrays: Seq<Array>) -> Seq<Seq<u8>> {
    Seq::new(arrays.len(), |i: int| arrays[i].spec_bytes())
}

/// The error that making a binary-view array of these parts reports, if any.
///
/// The types are checked first, then the validity against the nullability of
/// the type, then the lengths of the data buffers, then the length of explicit
/// validity, and last the length of the views.
pub open spec fn construction_error(
    views: Array,
    buffers: Seq<Array>,
    dtype: DType,
    validity: ValidityView,
) -> Option<VortexError> {
    if !views.spec_dtype().is_bytes() || !all_bytes(buffers) || !dtype.is_varbin() {
        Some(VortexError::MismatchedTypes)
    } else if dtype.is_nullable() == (validity is NonNullable) {
        Some(VortexError::InvalidValidity)
    } else if !all_fit_u32(buffers) {
        Some(VortexError::NumericOverflow)
    } else if !validity.fits(views.spec_len() as int / 16) {
        Some(VortexError::InvalidValidity)
    } else if views.spec_len() % 16 != 0 {
        Some(VortexError::InvalidArgument)
    } else {
        None
    }
}

impl VarBinViewArray {
    /// The invariant of the encoding: the type is `Utf8` or `Binary`; there
    /// are 16 bytes of views for each element; the metadata records the length
    /// of each data buffer and the kind of the validity; the type is nullable
    /// exactly when the validity is not `NonNullable`; and explicit validity
    /// has one flag for each element.
    pub closed spec fn wf(&self) -> bool {
        &&& self.dtype.is_varbin()
        &&& self.views.wf()
        &&& self.views@.len() == 16 * self.len
        &&& forall|i: int| 0 <= i < self.buffers@.len() ==> (#[trigger] self.buffers@[i]).wf()
        &&& self.metadata.buffer_lens@.len() == self.buffers@.len()
        &&& forall|i: int|
            0 <= i < self.buffers@.len() ==> (#[trigger] self.metadata.buffer_lens@[i])
                == self.buffers@[i]@.len()
        &&& self.metadata.validity == ValidityMetadata::Array <==> self.validity_flags is Some
        &&& self.validity_flags matches Some(flags) ==> flags.wf() && flags@.len() == self.len
        &&& self.dtype.is_nullable() <==> self.metadata.validity != ValidityMetadata::NonNullable
    }

    pub closed spec fn spec_dtype(&self) -> DType {
        self.dtype
    }

    pub closed spec fn spec_len(&self) -> nat {
        self.len as nat
    }

    /// The bytes of the views, 16 for each element.
    pub closed spec fn spec_views(&self) -> Seq<u8> {
        self.views@
    }

    /// The contents of the data buffers.
    pub closed spec fn spec_buffers(&self) -> Seq<Seq<u8>> {
        buffer_contents(self.buffers@)
    }

    pub closed spec fn spec_validity(&self) -> ValidityView {
        match self.metadata.validity {
            ValidityMetadata::NonNullable => ValidityView::NonNullable,
            ValidityMetadata::AllValid => ValidityView::AllValid,
            ValidityMetadata::AllInvalid => ValidityView::AllInvalid,
            ValidityMetadata::Array => ValidityView::Array(self.validity_flags->0@),
        }
    }

    pub closed spec fn spec_metadata(&self) -> VarBinViewMetadata {
        self.metadata
    }

    /// Whether two arrays have the same type and the same storage, byte for
    /// byte.
    pub open spec fn same_content_as(&self, other: VarBinViewArray) -> bool {
        &&& self.spec_dtype() == other.spec_dtype()
        &&& self.spec_len() == other.spec_len()
        &&& self.spec_views() == other.spec_views()
        &&& self.spec_buffers() == other.spec_buffers()
        &&& self.spec_validity() == other.spec_validity()
    }

    /// The buffer that holds the views.
    pub closed spec fn spec_views_buffer(&self) -> Buffer<u8> {
        self.views
    }

    /// The data buffers themselves, not only what they hold.
    pub closed spec fn spec_data_buffers(&self) -> Seq<Buffer<u8>> {
        self.buffers@
    }

    /// Whether each data buffer of `other` is a window onto the allocation
    /// of the corresponding data buffer of this array, at the same place and
    /// of the same length: the data buffers are handed on, not copied.
    pub open spec fn shares_data_buffers(&self, other: VarBinViewArray) -> bool {
        &&& other.spec_data_buffers().len() == self.spec_data_buffers().len()
        &&& forall|i: int|
            0 <= i < self.spec_data_buffers().len() ==> self.spec_data_buffers()[i].same_window(
                #[trigger] other.spec_data_buffers()[i],
            )
    }

    /// Whether two arrays have the same type and the same storage: what
    /// they hold is the same byte for byte, and the views and the data
    /// buffers of the one are windows onto the allocations of the other.
    pub open spec fn same_as(&self, other: VarBinViewArray) -> bool {
        &&& self.same_content_as(other)
        &&& self.spec_views_buffer().same_window(other.spec_views_buffer())
        &&& self.shares_data_buffers(other)
    }

    /// Whether `sliced` is this array narrowed to the elements from `start`
    /// up to `stop`: the same type, the views and the validity of that range,
    /// and the same data buffers.
    pub open spec fn slice_content_is(
        &self,
        sliced: VarBinViewArray,
        start: int,
        stop: int,
    ) -> bool {
        &&& sliced.wf()
        &&& sliced.spec_dtype() == self.spec_dtype()
        &&& sliced.spec_len() == stop - start
        &&& sliced.spec_views() == self.spec_views().subrange(16 * start, 16 * stop)
        &&& sliced.spec_buffers() == self.spec_buffers()
        &&& sliced.spec_validity() == self.spec_validity().slice(start, stop)
    }

    /// Whether `sliced` is this array narrowed to the elements from `start`
    /// up to `stop` without a copy: it holds what the slice holds, its views
    /// are a window onto the allocation of the views of this array, `16 *
    /// start` bytes further on, and its data buffers are those of this array.
    pub open spec fn sliced_is(&self, sliced: VarBinViewArray, start: int, stop: int) -> bool {
        &&& self.slice_content_is(sliced, start, stop)
        &&& sliced.spec_views_buffer().allocation() == self.spec_views_buffer().allocation()
        &&& sliced.spec_views_buffer().start() == self.spec_views_buffer().start() + 16 * start
        &&& self.shares_data_buffers(sliced)
    }

    /// Whether element `index` is present.
    pub open spec fn spec_is_valid(&self, index: int) -> bool {
        self.spec_validity().is_valid(index)
    }

    /// The view of element `index`, or `OutOfRange` where there is no such
    /// element.
    pub open spec fn spec_view_at(&self, index: int) -> Result<Seq<u8>, VortexError> {
        if 0 <= index < self.spec_len() {
            Ok(view_at(self.spec_views(), index))
        } else {
            Err(VortexError::OutOfRange)
        }
    }

    /// The bytes that the view of element `index` describes, or `OutOfRange`
    /// where there is no such element or its view cannot be read.
    pub open spec fn spec_bytes_at(&self, index: int) -> Result<Seq<u8>, VortexError> {
        if 0 <= index < self.spec_len() {
            view_value(view_at(self.spec_views(), index), self.spec_buffers())
        } else {
            Err(VortexError::OutOfRange)
        }
    }

    /// What reading element `index` gives: the null of the array's type for a
    /// null, without a look at its view; else the bytes that its view
    /// describes, as a scalar of the array's type.
    pub open spec fn spec_scalar_at(&self, index: int) -> Result<ScalarView, VortexError> {
        if !(0 <= index < self.spec_len()) {
            Err(VortexError::OutOfRange)
        } else if !self.spec_is_valid(index) {
            Ok(null_scalar(self.spec_dtype()))
        } else {
            match self.spec_bytes_at(index) {
                Ok(bytes) => Ok(varbin_scalar_view(bytes, self.spec_dtype())),
                Err(e) => Err(e),
            }
        }
    }

    /// What the invariant says of the parts of an array.
    pub proof fn lemma_wf(&self)
        requires
            self.wf(),
        ensures
            self.spec_dtype().is_varbin(),
            self.spec_views().len() == 16 * self.spec_len(),
            self.spec_len() <= usize::MAX,
            self.spec_validity().fits(self.spec_len() as int),
            self.spec_dtype().is_nullable() <==> !(self.spec_validity() is NonNullable),
            self.spec_metadata().spec_validity() == ValidityMetadata::of(self.spec_validity()),
            self.spec_metadata().spec_buffer_lens().len() == self.spec_buffers().len(),
            forall|i: int|
                0 <= i < self.spec_buffers().len() ==> (
                #[trigger] self.spec_metadata().spec_buffer_lens()[i])
                    == self.spec_buffers()[i].len(),
            self.spec_views_buffer().wf(),
            self.spec_views_buffer()@ == self.spec_views(),
            self.spec_buffers() == buffer_contents(self.spec_data_buffers()),
            forall|i: int|
                0 <= i < self.spec_data_buffers().len() ==> (
                #[trigger] self.spec_data_buffers()[i]).wf(),
    {
    }

    /// The array with these views, data buffers, type and validity.
    ///
    /// Fails with `MismatchedTypes` unless the views and every data buffer are
    /// arrays of raw bytes and the type is `Utf8` or `Binary`; with
    /// `InvalidValidity` unless the type is nullable exactly when the validity
    /// is not `NonNullable`, and explicit validity has one flag for each
    /// element; with `NumericOverflow` unless the length of every data buffer
    /// fits 32 bits; with `InvalidArgument` unless the views are a whole number
    /// of 16-byte views.
    pub fn try_new(views: Array, buffers: Vec<Array>, dtype: DType, validity: Validity) -> (r:
        VortexResult<VarBinViewArray>)
        requires
            views.wf(),
            forall|i: int| 0 <= i < buffers@.len() ==> (#[trigger] buffers@[i]).wf(),
            validity.wf(),
        ensures
            match r {
                Ok(array) => {
                    &&& construction_error(views, buffers@, dtype, validity@) is None
                    &&& array.wf()
                    &&& array.spec_dtype() == dtype
                    &&& array.spec_len() == views.spec_len() / 16
                    &&& array.spec_views() == views.spec_bytes()
                    &&& array.spec_buffers() == array_contents(buffers@)
                    &&& array.spec_validity() == validity@
                },
                Err(e) => construction_error(views, buffers@, dtype, validity@) == Some(e),
            },
    {
        if !views.dtype().is_bytes() {
            return Err(VortexError::MismatchedTypes);
        }
        let mut i: usize = 0;
        while i < buffers.len()
            invariant
                i <= buffers@.len(),
                forall|j: int| 0 <= j < buffers@.len() ==> (#[trigger] buffers@[j]).wf(),
                forall|j: int| 0 <= j < i ==> (#[trigger] buffers@[j]).spec_dtype().is_bytes(),
            decreases buffers@.len() - i,
        {
            if !buffers[i].dtype().is_bytes() {
                assert(!all_bytes(buffers@)) by {
                    assert(!buffers@[i as int].spec_dtype().is_bytes());
                }
                return Err(VortexError::MismatchedTypes);
            }
            i += 1;
        }
        assert(all_bytes(buffers@));
        if !dtype.is_varbin() {
            return Err(VortexError::MismatchedTypes);
        }
        let non_nullable = match &validity {
            Validity::NonNullable => true,
            _ => false,
        };
        if dtype.is_nullable() == non_nullable {
            return Err(VortexError::InvalidValidity);
        }
        let num_views = views.len() / VIEW_SIZE_BYTES;
        let mut buffer_lens: Vec<u32> = Vec::new();
        let mut data: Vec<Buffer<u8>> = Vec::new();
        let mut i: usize = 0;
        while i < buffers.len()
            invariant
                i <= buffers@.len(),
                views.spec_dtype().is_bytes(),
                dtype.is_varbin(),
                dtype.is_nullable() != (validity@ is NonNullable),
                all_bytes(buffers@),
                forall|j: int| 0 <= j < buffers@.len() ==> (#[trigger] buffers@[j]).wf(),
                forall|j: int| 0 <= j < i ==> (#[trigger] buffers@[j]).spec_len() <= u32::MAX,
                buffer_lens@.len() == i,
                data@.len() == i,
                forall|j: int| 0 <= j < i ==> (#[trigger] data@[j]).wf(),
                forall|j: int| 0 <= j < i ==> (#[trigger] data@[j])@ == buffers@[j].spec_bytes(),
                forall|j: int| 0 <= j < i ==> (#[trigger] buffer_lens@[j]) == data@[j]@.len(),
            decreases buffers@.len() - i,
        {
            let buffer = &buffers[i];
            let len = buffer.len();
            if len > u32::MAX as usize {
                assert(!all_fit_u32(buffers@)) by {
                    assert(!(buffers@[i as int].spec_len() <= u32::MAX));
                }
                return Err(VortexError::NumericOverflow);
            }
            match buffer {
                Array::Primitive(bytes) => {
                    buffer_lens.push(len as u32);
                    data.push(bytes.buffer().share());
                },
                _ => {
                    // Only an array of bytes has the type of raw bytes.
                    assert(buffers@[i as int].spec_dtype().is_bytes());
                    assert(false);
                },
            }
            i += 1;
        }
        assert(all_fit_u32(buffers@));
        let validity_metadata = match validity.to_metadata(num_views) {
            Ok(metadata) => metadata,
            Err(e) => {
                return Err(e);
            },
        };
        if views.len() % VIEW_SIZE_BYTES != 0 {
            return Err(VortexError::InvalidArgument);
        }
        let validity_flags = match validity {
            Validity::Array(flags) => Some(flags),
            _ => None,
        };
        match views {
            Array::Primitive(bytes) => {
                let array = VarBinViewArray {
                    dtype,
                    len: num_views,
                    metadata: VarBinViewMetadata { validity: validity_metadata, buffer_lens },
                    views: bytes.into_buffer(),
                    buffers: data,
                    validity_flags,
                };
                assert(array.spec_buffers() =~= array_contents(buffers@));
                Ok(array)
            },
            _ => {
                // Only an array of bytes has the type of raw bytes.
                assert(false);
                Err(VortexError::MismatchedTypes)
            },
        }
    }

    /// The number of elements.
    pub fn len(&self) -> (len: usize)
        requires
            self.wf(),
        ensures
            len == self.spec_len(),
    {
        self.len
    }

    /// Whether the array has no element.
    pub fn is_empty(&self) -> (empty: bool)
        requires
            self.wf(),
        ensures
            empty == (self.spec_len() == 0),
    {
        self.len == 0
    }

    /// The logical type, `Utf8` or `Binary`.
    pub fn dtype(&self) -> (dtype: DType)
        requires
            self.wf(),
        ensures
            dtype == self.spec_dtype(),
    {
        self.dtype
    }

    /// The metadata.
    pub fn metadata(&self) -> (metadata: &VarBinViewMetadata)
        requires
            self.wf(),
        ensures
            *metadata == self.spec_metadata(),
    {
        &self.metadata
    }

    /// The number of data buffers.
    pub fn buffer_count(&self) -> (count: usize)
        requires
            self.wf(),
        ensures
            count == self.spec_buffers().len(),
    {
        self.metadata.buffer_lens.len()
    }

    /// The bytes of the views.
    pub fn views_buffer(&self) -> (views: &Buffer<u8>)
        requires
            self.wf(),
        ensures
            views.wf(),
            views@ == self.spec_views(),
            *views == self.spec_views_buffer(),
    {
        &self.views
    }

    /// The data buffers.
    pub fn data_buffers(&self) -> (buffers: &Vec<Buffer<u8>>)
        requires
            self.wf(),
        ensures
            buffer_contents(buffers@) == self.spec_buffers(),
            forall|i: int| 0 <= i < buffers@.len() ==> (#[trigger] buffers@[i]).wf(),
            buffers@ == self.spec_data_buffers(),
    {
        &self.buffers
    }

    /// The views, as an array of `16 * len` raw bytes.
    pub fn views(&self) -> (views: Array)
        requires
            self.wf(),
        ensures
            views.wf(),
            views is Primitive,
            views.spec_dtype() == DType::spec_bytes(),
            views.spec_bytes() == self.spec_views(),
    {
        Array::Primitive(PrimitiveArray::from_buffer(self.views.share()))
    }

    /// Data buffer `idx`, as an array of raw bytes.
    pub fn buffer(&self, idx: usize) -> (buffer: Array)
        requires
            self.wf(),
            idx < self.spec_buffers().len(),
        ensures
            buffer.wf(),
            buffer is Primitive,
            buffer.spec_dtype() == DType::spec_bytes(),
            buffer.spec_bytes() == self.spec_buffers()[idx as int],
    {
        Array::Primitive(PrimitiveArray::from_buffer(self.buffers[idx].share()))
    }

    /// The validity.
    pub fn validity(&self) -> (validity: Validity)
        requires
            self.wf(),
        ensures
            validity.wf(),
            validity@ == self.spec_validity(),
    {
        self.metadata.validity.to_validity(self.validity_flags.as_ref())
    }

    /// Whether element `index` is present. Where the validity has explicit
    /// flags the element must be one of the array.
    pub fn is_valid(&self, index: usize) -> (valid: bool)
        requires
            self.wf(),
            self.spec_validity() is Array ==> index < self.spec_len(),
        ensures
            valid == self.spec_is_valid(index as int),
    {
        proof {
            self.lemma_wf();
        }
        self.validity().is_valid(index)
    }

    /// The validity with the distinction between non-nullable and all-valid
    /// dropped.
    pub fn logical_validity(&self) -> (logical: LogicalValidity)
        requires
            self.wf(),
        ensures
            logical.wf(),
            logical.spec_len() == self.spec_len(),
            logical.null_mask() == self.spec_validity().null_mask(self.spec_len() as int),
            forall|i: int|
                0 <= i < self.spec_len() ==> logical.is_valid(i) == self.spec_is_valid(i),
    {
        proof {
            self.lemma_wf();
        }
        self.validity().to_logical(self.len)
    }

    /// A second handle on the same array; neither a view nor a data buffer is
    /// copied.
    pub fn share(&self) -> (array: VarBinViewArray)
        requires
            self.wf(),
        ensures
            array.wf(),
            array.same_as(*self),
    {
        let mut buffer_lens: Vec<u32> = Vec::new();
        let mut buffers: Vec<Buffer<u8>> = Vec::new();
        let mut i: usize = 0;
        while i < self.buffers.len()
            invariant
                self.wf(),
                i <= self.buffers@.len(),
                buffer_lens@.len() == i,
                buffers@.len() == i,
                forall|j: int| 0 <= j < i ==> (#[trigger] buffers@[j]).wf(),
                forall|j: int| 0 <= j < i ==> (#[trigger] buffers@[j])@ == self.buffers@[j]@,
                forall|j: int|
                    0 <= j < i ==> (#[trigger] buffers@[j]).same_window(self.buffers@[j]),
                forall|j: int| 0 <= j < i ==> (#[trigger] buffer_lens@[j]) == buffers@[j]@.len(),
            decreases self.buffers@.len() - i,
        {
            buffer_lens.push(self.metadata.buffer_lens[i]);
            buffers.push(self.buffers[i].share());
            i += 1;
        }
        let array = VarBinViewArray {
            dtype: self.dtype,
            len: self.len,
            metadata: VarBinViewMetadata { validity: self.metadata.validity, buffer_lens },
            views: self.views.share(),
            buffers,
            validity_flags: match &self.validity_flags {
                Some(flags) => Some(flags.share()),
                None => None,
            },
        };
        assert(array.spec_buffers() =~= self.spec_buffers());
        array
    }

    /// The view of element `index`, or `OutOfRange` where there is no such
    /// element.
    pub fn view_at(&self, index: usize) -> (r: VortexResult<BinaryView>)
        requires
            self.wf(),
        ensures
            match r {
                Ok(view) => self.spec_view_at(index as int) == Ok::<Seq<u8>, VortexError>(view@),
                Err(e) => self.spec_view_at(index as int) == Err::<Seq<u8>, VortexError>(e),
            },
    {
        if index >= self.len {
            return Err(VortexError::OutOfRange);
        }
        let total = self.views.len();
        let start = index * VIEW_SIZE_BYTES;
        let mut le_bytes = [0u8; 16];
        let mut j: usize = 0;
        while j < 16
            invariant
                self.wf(),
                j <= 16,
                start == 16 * index,
                start + 16 <= self.views@.len(),
                le_bytes@.len() == 16,
                forall|k: int| 0 <= k < j ==> le_bytes@[k] == self.views@[start + k],
            decreases 16 - j,
        {
            le_bytes[j] = self.views.get(start + j);
            j += 1;
        }
        assert(le_bytes@ =~= view_at(self.views@, index as int));
        Ok(BinaryView::from_le_bytes(le_bytes))
    }

    /// The bytes of element `index`, copied out, whether the element is null
    /// or not: the inline bytes of an inlined view, or the range of the data
    /// buffer that a reference view points at. `OutOfRange` where there is no
    /// such element, or its view names a buffer that is not there or a range
    /// that does not lie in its buffer.
    pub fn bytes_at(&self, index: usize) -> (r: VortexResult<Vec<u8>>)
        requires
            self.wf(),
        ensures
            match r {
                Ok(bytes) => self.spec_bytes_at(index as int) == Ok::<Seq<u8>, VortexError>(bytes@),
                Err(e) => self.spec_bytes_at(index as int) == Err::<Seq<u8>, VortexError>(e),
            },
    {
        let view = match self.view_at(index) {
            Ok(view) => view,
            Err(e) => {
                return Err(e);
            },
        };
        if !view.is_inlined() {
            let view_ref = view.as_view();
            let buffer_index = view_ref.buffer_index() as usize;
            if buffer_index >= self.buffers.len() {
                return Err(VortexError::OutOfRange);
            }
            let data = &self.buffers[buffer_index];
            let offset = view_ref.offset() as u64;
            let end = offset + view.len() as u64;
            if end > data.len() as u64 {
                return Err(VortexError::OutOfRange);
            }
            match data.slice(offset as usize, end as usize) {
                Ok(range) => Ok(range.to_vec()),
                Err(e) => Err(e),
            }
        } else {
            Ok(vstd::slice::slice_to_vec(view.as_inlined().value()))
        }
    }

    /// Element `index` as a scalar that owns its bytes: the null of the
    /// array's type where the element is null, without a look at its view;
    /// `OutOfRange` where there is no such element or its view cannot be read.
    pub fn scalar_at(&self, index: usize) -> (r: VortexResult<crate::scalar::Scalar>)
        requires
            self.wf(),
        ensures
            match r {
                Ok(scalar) => self.spec_scalar_at(index as int) == Ok::<ScalarView, VortexError>(
                    scalar@,
                ),
                Err(e) => self.spec_scalar_at(index as int) == Err::<ScalarView, VortexError>(e),
            },
    {
        if index >= self.len {
            return Err(VortexError::OutOfRange);
        }
        if self.is_valid(index) {
            match self.bytes_at(index) {
                Ok(bytes) => Ok(crate::scalar::varbin_scalar(bytes, self.dtype)),
                Err(e) => Err(e),
            }
        } else {
            Ok(crate::scalar::Scalar::null(self.dtype))
        }
    }

    /// The elements from `start` up to `stop`, or `OutOfRange` unless
    /// `start <= stop <= len`.
    ///
    /// The views and the validity are narrowed to the range; the data buffers
    /// are shared as they are, so the cost does not depend on how much they
    /// hold. Element `k` of the result reads as element `start + k` of this
    /// array does.
    pub fn slice(&self, start: usize, stop: usize) -> (r: VortexResult<VarBinViewArray>)
        requires
            self.wf(),
        ensures
            match r {
                Ok(sliced) => {
                    &&& start <= stop <= self.spec_len()
                    &&& self.sliced_is(sliced, start as int, stop as int)
                    &&& forall|k: int|
                        0 <= k < stop - start ==> sliced.spec_scalar_at(k) == self.spec_scalar_at(
                            start + k,
                        )
                },
                Err(e) => e == VortexError::OutOfRange && !(start <= stop <= self.spec_len()),
            },
    {
        if start > stop || stop > self.len {
            return Err(VortexError::OutOfRange);
        }
        let total = self.views.len();
        let views = match self.views.slice(start * VIEW_SIZE_BYTES, stop * VIEW_SIZE_BYTES) {
            Ok(views) => views,
            Err(e) => {
                return Err(e);
            },
        };
        let validity_flags = match &self.validity_flags {
            Some(flags) => match flags.slice(start, stop) {
                Ok(sliced) => Some(sliced),
                Err(e) => {
                    return Err(e);
                },
            },
            None => None,
        };
        let shared = self.share();
        let sliced = VarBinViewArray {
            dtype: self.dtype,
            len: stop - start,
            metadata: shared.metadata,
            views,
            buffers: shared.buffers,
            validity_flags,
        };
        proof {
            assert(sliced.spec_buffers() =~= self.spec_buffers());
            assert forall|k: int| 0 <= k < stop - start implies sliced.spec_scalar_at(k)
                == self.spec_scalar_at(start + k) by {
                self.lemma_slice_reads_alike(sliced, start as int, stop as int, k);
            }
        }
        Ok(sliced)
    }

    /// Reading element `k` of a slice gives what reading element `start + k`
    /// of the array gives, be it a value, a null or an error.
    pub proof fn lemma_slice_reads_alike(
        &self,
        sliced: VarBinViewArray,
        start: int,
        stop: int,
        k: int,
    )
        requires
            self.wf(),
            0 <= start <= stop <= self.spec_len(),
            self.slice_content_is(sliced, start, stop),
            0 <= k < stop - start,
        ensures
            sliced.spec_scalar_at(k) == self.spec_scalar_at(start + k),
    {
        self.lemma_wf();
        lemma_slice_view_at(self.spec_views(), start, stop, k);
    }

    /// Where the views, the data buffers and the type are as they must be, a
    /// validity that contradicts the nullability of the type is refused with
    /// `InvalidValidity`: a nullable type with `NonNullable` validity, and a
    /// non-nullable type with any other.
    pub proof fn lemma_validity_must_match_nullability(
        views: Array,
        buffers: Seq<Array>,
        dtype: DType,
        validity: ValidityView,
    )
        requires
            views.spec_dtype().is_bytes(),
            all_bytes(buffers),
            dtype.is_varbin(),
            dtype.is_nullable() == (validity is NonNullable),
        ensures
            construction_error(views, buffers, dtype, validity) == Some(
                VortexError::InvalidValidity,
            ),
    {
    }

    /// The encoding of the array.
    pub fn encoding(&self) -> (encoding: crate::encoding::EncodingRef)
        ensures
            encoding.spec_code() == crate::encoding::VAR_BIN_VIEW,
    {
        crate::encoding::var_bin_view_encoding()
    }

    /// The children of the array as a node: the views, then each data
    /// buffer, then the flags of explicit validity where there are any.
    ///
    /// The length of the array and its metadata give the length of every
    /// child: 16 bytes of views for each element, for each data buffer the
    /// length that the metadata records, and one flag for each element.
    pub fn children(&self) -> (children: Vec<Array>)
        requires
            self.wf(),
        ensures
            self.children_are(children@),
    {
        proof {
            self.lemma_wf();
        }
        let mut children: Vec<Array> = Vec::new();
        children.push(self.views());
        let mut i: usize = 0;
        while i < self.buffers.len()
            invariant
                self.wf(),
                i <= self.buffers@.len(),
                children@.len() == 1 + i,
                forall|j: int| 0 <= j < children@.len() ==> (#[trigger] children@[j]).wf(),
                children@[0].spec_dtype() == DType::spec_bytes(),
                children@[0].spec_bytes() == self.spec_views(),
                forall|j: int|
                    0 <= j < i ==> {
                        &&& (#[trigger] children@[1 + j]).spec_dtype() == DType::spec_bytes()
                        &&& children@[1 + j].spec_bytes() == self.spec_buffers()[j]
                        &&& children@[1 + j].spec_len()
                            == self.spec_metadata().spec_buffer_lens()[j]
                    },
            decreases self.buffers@.len() - i,
        {
            proof {
                self.lemma_wf();
            }
            children.push(self.buffer(i));
            i += 1;
        }
        match self.validity().into_array() {
            Some(flags) => children.push(flags),
            None => {},
        }
        children
    }

    /// The names of the views and of the data buffers among the children of
    /// the array: `views`, then `bytes_0`, `bytes_1` and so on.
    pub fn child_names(&self) -> (names: Vec<String>)
        requires
            self.wf(),
        ensures
            names@.len() == 1 + self.spec_buffers().len(),
            names@[0]@ == "views"@,
            forall|i: int|
                0 <= i < self.spec_buffers().len() ==> (#[trigger] names@[1 + i])@ == bytes_name(
                    i as usize,
                ),
    {
        let mut names: Vec<String> = Vec::new();
        names.push("views".to_string());
        let mut i: usize = 0;
        while i < self.buffers.len()
            invariant
                self.wf(),
                i <= self.buffers@.len(),
                names@.len() == 1 + i,
                names@[0]@ == "views"@,
                forall|j: int| 0 <= j < i ==> (#[trigger] names@[1 + j])@ == bytes_name(j as usize),
            decreases self.buffers@.len() - i,
        {
            names.push(bytes_child_name(i));
            i += 1;
        }
        names
    }

    /// The number of children of the array as a node: the views, each data
    /// buffer, and the flags of explicit validity where there are any.
    pub open spec fn spec_child_count(&self) -> int {
        1 + self.spec_buffers().len() + (if self.spec_validity() is Array {
            1int
        } else {
            0int
        })
    }

    /// Whether `children` are the children of the array as a node: the views
    /// as `16 * len` raw bytes, then each data buffer as raw bytes of the
    /// length that the metadata records, then the flags of explicit validity
    /// where there are any, as a non-nullable array of one boolean for each
    /// element.
    pub open spec fn children_are(&self, children: Seq<Array>) -> bool {
        &&& children.len() == self.spec_child_count()
        &&& forall|i: int| 0 <= i < children.len() ==> (#[trigger] children[i]).wf()
        &&& children[0].spec_dtype() == DType::spec_bytes()
        &&& children[0].spec_bytes() == self.spec_views()
        &&& children[0].spec_len() == 16 * self.spec_len()
        &&& forall|i: int|
            0 <= i < self.spec_buffers().len() ==> {
                &&& (#[trigger] children[1 + i]).spec_dtype() == DType::spec_bytes()
                &&& children[1 + i].spec_bytes() == self.spec_buffers()[i]
                &&& children[1 + i].spec_len() == self.spec_metadata().spec_buffer_lens()[i]
            }
        &&& self.spec_validity() matches ValidityView::Array(flags) ==> children.last()
            matches Array::Bool(child) && child.spec_values() == flags && child.spec_validity()
            == ValidityView::NonNullable && flags.len() == self.spec_len()
    }

    /// Whether `shown` is what the array shows first, as far as it goes: the
    /// views as `views`, then data buffer `i` as `bytes_i`, then the validity.
    pub open spec fn shows(&self, shown: Seq<Shown>) -> bool {
        &&& shown.len() <= self.spec_buffers().len() + 2
        &&& forall|k: int| 0 <= k < shown.len() ==> self.shows_at(k, #[trigger] shown[k])
    }

    /// The error of `refusal`, where `next` is what the array shows at step
    /// `step` and a visitor refuses it so; nothing otherwise.
    pub open spec fn refused(
        &self,
        refusal: Option<VortexError>,
        step: int,
        next: Shown,
    ) -> Option<VortexError> {
        if self.shows_at(step, next) {
            refusal
        } else {
            None
        }
    }

    /// Whether `shown` is what the array shows at step `step`.
    pub open spec fn shows_at(&self, step: int, shown: Shown) -> bool {
        if step == 0 {
            &&& shown matches Shown::Child(name, child)
            &&& name == "views"@
            &&& child.spec_dtype() == DType::spec_bytes()
            &&& child.spec_bytes() == self.spec_views()
        } else if step <= self.spec_buffers().len() {
            &&& shown matches Shown::Child(name, child)
            &&& name == bytes_name((step - 1) as usize)
            &&& child.spec_dtype() == DType::spec_bytes()
            &&& child.spec_bytes() == self.spec_buffers()[step - 1]
        } else {
            shown == Shown::Validity(self.spec_validity())
        }
    }

    /// Shows the array to `visitor`: the views as `views`, then data buffer
    /// `i` as `bytes_i`, then the validity. Stops at the first error that the
    /// visitor reports, and hands it on.
    ///
    /// A visitor that keeps a record has then seen, after what it had seen
    /// before, all that the array shows, or up to the error the beginning of
    /// it. The walk fails only where the visitor refuses the next thing that
    /// the array shows, and with the error of that refusal.
    pub fn accept<V: ArrayVisitor>(&self, visitor: &mut V) -> (r: VortexResult<()>)
        requires
            self.wf(),
        ensures
            final(visitor).records() == old(visitor).records(),
            old(visitor).records() ==> {
                let before = old(visitor).seen();
                let after = final(visitor).seen();
                &&& before.len() <= after.len()
                &&& after.take(before.len() as int) == before
                &&& self.shows(after.skip(before.len() as int))
                &&& r is Ok <==> after.len() == before.len() + self.spec_buffers().len() + 2
                &&& r matches Err(e) ==> exists|next: Shown|
                    self.refused(
                        old(visitor).refuses(after, next),
                        after.len() - before.len(),
                        next,
                    ) == Some(e)
                &&& forall|seen: Seq<Shown>, next: Shown|
                    #[trigger] final(visitor).refuses(seen, next) == old(visitor).refuses(
                        seen,
                        next,
                    )
            },
    {
        let names = self.child_names();
        let ghost before = visitor.seen();
        let views = self.views();
        let first = visitor.visit_child(names[0].as_str(), &views);
        match first {
            Ok(_) => {},
            Err(e) => {
                proof {
                    if visitor.records() {
                        let next = Shown::Child(names@[0]@, views);
                        assert(visitor.seen().take(before.len() as int) =~= before);
                        assert(visitor.seen().skip(before.len() as int) =~= Seq::<Shown>::empty());
                        assert(self.refused(old(visitor).refuses(before, next), 0, next) == Some(
                            e,
                        ));
                    }
                }
                return Err(e);
            },
        }
        let mut i: usize = 0;
        while i < self.buffers.len()
            invariant
                self.wf(),
                i <= self.buffers@.len(),
                names@.len() == 1 + self.buffers@.len(),
                forall|j: int|
                    0 <= j < self.buffers@.len() ==> (#[trigger] names@[1 + j])@ == bytes_name(
                        j as usize,
                    ),
                visitor.records() == old(visitor).records(),
                before == old(visitor).seen(),
                visitor.records() ==> {
                    &&& visitor.seen().len() == before.len() + 1 + i
                    &&& visitor.seen().take(before.len() as int) == before
                    &&& self.shows(visitor.seen().skip(before.len() as int))
                    &&& forall|seen: Seq<Shown>, next: Shown|
                        #[trigger] visitor.refuses(seen, next) == old(visitor).refuses(seen, next)
                },
            decreases self.buffers@.len() - i,
        {
            let ghost so_far = visitor.seen();
            let buffer = self.buffer(i);
            let visited = visitor.visit_child(names[1 + i].as_str(), &buffer);
            match visited {
                Ok(_) => {
                    proof {
                        if visitor.records() {
                            let shown = visitor.seen().skip(before.len() as int);
                            assert(visitor.seen().take(before.len() as int) =~= before);
                            assert(shown =~= so_far.skip(before.len() as int).push(
                                visitor.seen().last(),
                            ));
                            assert forall|k: int| 0 <= k < shown.len() implies self.shows_at(
                                k,
                                #[trigger] shown[k],
                            ) by {
                                if k < shown.len() - 1 {
                                    assert(shown[k] == so_far.skip(before.len() as int)[k]);
                                }
                            }
                        }
                    }
                },
                Err(e) => {
                    proof {
                        if visitor.records() {
                            let next = Shown::Child(names@[1 + i]@, buffer);
                            assert(self.refused(
                                old(visitor).refuses(so_far, next),
                                1 + i as int,
                                next,
                            ) == Some(e));
                        }
                    }
                    return Err(e);
                },
            }
            i += 1;
        }
        let ghost so_far = visitor.seen();
        let validity = self.validity();
        let r = visitor.visit_validity(&validity);
        proof {
            if visitor.records() {
                let shown = visitor.seen().skip(before.len() as int);
                assert(visitor.seen().take(before.len() as int) =~= before);
                if r is Ok {
                    assert(shown =~= so_far.skip(before.len() as int).push(visitor.seen().last()));
                    assert forall|k: int| 0 <= k < shown.len() implies self.shows_at(
                        k,
                        #[trigger] shown[k],
                    ) by {
                        if k < shown.len() - 1 {
                            assert(shown[k] == so_far.skip(before.len() as int)[k]);
                        }
                    }
                } else {
                    let next = Shown::Validity(validity@);
                    assert(self.refused(
                        old(visitor).refuses(so_far, next),
                        self.spec_buffers().len() as int + 1,
                        next,
                    ) == Some(r->Err_0));
                }
            }
        }
        r
    }

    /// The number of children of the array as a node: the views, each data
    /// buffer, and the flags of explicit validity where there are any, or
    /// `NumericOverflow` where that number does not fit a `usize`.
    pub fn nchildren(&self) -> (r: VortexResult<usize>)
        requires
            self.wf(),
        ensures
            match r {
                Ok(count) => count == self.spec_child_count(),
                Err(e) => e == VortexError::NumericOverflow && self.spec_child_count()
                    > usize::MAX,
            },
    {
        let mut counter = crate::array::visitor::ChildCount::new();
        let walked = self.accept(&mut counter);
        proof {
            let shown = counter.seen();
            assert(shown.skip(0) =~= shown);
            assert(shown.take(shown.len() as int) =~= shown);
            self.lemma_children_shown(shown, shown.len() as int);
        }
        match walked {
            Ok(_) => Ok(counter.children()),
            Err(_) => Err(VortexError::NumericOverflow),
        }
    }

    /// Among the first `count` things that the array shows there are as many
    /// children as things, but for the validity, which is one only where it
    /// has explicit flags.
    proof fn lemma_children_shown(&self, shown: Seq<Shown>, count: int)
        requires
            self.shows(shown),
            0 <= count <= shown.len(),
        ensures
            crate::array::visitor::children_among(shown.take(count)) == (if count
                <= self.spec_buffers().len() + 1 {
                count
            } else if self.spec_validity() is Array {
                count
            } else {
                count - 1
            }),
        decreases count,
    {
        if count > 0 {
            self.lemma_children_shown(shown, count - 1);
            assert(shown.take(count).drop_last() =~= shown.take(count - 1));
            assert(shown.take(count).last() == shown[count - 1]);
            assert(self.shows_at(count - 1, shown[count - 1]));
        }
    }

    /// The views of the array, one after the other.
    pub fn binary_views(&self) -> (r: VortexResult<Views>)
        requires
            self.wf(),
        ensures
            r matches Ok(views) && views.wf() && views.spec_bytes() == self.spec_views()
                && views.spec_len() == self.spec_len() && views.spec_index() == 0,
    {
        Ok(Views { inner: self.views.share(), idx: 0, len: self.len })
    }

    /// The data buffers of the array, one after the other.
    pub fn buffers(&self) -> (buffers: Buffers<'_>)
        requires
            self.wf(),
        ensures
            buffers.wf(),
            buffers.spec_index() == 0,
            buffers.spec_buffers() == self.spec_buffers(),
    {
        Buffers { index: 0, n_buffers: self.buffer_count(), array: self }
    }
}

/// The decimal digit for `value`, which is at most 9.
pub open spec fn digit(value: nat) -> char {
    if value == 0 {
        '0'
    } else if value == 1 {
        '1'
    } else if value == 2 {
        '2'
    } else if value == 3 {
        '3'
    } else if value == 4 {
        '4'
    } else if value == 5 {
        '5'
    } else if value == 6 {
        '6'
    } else if value == 7 {
        '7'
    } else if value == 8 {
        '8'
    } else {
        '9'
    }
}

/// `value` in decimal digits, without leading zeros.
pub open spec fn decimal(value: nat) -> Seq<char>
    decreases value,
{
    if value < 10 {
        seq![digit(value)]
    } else {
        decimal(value / 10).push(digit(value % 10))
    }
}

/// The name of data buffer `index` among the children of an array: `bytes_`
/// and the index in decimal digits.
pub open spec fn bytes_name(index: usize) -> Seq<char> {
    "bytes_"@ + decimal(index as nat)
}

/// The name of data buffer `index` among the children of an array: `bytes_`
/// and the index in decimal digits.
///
/// Wraps `format!`, which writes an unsigned integer in decimal digits
/// without leading zeros.
#[verifier::external_body]
fn bytes_child_name(index: usize) -> (name: String)
    ensures
        name@ == bytes_name(index),
{
    format!("bytes_{index}")
}

/// View `k` of the views from `start` up to `stop` is view `start + k` of all
/// the views.
pub proof fn lemma_slice_view_at(views: Seq<u8>, start: int, stop: int, k: int)
    requires
        0 <= start <= stop,
        16 * stop <= views.len(),
        0 <= k < stop - start,
    ensures
        view_at(views.subrange(16 * start, 16 * stop), k) == view_at(views, start + k),
{
    assert(view_at(views.subrange(16 * start, 16 * stop), k) =~= view_at(views, start + k));
}

/// A walk over the views of an array, from the first to the last.
#[derive(Clone, Debug)]
pub struct Views {
    inner: Buffer<u8>,
    len: usize,
    idx: usize,
}

impl Views {
    /// There are 16 bytes for each view, and the walk has not passed the end.
    pub closed spec fn wf(&self) -> bool {
        &&& self.inner.wf()
        &&& self.inner@.len() == 16 * self.len
        &&& self.idx <= self.len
    }

    /// The bytes of all the views.
    pub closed spec fn spec_bytes(&self) -> Seq<u8> {
        self.inner@
    }

    /// The number of views.
    pub closed spec fn spec_len(&self) -> nat {
        self.len as nat
    }

    /// The number of views that the walk has handed out.
    pub closed spec fn spec_index(&self) -> nat {
        self.idx as nat
    }

    /// The next view, or nothing once every view was handed out.
    pub fn next(&mut self) -> (view: Option<BinaryView>)
        requires
            old(self).wf(),
        ensures
            final(self).wf(),
            final(self).spec_bytes() == old(self).spec_bytes(),
            final(self).spec_len() == old(self).spec_len(),
            match view {
                Some(v) => {
                    &&& old(self).spec_index() < old(self).spec_len()
                    &&& v@ == view_at(old(self).spec_bytes(), old(self).spec_index() as int)
                    &&& final(self).spec_index() == old(self).spec_index() + 1
                },
                None => {
                    &&& old(self).spec_index() == old(self).spec_len()
                    &&& final(self).spec_index() == old(self).spec_index()
                },
            },
    {
        if self.idx >= self.len {
            None
        } else {
            let total = self.inner.len();
            let start = self.idx * VIEW_SIZE_BYTES;
            let mut le_bytes = [0u8; 16];
            let mut j: usize = 0;
            while j < 16
                invariant
                    self.wf(),
                    j <= 16,
                    start == 16 * self.idx,
                    start + 16 <= self.inner@.len(),
                    le_bytes@.len() == 16,
                    forall|k: int| 0 <= k < j ==> le_bytes@[k] == self.inner@[start + k],
                decreases 16 - j,
            {
                le_bytes[j] = self.inner.get(start + j);
                j += 1;
            }
            assert(le_bytes@ =~= view_at(self.inner@, self.idx as int));
            self.idx += 1;
            Some(BinaryView::from_le_bytes(le_bytes))
        }
    }
}

/// A walk over the data buffers of an array, from the first to the last.
#[derive(Debug)]
pub struct Buffers<'a> {
    index: usize,
    n_buffers: usize,
    array: &'a VarBinViewArray,
}

impl<'a> Buffers<'a> {
    /// The array is well-formed, and the walk has not passed its last buffer.
    pub closed spec fn wf(&self) -> bool {
        &&& self.array.wf()
        &&& self.n_buffers == self.array.spec_buffers().len()
        &&& self.index <= self.n_buffers
    }

    /// The contents of all the data buffers.
    pub closed spec fn spec_buffers(&self) -> Seq<Seq<u8>> {
        self.array.spec_buffers()
    }

    /// The number of data buffers that the walk has handed out.
    pub closed spec fn spec_index(&self) -> nat {
        self.index as nat
    }

    /// The next data buffer as an array of raw bytes, or nothing once every
    /// buffer was handed out.
    pub fn next(&mut self) -> (buffer: Option<Array>)
        requires
            old(self).wf(),
        ensures
            final(self).wf(),
            final(self).spec_buffers() == old(self).spec_buffers(),
            match buffer {
                Some(bytes) => {
                    &&& old(self).spec_index() < old(self).spec_buffers().len()
                    &&& bytes.wf()
                    &&& bytes.spec_dtype() == DType::spec_bytes()
                    &&& bytes.spec_bytes() == old(self).spec_buffers()[old(
                        self,
                    ).spec_index() as int]
                    &&& final(self).spec_index() == old(self).spec_index() + 1
                },
                None => {
                    &&& old(self).spec_index() == old(self).spec_buffers().len()
                    &&& final(self).spec_index() == old(self).spec_index()
                },
            },
    {
        if self.index >= self.n_buffers {
            return None;
        }
        let bytes = self.array.buffer(self.index);
        self.index += 1;
        Some(bytes)
    }
}

} // verus!
