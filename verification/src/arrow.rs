//! The bridge to the Arrow columnar format.
//!
//! Arrow's view arrays lay their elements out exactly as this crate does: one
//! 16-byte view for each element, a list of data buffers, and an optional null
//! mask. What Arrow's builder and arrays do is taken on trust here, each
//! function with a contract that says what its source shows, over plain bytes
//! and flags; everything else in the crate, the conversion between those and
//! the buffers of this crate included, is proved.
use crate::array::varbinview::view::view_at;
use crate::array::varbinview::view::view_is_inlined;
use crate::array::varbinview::view::view_is_strict;
use crate::array::varbinview::view::view_offset;
use crate::array::varbinview::view::view_size;
use crate::array::varbinview::view::view_value;
use crate::array::varbinview::view::zeros;
use crate::buffer::Buffer;
use crate::error::VortexError;
use arrow_array::cast::AsArray;
use arrow_array::Array;
use arrow_schema::ArrowError;
use arrow_schema::DataType;
use std::sync::Arc;
use vstd::prelude::*;
use vstd::utf8::valid_utf8;

verus! {

/// Arrow's error type; nothing is known of a value of it.
#[verifier::external_type_specification]
#[verifier::external_body]
pub struct ExArrowError(ArrowError);

/// Arrow's builder of binary view arrays.
#[verifier::external_body]
pub struct ViewBuilder {
    inner: arrow_array::builder::BinaryViewBuilder,
}

/// An Arrow view array, of strings or of bytes.
#[verifier::external_body]
pub struct ArrowViewArray {
    inner: arrow_array::ArrayRef,
}

/// The values that were appended to a builder since it was made, in order,
/// `None` for a null.
pub uninterp spec fn builder_values(builder: ViewBuilder) -> Seq<Option<Seq<u8>>>;

/// Whether an Arrow view array is one of strings rather than of bytes.
pub uninterp spec fn arrow_is_utf8(array: ArrowViewArray) -> bool;

/// The bytes of the views of an Arrow view array, 16 for each view, each view
/// in little-endian order.
pub uninterp spec fn arrow_views(array: ArrowViewArray) -> Seq<u8>;

/// The contents of the data buffers of an Arrow view array.
pub uninterp spec fn arrow_buffers(array: ArrowViewArray) -> Seq<Seq<u8>>;

/// The null mask of an Arrow view array, `true` for present; none where the
/// array has no mask.
pub uninterp spec fn arrow_nulls(array: ArrowViewArray) -> Option<Seq<bool>>;

/// The number of bytes in all the values of `values` together.
pub open spec fn total_len(values: Seq<Option<Seq<u8>>>) -> nat
    decreases values.len(),
{
    if values.len() == 0 {
        0
    } else {
        total_len(values.drop_last()) + (match values.last() {
            Some(bytes) => bytes.len(),
            None => 0,
        })
    }
}

/// The contents of a list of buffers.
pub open spec fn buffer_contents(buffers: Seq<Buffer<u8>>) -> Seq<Seq<u8>> {
    Seq::new(buffers.len(), |i: int| buffers[i]@)
}

/// The contents of a list of byte vectors.
pub open spec fn vec_contents(buffers: Seq<Vec<u8>>) -> Seq<Seq<u8>> {
    Seq::new(buffers.len(), |i: int| buffers[i]@)
}

/// The contents of a list of byte slices.
pub open spec fn slice_contents(buffers: Seq<&[u8]>) -> Seq<Seq<u8>> {
    Seq::new(buffers.len(), |i: int| buffers[i]@)
}

/// The flags of an optional mask.
pub open spec fn mask_view(mask: Option<Vec<bool>>) -> Option<Seq<bool>> {
    match mask {
        Some(bits) => Some(bits@),
        None => None,
    }
}

/// Whether `views`, `buffers` and `nulls` pass the validation that Arrow
/// applies to the parts of a view array: every view, null or not, keeps every
/// rule of the layout, and a null mask has one flag for each view.
pub open spec fn layout_is_strict(
    views: Seq<u8>,
    buffers: Seq<Seq<u8>>,
    nulls: Option<Seq<bool>>,
) -> bool {
    &&& forall|i: int|
        0 <= i < views.len() / 16 ==> view_is_strict(#[trigger] view_at(views, i), buffers)
    &&& nulls matches Some(mask) ==> mask.len() == views.len() / 16
}

/// Whether the end of the range of every reference view of `views` fits a
/// `usize`, the type in which Arrow computes it.
pub open spec fn ends_fit_usize(views: Seq<u8>) -> bool {
    forall|i: int|
        0 <= i < views.len() / 16 && !view_is_inlined(#[trigger] view_at(views, i)) ==> view_offset(
            view_at(views, i),
        ) + view_size(view_at(views, i)) <= usize::MAX
}

/// Whether every value of `values` is valid UTF-8; the empty string that a
/// null is held as always is.
pub open spec fn all_utf8(values: Seq<Option<Seq<u8>>>) -> bool {
    forall|i: int|
        0 <= i < values.len() ==> valid_utf8(
            match #[trigger] values[i] {
                Some(bytes) => bytes,
                None => Seq::empty(),
            },
        )
}

/// Whether the parts of a view array hold exactly `values`: one strict view
/// for each value, which reads as that value; a mask exactly when a value is
/// null, with the flag of each null cleared and its view all zeros; and no
/// data buffer too long for 32 bits.
pub open spec fn holds_values(
    views: Seq<u8>,
    buffers: Seq<Seq<u8>>,
    nulls: Option<Seq<bool>>,
    values: Seq<Option<Seq<u8>>>,
) -> bool {
    &&& views.len() == 16 * values.len()
    &&& layout_is_strict(views, buffers, nulls)
    &&& forall|b: int| 0 <= b < buffers.len() ==> (#[trigger] buffers[b]).len() <= u32::MAX
    &&& nulls is None <==> (forall|i: int| 0 <= i < values.len() ==> values[i] is Some)
    &&& forall|i: int|
        0 <= i < values.len() ==> match #[trigger] values[i] {
            Some(bytes) => {
                &&& view_value(view_at(views, i), buffers) == Ok::<Seq<u8>, VortexError>(bytes)
                &&& nulls matches Some(mask) ==> mask[i]
            },
            None => {
                &&& view_at(views, i) == zeros(16)
                &&& nulls matches Some(mask) && !mask[i]
            },
        }
}

/// A builder with nothing appended.
///
/// Wraps `GenericByteViewBuilder::new`.
#[verifier::external_body]
pub(crate) fn builder_new() -> (builder: ViewBuilder)
    ensures
        builder_values(builder) == Seq::<Option<Seq<u8>>>::empty(),
{
    ViewBuilder { inner: arrow_array::builder::BinaryViewBuilder::new() }
}

/// Appends `value`.
///
/// Wraps `GenericByteViewBuilder::append_value`, which panics where a value or
/// a block of values does not fit 32 bits; the bound on the bytes appended in
/// all keeps every block below that.
#[verifier::external_body]
pub(crate) fn builder_append_value(builder: &mut ViewBuilder, value: &[u8])
    requires
        total_len(builder_values(*old(builder))) + value@.len() < u32::MAX,
    ensures
        builder_values(*final(builder)) == builder_values(*old(builder)).push(Some(value@)),
{
    builder.inner.append_value(value)
}

/// Appends a null.
///
/// Wraps `GenericByteViewBuilder::append_null`.
#[verifier::external_body]
pub(crate) fn builder_append_null(builder: &mut ViewBuilder)
    ensures
        builder_values(*final(builder)) == builder_values(*old(builder)).push(None),
{
    builder.inner.append_null()
}

/// The array of the values that were appended.
///
/// Wraps `GenericByteViewBuilder::finish`. Which values share a data buffer is
/// left open, as Arrow decides it by the capacity that it was allocated; what
/// is claimed is that the array is one of bytes whose parts hold the appended
/// values: each value of at most 12 bytes inline, each longer one behind a
/// reference, each null as a zero view.
#[verifier::external_body]
pub(crate) fn builder_finish(builder: ViewBuilder) -> (array: ArrowViewArray)
    requires
        total_len(builder_values(builder)) < u32::MAX,
    ensures
        !arrow_is_utf8(array),
        holds_values(
            arrow_views(array),
            arrow_buffers(array),
            arrow_nulls(array),
            builder_values(builder),
        ),
{
    let mut builder = builder;
    ArrowViewArray { inner: Arc::new(builder.inner.finish()) }
}

/// Whether the array is one of strings.
///
/// Wraps `Array::data_type`, compared with `DataType::Utf8View`.
#[verifier::external_body]
pub(crate) fn arrow_array_is_utf8(array: &ArrowViewArray) -> (utf8: bool)
    ensures
        utf8 == arrow_is_utf8(*array),
{
    match array.inner.data_type() {
        DataType::Utf8View => true,
        _ => false,
    }
}

/// The bytes of the views, each view in little-endian order.
///
/// Wraps `GenericByteViewArray::views`.
#[verifier::external_body]
pub(crate) fn arrow_array_views(array: &ArrowViewArray) -> (views: Vec<u8>)
    ensures
        views@ == arrow_views(*array),
{
    let words = match array.inner.data_type() {
        DataType::Utf8View => array.inner.as_string_view().views(),
        _ => array.inner.as_binary_view().views(),
    };
    words.iter().flat_map(|word| word.to_le_bytes()).collect()
}

/// The contents of the data buffers, each copied out.
///
/// Wraps `GenericByteViewArray::data_buffers`.
#[verifier::external_body]
pub(crate) fn arrow_array_buffers(array: &ArrowViewArray) -> (buffers: Vec<Vec<u8>>)
    ensures
        vec_contents(buffers@) == arrow_buffers(*array),
{
    let buffers = match array.inner.data_type() {
        DataType::Utf8View => array.inner.as_string_view().data_buffers(),
        _ => array.inner.as_binary_view().data_buffers(),
    };
    buffers.iter().map(|buffer| buffer.as_slice().to_vec()).collect()
}

/// The null mask, `true` for present.
///
/// Wraps `Array::nulls`.
#[verifier::external_body]
pub(crate) fn arrow_array_nulls(array: &ArrowViewArray) -> (nulls: Option<Vec<bool>>)
    ensures
        mask_view(nulls) == arrow_nulls(*array),
{
    array.inner.nulls().map(|mask| mask.iter().collect())
}

/// The Arrow array of bytes with these parts.
///
/// Wraps `BinaryViewArray::try_new`, which validates the parts and takes them
/// as they are: it succeeds exactly when the layout is strict.
#[verifier::external_body]
pub(crate) fn arrow_binary_view_array(
    views: &[u8],
    buffers: &Vec<&[u8]>,
    nulls: Option<Vec<bool>>,
) -> (r: Result<ArrowViewArray, ArrowError>)
    requires
        views@.len() % 16 == 0,
        ends_fit_usize(views@),
    ensures
        r is Ok <==> layout_is_strict(views@, slice_contents(buffers@), mask_view(nulls)),
        r matches Ok(array) ==> {
            &&& !arrow_is_utf8(array)
            &&& arrow_views(array) == views@
            &&& arrow_buffers(array) == slice_contents(buffers@)
            &&& arrow_nulls(array) == mask_view(nulls)
        },
{
    let word = |w: &[u8]| u128::from_le_bytes(std::array::from_fn(|i| w[i]));
    let words: Vec<u128> = views.chunks_exact(16).map(word).collect();
    let data = buffers.iter().map(|b| arrow_buffer::Buffer::from_slice_ref(b)).collect();
    let nulls = nulls.map(arrow_buffer::NullBuffer::from);
    match arrow_array::BinaryViewArray::try_new(words.into(), data, nulls) {
        Ok(array) => Ok(ArrowViewArray { inner: Arc::new(array) }),
        Err(e) => Err(e),
    }
}

/// The Arrow array of strings with these parts.
///
/// Wraps `StringViewArray::try_new`, which validates the parts and takes them
/// as they are: it succeeds exactly when the layout is strict and what each
/// view, null or not, reads as is valid UTF-8, which is what
/// `std::str::from_utf8` tests.
#[verifier::external_body]
pub(crate) fn arrow_string_view_array(
    views: &[u8],
    buffers: &Vec<&[u8]>,
    nulls: Option<Vec<bool>>,
) -> (r: Result<ArrowViewArray, ArrowError>)
    requires
        views@.len() % 16 == 0,
        ends_fit_usize(views@),
    ensures
        r is Ok <==> {
            &&& layout_is_strict(views@, slice_contents(buffers@), mask_view(nulls))
            &&& forall|i: int|
                0 <= i < views@.len() / 16 ==> valid_utf8(
                    view_value(#[trigger] view_at(views@, i), slice_contents(buffers@))->Ok_0,
                )
        },
        r matches Ok(array) ==> {
            &&& arrow_is_utf8(array)
            &&& arrow_views(array) == views@
            &&& arrow_buffers(array) == slice_contents(buffers@)
            &&& arrow_nulls(array) == mask_view(nulls)
        },
{
    let word = |w: &[u8]| u128::from_le_bytes(std::array::from_fn(|i| w[i]));
    let words: Vec<u128> = views.chunks_exact(16).map(word).collect();
    let data = buffers.iter().map(|b| arrow_buffer::Buffer::from_slice_ref(b)).collect();
    let nulls = nulls.map(arrow_buffer::NullBuffer::from);
    match arrow_array::StringViewArray::try_new(words.into(), data, nulls) {
        Ok(array) => Ok(ArrowViewArray { inner: Arc::new(array) }),
        Err(e) => Err(e),
    }
}

/// A buffer for each of `vectors`, which owns what the vector held.
pub(crate) fn buffers_of(vectors: Vec<Vec<u8>>) -> (buffers: Vec<Buffer<u8>>)
    ensures
        buffer_contents(buffers@) == vec_contents(vectors@),
        forall|i: int| 0 <= i < buffers@.len() ==> (#[trigger] buffers@[i]).wf(),
{
    let mut vectors = vectors;
    let ghost all = vectors@;
    let mut reversed: Vec<Buffer<u8>> = Vec::new();
    while vectors.len() > 0
        invariant
            vectors@.len() + reversed@.len() == all.len(),
            vectors@ == all.take(vectors@.len() as int),
            forall|j: int| 0 <= j < reversed@.len() ==> (#[trigger] reversed@[j]).wf(),
            forall|j: int|
                0 <= j < reversed@.len() ==> (#[trigger] reversed@[j])@ == all[all.len() - 1 - j]@,
        decreases vectors@.len(),
    {
        match vectors.pop() {
            Some(vector) => reversed.push(Buffer::from_vec(vector)),
            None => {},
        }
    }
    let mut buffers: Vec<Buffer<u8>> = Vec::new();
    while reversed.len() > 0
        invariant
            reversed@.len() + buffers@.len() == all.len(),
            forall|j: int| 0 <= j < reversed@.len() ==> (#[trigger] reversed@[j]).wf(),
            forall|j: int|
                0 <= j < reversed@.len() ==> (#[trigger] reversed@[j])@ == all[all.len() - 1 - j]@,
            forall|j: int| 0 <= j < buffers@.len() ==> (#[trigger] buffers@[j]).wf(),
            forall|j: int| 0 <= j < buffers@.len() ==> (#[trigger] buffers@[j])@ == all[j]@,
        decreases reversed@.len(),
    {
        match reversed.pop() {
            Some(buffer) => buffers.push(buffer),
            None => {},
        }
    }
    assert(buffer_contents(buffers@) =~= vec_contents(all));
    buffers
}

/// The contents of `buffers`, each borrowed.
pub(crate) fn slices_of(buffers: &Vec<Buffer<u8>>) -> (slices: Vec<&[u8]>)
    requires
        forall|i: int| 0 <= i < buffers@.len() ==> (#[trigger] buffers@[i]).wf(),
    ensures
        slice_contents(slices@) == buffer_contents(buffers@),
{
    let mut slices: Vec<&[u8]> = Vec::new();
    let mut i: usize = 0;
    while i < buffers.len()
        invariant
            i <= buffers@.len(),
            slices@.len() == i,
            forall|j: int| 0 <= j < buffers@.len() ==> (#[trigger] buffers@[j]).wf(),
            forall|j: int| 0 <= j < i ==> (#[trigger] slices@[j])@ == buffers@[j]@,
        decreases buffers@.len() - i,
    {
        slices.push(buffers[i].as_slice());
        i += 1;
    }
    assert(slice_contents(slices@) =~= buffer_contents(buffers@));
    slices
}

impl ArrowViewArray {
    /// Whether the array is one of strings rather than of bytes.
    pub fn is_utf8(&self) -> (utf8: bool)
        ensures
            utf8 == arrow_is_utf8(*self),
    {
        arrow_array_is_utf8(self)
    }

    /// The bytes of the views, 16 for each view, each view in little-endian
    /// order.
    pub fn views(&self) -> (views: Vec<u8>)
        ensures
            views@ == arrow_views(*self),
    {
        arrow_array_views(self)
    }

    /// The contents of the data buffers, each copied into a buffer of its own.
    pub fn data_buffers(&self) -> (buffers: Vec<Buffer<u8>>)
        ensures
            buffer_contents(buffers@) == arrow_buffers(*self),
            forall|i: int| 0 <= i < buffers@.len() ==> (#[trigger] buffers@[i]).wf(),
    {
        buffers_of(arrow_array_buffers(self))
    }

    /// The null mask, `true` for present; nothing where the array has no mask.
    pub fn nulls(&self) -> (nulls: Option<Vec<bool>>)
        ensures
            mask_view(nulls) == arrow_nulls(*self),
    {
        arrow_array_nulls(self)
    }
}

} // verus!
