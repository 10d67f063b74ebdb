//! Conversion of binary-view arrays to Arrow and back, and with it their
//! canonical form.
use crate::array::primitive::PrimitiveArray;
use crate::array::varbinview::view::lemma_le_u32_bytes;
use crate::array::varbinview::view::view_at;
use crate::array::varbinview::view::view_is_inlined;
use crate::array::varbinview::view::view_is_strict;
use crate::array::varbinview::view::view_offset;
use crate::array::varbinview::view::view_size;
use crate::array::varbinview::view::view_value;
use crate::array::varbinview::VarBinViewArray;
use crate::array::Array;
use crate::array::Canonical;
use crate::arrow::arrow_array_buffers;
use crate::arrow::buffers_of;
use crate::arrow::slices_of;
use crate::arrow::arrow_array_is_utf8;
use crate::arrow::arrow_array_nulls;
use crate::arrow::arrow_array_views;
use crate::arrow::arrow_binary_view_array;
use crate::arrow::arrow_buffers;
use crate::arrow::arrow_is_utf8;
use crate::arrow::arrow_nulls;
use crate::arrow::arrow_string_view_array;
use crate::arrow::arrow_views;
use crate::arrow::buffer_contents;
use crate::arrow::ends_fit_usize;
use crate::arrow::layout_is_strict;
use crate::arrow::ArrowViewArray;
use crate::dtype::DType;
use crate::dtype::Nullability;
use crate::error::VortexError;
use crate::error::VortexResult;
use crate::validity::Validity;
use crate::validity::ValidityView;
use vstd::prelude::*;
use vstd::utf8::valid_utf8;

verus! {

/// Whether the parts of an Arrow view array can be taken over as they are:
/// the views are a whole number of 16-byte views, a null mask has one flag for
/// each view, and the length of every data buffer fits 32 bits.
pub open spec fn arrow_parts_fit(array: ArrowViewArray) -> bool {
    &&& arrow_views(array).len() % 16 == 0
    &&& arrow_nulls(array) matches Some(mask) ==> mask.len() == arrow_views(array).len() / 16
    &&& forall|i: int|
        0 <= i < arrow_buffers(array).len() ==> (#[trigger] arrow_buffers(array)[i]).len()
            <= u32::MAX
}

/// The array of type `dtype` with the views, data buffers and null mask of
/// `array`.
pub(crate) fn from_arrow_parts(array: &ArrowViewArray, dtype: DType) -> (r: VarBinViewArray)
    requires
        dtype.is_varbin(),
        arrow_parts_fit(*array),
        !dtype.is_nullable() ==> arrow_nulls(*array) is None,
    ensures
        r.wf(),
        r.spec_dtype() == dtype,
        r.spec_len() == arrow_views(*array).len() / 16,
        r.spec_views() == arrow_views(*array),
        r.spec_buffers() == arrow_buffers(*array),
        r.spec_validity() == ValidityView::from_null_mask(arrow_nulls(*array), dtype.is_nullable()),
{
    let views = Array::Primitive(PrimitiveArray::from_vec(arrow_array_views(array)));
    let buffers = buffers_of(arrow_array_buffers(array));
    let mut data: Vec<Array> = Vec::new();
    let mut i: usize = 0;
    while i < buffers.len()
        invariant
            i <= buffers@.len(),
            data@.len() == i,
            forall|j: int| 0 <= j < buffers@.len() ==> (#[trigger] buffers@[j]).wf(),
            forall|j: int| 0 <= j < i ==> (#[trigger] data@[j]).wf(),
            forall|j: int| 0 <= j < i ==> (#[trigger] data@[j]).spec_dtype() == DType::spec_bytes(),
            forall|j: int| 0 <= j < i ==> (#[trigger] data@[j]).spec_bytes() == buffers@[j]@,
        decreases buffers@.len() - i,
    {
        data.push(Array::Primitive(PrimitiveArray::from_buffer(buffers[i].share())));
        i += 1;
    }
    let validity = Validity::from_null_mask(arrow_array_nulls(array), dtype.is_nullable());
    proof {
        assert(crate::array::varbinview::array_contents(data@) =~= arrow_buffers(*array)) by {
            assert forall|j: int| 0 <= j < data@.len() implies data@[j].spec_bytes()
                == arrow_buffers(*array)[j] by {
                assert(buffer_contents(buffers@)[j] == buffers@[j]@);
            }
        }
        assert(crate::array::varbinview::all_fit_u32(data@)) by {
            assert forall|j: int| 0 <= j < data@.len() implies (#[trigger] data@[j]).spec_len()
                <= u32::MAX by {
                assert(buffer_contents(buffers@)[j] == buffers@[j]@);
                assert(arrow_buffers(*array)[j].len() <= u32::MAX);
            }
        }
    }
    VarBinViewArray::try_new(views, data, dtype, validity).unwrap()
}

/// The array with the views, data buffers and null mask of `array`: of type
/// `Utf8` for an Arrow array of strings, `Binary` for one of bytes, nullable
/// as `nullable` says.
pub(crate) fn from_arrow(array: &ArrowViewArray, nullable: bool) -> (r: VarBinViewArray)
    requires
        arrow_parts_fit(*array),
        !nullable ==> arrow_nulls(*array) is None,
    ensures
        r.wf(),
        r.spec_dtype() == (if arrow_is_utf8(*array) {
            DType::Utf8(Nullability::from_bool(nullable))
        } else {
            DType::Binary(Nullability::from_bool(nullable))
        }),
        r.spec_len() == arrow_views(*array).len() / 16,
        r.spec_views() == arrow_views(*array),
        r.spec_buffers() == arrow_buffers(*array),
        r.spec_validity() == ValidityView::from_null_mask(arrow_nulls(*array), nullable),
{
    let nullability = Nullability::from_bool(nullable);
    let dtype = if arrow_array_is_utf8(array) {
        DType::Utf8(nullability)
    } else {
        DType::Binary(nullability)
    };
    from_arrow_parts(array, dtype)
}

impl VarBinViewArray {
    /// The null mask that the validity amounts to: none where every element
    /// is present, else one flag for each element, `true` for present.
    pub open spec fn spec_null_mask(&self) -> Option<Seq<bool>> {
        self.spec_validity().null_mask(self.spec_len() as int)
    }

    /// Whether Arrow takes the array as it is: its layout is strict, and where
    /// the type is `Utf8`, what each view reads as is valid UTF-8.
    pub open spec fn arrow_compatible(&self) -> bool {
        &&& layout_is_strict(self.spec_views(), self.spec_buffers(), self.spec_null_mask())
        &&& self.spec_dtype() is Utf8 ==> forall|i: int|
            0 <= i < self.spec_views().len() / 16 ==> valid_utf8(
                view_value(#[trigger] view_at(self.spec_views(), i), self.spec_buffers())->Ok_0,
            )
    }

    /// The validity that comes back from a conversion to Arrow: the same
    /// elements are present, and explicit flags of which none is set have
    /// become `AllInvalid`.
    pub open spec fn spec_canonical_validity(&self) -> ValidityView {
        ValidityView::from_null_mask(self.spec_null_mask(), self.spec_dtype().is_nullable())
    }

    /// Whether `canonical` is the canonical form of this array: the same type,
    /// length, views and data buffers, with the validity that comes back from
    /// Arrow.
    pub open spec fn canonical_form_is(&self, canonical: VarBinViewArray) -> bool {
        &&& canonical.wf()
        &&& canonical.spec_dtype() == self.spec_dtype()
        &&& canonical.spec_len() == self.spec_len()
        &&& canonical.spec_views() == self.spec_views()
        &&& canonical.spec_buffers() == self.spec_buffers()
        &&& canonical.spec_validity() == self.spec_canonical_validity()
    }

    /// An Arrow array with the parts of this array reads as this array does,
    /// element for element.
    pub proof fn lemma_arrow_reads_alike(&self, arrow: ArrowViewArray)
        requires
            self.wf(),
            arrow_views(arrow) == self.spec_views(),
            arrow_buffers(arrow) == self.spec_buffers(),
            arrow_nulls(arrow) == self.spec_null_mask(),
        ensures
            arrow_views(arrow).len() == 16 * self.spec_len(),
            forall|i: int|
                0 <= i < self.spec_len() ==> crate::compute::arrow_reads_as(
                    arrow,
                    self.spec_dtype(),
                    i,
                ) == self.spec_scalar_at(i),
    {
        self.lemma_wf();
        crate::validity::lemma_null_mask_of_validity(
            self.spec_validity(),
            self.spec_len() as int,
        );
    }

    /// Whether the end of the range of every reference view fits a `usize`.
    /// Where it does not for some view, that view points outside its buffer.
    fn ends_fit(&self) -> (fit: bool)
        requires
            self.wf(),
        ensures
            fit == ends_fit_usize(self.spec_views()),
            !fit ==> !layout_is_strict(
                self.spec_views(),
                self.spec_buffers(),
                self.spec_null_mask(),
            ),
    {
        proof {
            self.lemma_wf();
        }
        if usize::MAX as u64 >= 0x1_ffff_fffe {
            assert forall|i: int|
                0 <= i < self.spec_views().len() / 16 implies view_offset(
                #[trigger] view_at(self.spec_views(), i),
            ) + view_size(view_at(self.spec_views(), i)) <= usize::MAX by {
                let view = view_at(self.spec_views(), i);
                lemma_le_u32_bytes(view.subrange(0, 4));
                lemma_le_u32_bytes(view.subrange(12, 16));
            }
            return true;
        }
        let mut i: usize = 0;
        while i < self.len()
            invariant
                self.wf(),
                i <= self.spec_len(),
                self.spec_views().len() == 16 * self.spec_len(),
                forall|j: int|
                    0 <= j < i && !view_is_inlined(#[trigger] view_at(self.spec_views(), j))
                        ==> view_offset(view_at(self.spec_views(), j)) + view_size(
                        view_at(self.spec_views(), j),
                    ) <= usize::MAX,
            decreases self.spec_len() - i,
        {
            match self.view_at(i) {
                Ok(view) => {
                    if !view.is_inlined() {
                        let end = view.as_view().offset() as u64 + view.len() as u64;
                        if end > usize::MAX as u64 {
                            proof {
                                self.lemma_wf();
                                let bytes = view_at(self.spec_views(), i as int);
                                let index = crate::array::varbinview::view::view_buffer_index(
                                    bytes,
                                );
                                if 0 <= index < self.spec_buffers().len() {
                                    assert(self.spec_metadata().spec_buffer_lens()[index]
                                        == self.spec_buffers()[index].len());
                                }
                                assert(!view_is_strict(bytes, self.spec_buffers()));
                            }
                            return false;
                        }
                    }
                },
                Err(_) => {},
            }
            i += 1;
        }
        true
    }

    /// The Arrow array with the views, data buffers and null mask of this
    /// array: one of strings for type `Utf8`, one of bytes for `Binary`.
    ///
    /// Arrow validates what it is handed. `InvalidArgument` comes back where
    /// it refuses the array, which is exactly where the array is not
    /// `arrow_compatible`.
    pub fn as_arrow(&self) -> (r: VortexResult<ArrowViewArray>)
        requires
            self.wf(),
        ensures
            match r {
                Ok(array) => {
                    &&& self.arrow_compatible()
                    &&& arrow_is_utf8(array) == (self.spec_dtype() is Utf8)
                    &&& arrow_views(array) == self.spec_views()
                    &&& arrow_buffers(array) == self.spec_buffers()
                    &&& arrow_nulls(array) == self.spec_null_mask()
                },
                Err(e) => e == VortexError::InvalidArgument && !self.arrow_compatible(),
            },
    {
        varbinview_as_arrow(self)
    }

    /// The canonical form of this array: the array that comes back from a
    /// conversion to Arrow.
    ///
    /// It has the type, the length, the views and the data buffers of this
    /// array, and every element reads as it does in this array.
    /// `InvalidArgument` comes back where Arrow refuses the array.
    pub fn into_canonical(self) -> (r: VortexResult<Canonical>)
        requires
            self.wf(),
        ensures
            match r {
                Ok(canonical) => {
                    &&& self.arrow_compatible()
                    &&& canonical matches Canonical::VarBinView(array)
                    &&& self.canonical_form_is(array)
                    &&& array.arrow_compatible()
                    &&& forall|i: int| array.spec_scalar_at(i) == self.spec_scalar_at(i)
                },
                Err(e) => e == VortexError::InvalidArgument && !self.arrow_compatible(),
            },
    {
        self.flatten()
    }

    /// The canonical form of this array; see `into_canonical`.
    pub fn flatten(&self) -> (r: VortexResult<Canonical>)
        requires
            self.wf(),
        ensures
            match r {
                Ok(canonical) => {
                    &&& self.arrow_compatible()
                    &&& canonical matches Canonical::VarBinView(array)
                    &&& self.canonical_form_is(array)
                    &&& array.arrow_compatible()
                    &&& forall|i: int| array.spec_scalar_at(i) == self.spec_scalar_at(i)
                },
                Err(e) => e == VortexError::InvalidArgument && !self.arrow_compatible(),
            },
    {
        let nullable = self.dtype().is_nullable();
        proof {
            self.lemma_wf();
        }
        let arrow_self = match varbinview_as_arrow(self) {
            Ok(array) => array,
            Err(e) => {
                return Err(e);
            },
        };
        proof {
            assert forall|i: int| 0 <= i < arrow_buffers(arrow_self).len() implies (
            #[trigger] arrow_buffers(arrow_self)[i]).len() <= u32::MAX by {
                assert(self.spec_metadata().spec_buffer_lens()[i] == self.spec_buffers()[i].len());
            }
            assert(arrow_parts_fit(arrow_self));
        }
        let array = from_arrow(&arrow_self, nullable);
        proof {
            lemma_canonical_reads_alike(*self, array);
            lemma_canonical_is_compatible(*self, array);
        }
        Ok(Canonical::VarBinView(array))
    }
}

/// Every element of the canonical form of an array reads as it does in the
/// array.
pub proof fn lemma_canonical_reads_alike(array: VarBinViewArray, canonical: VarBinViewArray)
    requires
        array.wf(),
        array.canonical_form_is(canonical),
    ensures
        forall|i: int| canonical.spec_scalar_at(i) == array.spec_scalar_at(i),
{
    array.lemma_wf();
    assert forall|i: int| canonical.spec_scalar_at(i) == array.spec_scalar_at(i) by {
        if 0 <= i < array.spec_len() {
            assert(canonical.spec_is_valid(i) == array.spec_is_valid(i));
        }
    }
}

/// Arrow takes the canonical form of an array that it takes.
pub proof fn lemma_canonical_is_compatible(array: VarBinViewArray, canonical: VarBinViewArray)
    requires
        array.wf(),
        array.arrow_compatible(),
        array.canonical_form_is(canonical),
    ensures
        canonical.arrow_compatible(),
        canonical.spec_null_mask() == array.spec_null_mask(),
{
    array.lemma_wf();
    crate::validity::lemma_null_mask_of_validity(array.spec_validity(), array.spec_len() as int);
    crate::validity::lemma_null_mask_round_trip(
        array.spec_null_mask(),
        array.spec_dtype().is_nullable(),
        array.spec_len() as int,
    );
    assert(canonical.spec_null_mask() == array.spec_null_mask());
}

/// The canonical form of an array is its own canonical form: Arrow takes it
/// as it is, and bringing it into canonical form once more changes neither
/// its storage nor what any of its elements reads as.
pub proof fn lemma_canonical_is_idempotent(
    array: VarBinViewArray,
    once: VarBinViewArray,
    twice: VarBinViewArray,
)
    requires
        array.wf(),
        array.arrow_compatible(),
        array.canonical_form_is(once),
        once.canonical_form_is(twice),
    ensures
        once.arrow_compatible(),
        twice.same_content_as(once),
        forall|i: int| twice.spec_scalar_at(i) == once.spec_scalar_at(i),
{
    lemma_canonical_is_compatible(array, once);
    array.lemma_wf();
    crate::validity::lemma_null_mask_round_trip(
        array.spec_null_mask(),
        array.spec_dtype().is_nullable(),
        array.spec_len() as int,
    );
    lemma_canonical_reads_alike(once, twice);
}

/// The Arrow array with the views, data buffers and null mask of
/// `var_bin_view`; see `VarBinViewArray::as_arrow`.
pub fn varbinview_as_arrow(var_bin_view: &VarBinViewArray) -> (r: VortexResult<ArrowViewArray>)
    requires
        var_bin_view.wf(),
    ensures
        match r {
            Ok(array) => {
                &&& var_bin_view.arrow_compatible()
                &&& arrow_is_utf8(array) == (var_bin_view.spec_dtype() is Utf8)
                &&& arrow_views(array) == var_bin_view.spec_views()
                &&& arrow_buffers(array) == var_bin_view.spec_buffers()
                &&& arrow_nulls(array) == var_bin_view.spec_null_mask()
            },
            Err(e) => e == VortexError::InvalidArgument && !var_bin_view.arrow_compatible(),
        },
{
    proof {
        var_bin_view.lemma_wf();
    }
    if !var_bin_view.ends_fit() {
        return Err(VortexError::InvalidArgument);
    }
    let views = var_bin_view.views_buffer();
    let nulls = var_bin_view.logical_validity().to_null_buffer();
    let data = slices_of(var_bin_view.data_buffers());
    let made = match var_bin_view.dtype() {
        DType::Binary(_) => arrow_binary_view_array(views.as_slice(), &data, nulls),
        DType::Utf8(_) => arrow_string_view_array(views.as_slice(), &data, nulls),
        _ => {
            return Err(VortexError::MismatchedTypes);
        },
    };
    match made {
        Ok(array) => Ok(array),
        Err(_) => Err(VortexError::InvalidArgument),
    }
}

} // verus!
