//! Building binary-view arrays from values.
//!
//! The values are handed to Arrow's builder one by one, which inlines every
//! value of at most 12 bytes and puts every longer one behind a reference; the
//! finished parts are then taken over as they are.
use crate::array::varbinview::canonical::from_arrow_parts;
use crate::array::varbinview::view::view_at;
use crate::array::varbinview::view::view_is_inlined;
use crate::array::varbinview::view::view_size;
use crate::array::varbinview::view::view_value;
use crate::array::varbinview::VarBinViewArray;
use crate::arrow::all_utf8;
use crate::arrow::arrow_buffers;
use crate::arrow::arrow_is_utf8;
use crate::arrow::arrow_nulls;
use crate::arrow::arrow_views;
use crate::arrow::builder_append_null;
use crate::arrow::builder_append_value;
use crate::arrow::builder_finish;
use crate::arrow::builder_new;
use crate::arrow::builder_values;
use crate::arrow::holds_values;
use crate::arrow::total_len;
use crate::arrow::ArrowViewArray;
use crate::dtype::DType;
use crate::dtype::Nullability;
use crate::error::VortexError;
use crate::error::VortexResult;
use crate::scalar::null_scalar;
use crate::scalar::varbin_scalar_view;
use crate::scalar::ScalarView;
use crate::validity::ValidityView;
use vstd::prelude::*;
use vstd::utf8::valid_utf8;
use vstd::string::StringSliceAdditionalSpecFns;

verus! {

/// The values that optional byte strings stand for.
pub open spec fn byte_values(items: Seq<Option<&[u8]>>) -> Seq<Option<Seq<u8>>> {
    Seq::new(
        items.len(),
        |i: int|
            match items[i] {
                Some(bytes) => Some(bytes@),
                None => None,
            },
    )
}

/// The values that byte strings stand for, none of them null.
pub open spec fn bin_values(items: Seq<&[u8]>) -> Seq<Option<Seq<u8>>> {
    Seq::new(items.len(), |i: int| Some(items[i]@))
}

/// The values that strings stand for, each as its UTF-8 encoding, none of
/// them null.
pub open spec fn str_values(items: Seq<&str>) -> Seq<Option<Seq<u8>>> {
    Seq::new(items.len(), |i: int| Some(items[i].spec_bytes()))
}

/// The values that optional strings stand for, each as its UTF-8 encoding.
pub open spec fn nullable_str_values(items: Seq<Option<&str>>) -> Seq<Option<Seq<u8>>> {
    Seq::new(
        items.len(),
        |i: int|
            match items[i] {
                Some(text) => Some(text.spec_bytes()),
                None => None,
            },
    )
}

/// Whether no value of `values` is a null.
pub open spec fn none_null(values: Seq<Option<Seq<u8>>>) -> bool {
    forall|i: int| 0 <= i < values.len() ==> (#[trigger] values[i]) is Some
}

/// Which of `values` are present, one flag for each.
pub open spec fn presence(values: Seq<Option<Seq<u8>>>) -> Seq<bool> {
    Seq::new(values.len(), |i: int| values[i] is Some)
}

/// The validity of an array built from `values`: `NonNullable` for a type
/// that admits no nulls; else `AllValid` where no value is null, `AllInvalid`
/// where every value is, and one flag for each value otherwise.
pub open spec fn validity_of(values: Seq<Option<Seq<u8>>>, nullable: bool) -> ValidityView {
    ValidityView::from_null_mask(
        if none_null(values) {
            None
        } else {
            Some(presence(values))
        },
        nullable,
    )
}

/// The null mask of parts that hold `values` is none where no value is null,
/// and else says which values are present.
pub proof fn lemma_mask_of_values(
    views: Seq<u8>,
    buffers: Seq<Seq<u8>>,
    nulls: Option<Seq<bool>>,
    values: Seq<Option<Seq<u8>>>,
)
    requires
        holds_values(views, buffers, nulls, values),
    ensures
        nulls == (if none_null(values) {
            None
        } else {
            Some(presence(values))
        }),
{
    match nulls {
        Some(mask) => {
            assert(mask.len() == values.len());
            assert(mask =~= presence(values));
        },
        None => {
            assert(none_null(values));
        },
    }
}

/// The bytes of every string are valid UTF-8.
pub proof fn lemma_strings_are_utf8(items: Seq<&str>)
    ensures
        all_utf8(str_values(items)),
{
    assert forall|i: int| 0 <= i < items.len() implies valid_utf8(
        match #[trigger] str_values(items)[i] {
            Some(bytes) => bytes,
            None => Seq::empty(),
        },
    ) by {
        vstd::utf8::encode_utf8_valid_utf8(items[i]@);
    }
}

/// The bytes of every string are valid UTF-8, and so is the empty string
/// that stands for a null.
pub proof fn lemma_optional_strings_are_utf8(items: Seq<Option<&str>>)
    ensures
        all_utf8(nullable_str_values(items)),
{
    assert forall|i: int| 0 <= i < items.len() implies valid_utf8(
        match #[trigger] nullable_str_values(items)[i] {
            Some(bytes) => bytes,
            None => Seq::empty(),
        },
    ) by {
        match items[i] {
            Some(text) => {
                vstd::utf8::encode_utf8_valid_utf8(text@);
            },
            None => {},
        }
    }
}

/// The error with which building an array of type `dtype` from `values`
/// fails, if it fails: the type is checked first, then the values against
/// the nullability of the type, then the bytes that they hold in all.
pub open spec fn build_error(values: Seq<Option<Seq<u8>>>, dtype: DType) -> Option<VortexError> {
    if !dtype.is_varbin() {
        Some(VortexError::MismatchedTypes)
    } else if !dtype.is_nullable() && !none_null(values) {
        Some(VortexError::InvalidValidity)
    } else if total_len(values) >= u32::MAX {
        Some(VortexError::NumericOverflow)
    } else {
        None
    }
}

/// The scalar of type `dtype` that `value` reads as: the null of that type
/// for a null.
pub open spec fn value_scalar(value: Option<Seq<u8>>, dtype: DType) -> ScalarView {
    match value {
        Some(bytes) => varbin_scalar_view(bytes, dtype),
        None => null_scalar(dtype),
    }
}

/// The first `count` values hold no more bytes than all of them, and the
/// next value adds its length.
pub proof fn lemma_total_len_take(values: Seq<Option<Seq<u8>>>, count: int)
    requires
        0 <= count <= values.len(),
    ensures
        total_len(values.take(count)) <= total_len(values),
        count < values.len() ==> total_len(values.take(count + 1)) == total_len(
            values.take(count),
        ) + (match values[count] {
            Some(bytes) => bytes.len(),
            None => 0,
        }),
    decreases values.len() - count,
{
    if count < values.len() {
        assert(values.take(count + 1).drop_last() =~= values.take(count));
        assert(values.take(count + 1).last() == values[count]);
        lemma_total_len_take(values, count + 1);
    } else {
        assert(values.take(count) =~= values);
    }
}

/// The Arrow array of bytes that holds `values`: each is appended to a fresh
/// builder, a null for each `None`, and the builder is finished.
fn generic_byte_view_builder(values: &[Option<&[u8]>]) -> (built: ArrowViewArray)
    requires
        total_len(byte_values(values@)) < u32::MAX,
    ensures
        !arrow_is_utf8(built),
        holds_values(
            arrow_views(built),
            arrow_buffers(built),
            arrow_nulls(built),
            byte_values(values@),
        ),
{
    let mut builder = builder_new();
    let mut i: usize = 0;
    while i < values.len()
        invariant
            i <= values@.len(),
            total_len(byte_values(values@)) < u32::MAX,
            builder_values(builder) == byte_values(values@).take(i as int),
        decreases values@.len() - i,
    {
        proof {
            lemma_total_len_take(byte_values(values@), i as int);
            lemma_total_len_take(byte_values(values@), i as int + 1);
        }
        match values[i] {
            Some(bytes) => builder_append_value(&mut builder, bytes),
            None => builder_append_null(&mut builder),
        }
        i += 1;
        assert(builder_values(builder) =~= byte_values(values@).take(i as int));
    }
    assert(byte_values(values@).take(i as int) =~= byte_values(values@));
    builder_finish(builder)
}

impl VarBinViewArray {
    /// Whether the array holds exactly `values`: one strict view for each
    /// value, which reads as that value, inline for a value of at most 12
    /// bytes and behind a reference for a longer one.
    pub open spec fn holds(&self, values: Seq<Option<Seq<u8>>>) -> bool {
        holds_values(self.spec_views(), self.spec_buffers(), self.spec_null_mask(), values)
    }

    /// An array that holds `values` has one element for each, and each reads
    /// as its value: reading gives back what was put in.
    pub proof fn lemma_holds_reads_back(&self, values: Seq<Option<Seq<u8>>>)
        requires
            self.wf(),
            self.holds(values),
        ensures
            self.spec_len() == values.len(),
            forall|i: int|
                0 <= i < values.len() ==> self.spec_scalar_at(i) == Ok::<ScalarView, VortexError>(
                    value_scalar(#[trigger] values[i], self.spec_dtype()),
                ),
    {
        self.lemma_wf();
        crate::validity::lemma_null_mask_of_validity(self.spec_validity(), self.spec_len() as int);
        assert forall|i: int| 0 <= i < values.len() implies self.spec_scalar_at(i) == Ok::<
            ScalarView,
            VortexError,
        >(value_scalar(#[trigger] values[i], self.spec_dtype())) by {
            match self.spec_null_mask() {
                Some(mask) => {},
                None => {
                    assert(values[i] is Some);
                },
            }
        }
    }

    /// In an array that holds values each of which is valid UTF-8, what
    /// every view reads as is valid UTF-8.
    pub proof fn lemma_holds_utf8(&self, values: Seq<Option<Seq<u8>>>)
        requires
            self.wf(),
            self.holds(values),
            all_utf8(values),
        ensures
            forall|i: int|
                0 <= i < self.spec_views().len() / 16 ==> valid_utf8(
                    view_value(#[trigger] view_at(self.spec_views(), i), self.spec_buffers())->Ok_0,
                ),
    {
        assert forall|i: int| 0 <= i < self.spec_views().len() / 16 implies valid_utf8(
            view_value(#[trigger] view_at(self.spec_views(), i), self.spec_buffers())->Ok_0,
        ) by {
            match values[i] {
                Some(bytes) => {},
                None => {
                    let view = view_at(self.spec_views(), i);
                    assert(view == crate::array::varbinview::view::zeros(16));
                    assert(view.subrange(0, 4) =~= seq![0u8, 0u8, 0u8, 0u8]);
                    assert(crate::array::varbinview::view::view_inline_value(view)
                        =~= Seq::<u8>::empty());
                },
            }
        }
    }

    /// In an array that holds `values`, a value is inlined exactly when it is
    /// at most 12 bytes long, and its view records its length: a value of 12
    /// bytes is inlined, one of 13 bytes lies behind a reference of length 13.
    pub proof fn lemma_inline_boundary(&self, values: Seq<Option<Seq<u8>>>, index: int)
        requires
            self.wf(),
            self.holds(values),
            0 <= index < values.len(),
            values[index] is Some,
        ensures
            view_size(view_at(self.spec_views(), index)) == values[index]->0.len(),
            view_is_inlined(view_at(self.spec_views(), index)) <==> values[index]->0.len() <= 12,
    {
        let view = view_at(self.spec_views(), index);
        assert(view.len() == 16);
        crate::array::varbinview::view::lemma_le_u32_bytes(view.subrange(0, 4));
        crate::array::varbinview::view::lemma_le_u32_bytes(view.subrange(12, 16));
    }

    /// The array of type `dtype` that holds `values`, a null for each `None`.
    ///
    /// The type must be `Utf8` or `Binary`, and nullable if a value is null.
    /// For `Utf8` the values are taken as they are: a value that is not UTF-8
    /// is held like any other, and Arrow will later refuse the array. The
    /// values must hold fewer than `u32::MAX` bytes in all, the most that the
    /// builder is known to take.
    pub fn from_iter(values: &[Option<&[u8]>], dtype: DType) -> (array: VarBinViewArray)
        requires
            dtype.is_varbin(),
            !dtype.is_nullable() ==> none_null(byte_values(values@)),
            total_len(byte_values(values@)) < u32::MAX,
        ensures
            array.wf(),
            array.spec_dtype() == dtype,
            array.spec_len() == values@.len(),
            array.spec_validity() == validity_of(byte_values(values@), dtype.is_nullable()),
            array.holds(byte_values(values@)),
            forall|i: int|
                0 <= i < values@.len() ==> array.spec_scalar_at(i) == Ok::<ScalarView, VortexError>(
                    value_scalar(#[trigger] byte_values(values@)[i], dtype),
                ),
            dtype is Binary || all_utf8(byte_values(values@)) ==> array.arrow_compatible(),
    {
        let built = generic_byte_view_builder(values);
        proof {
            let logical = byte_values(values@);
            if !dtype.is_nullable() {
                assert(forall|j: int| 0 <= j < logical.len() ==> logical[j] is Some);
            }
            crate::validity::lemma_null_mask_round_trip(
                arrow_nulls(built),
                dtype.is_nullable(),
                logical.len() as int,
            );
            lemma_mask_of_values(
                arrow_views(built),
                arrow_buffers(built),
                arrow_nulls(built),
                logical,
            );
        }
        let array = from_arrow_parts(&built, dtype);
        proof {
            array.lemma_holds_reads_back(byte_values(values@));
            if all_utf8(byte_values(values@)) {
                array.lemma_holds_utf8(byte_values(values@));
            }
        }
        array
    }

    /// The array of type `dtype` that holds `values`, for any values and any
    /// type: `from_iter` where it takes them, and else the error that says
    /// why it does not.
    ///
    /// Fails with `MismatchedTypes` unless the type is `Utf8` or `Binary`;
    /// with `InvalidValidity` where a value is null and the type admits no
    /// nulls; with `NumericOverflow` where the values hold `u32::MAX` bytes or
    /// more in all, too many for the 32-bit offsets of one build.
    pub fn try_from_iter(values: &[Option<&[u8]>], dtype: DType) -> (r: VortexResult<
        VarBinViewArray,
    >)
        ensures
            match r {
                Ok(array) => {
                    &&& build_error(byte_values(values@), dtype) is None
                    &&& array.wf()
                    &&& array.spec_dtype() == dtype
                    &&& array.spec_len() == values@.len()
                    &&& array.spec_validity() == validity_of(
                        byte_values(values@),
                        dtype.is_nullable(),
                    )
                    &&& array.holds(byte_values(values@))
                    &&& forall|i: int|
                        0 <= i < values@.len() ==> array.spec_scalar_at(i) == Ok::<
                            ScalarView,
                            VortexError,
                        >(value_scalar(#[trigger] byte_values(values@)[i], dtype))
                    &&& dtype is Binary || all_utf8(byte_values(values@))
                        ==> array.arrow_compatible()
                },
                Err(e) => build_error(byte_values(values@), dtype) == Some(e),
            },
    {
        if !dtype.is_varbin() {
            return Err(VortexError::MismatchedTypes);
        }
        if !dtype.is_nullable() {
            let mut i: usize = 0;
            while i < values.len()
                invariant
                    i <= values@.len(),
                    dtype.is_varbin(),
                    !dtype.is_nullable(),
                    forall|j: int| 0 <= j < i ==> (#[trigger] byte_values(values@)[j]) is Some,
                decreases values@.len() - i,
            {
                if values[i].is_none() {
                    assert(!none_null(byte_values(values@))) by {
                        assert(byte_values(values@)[i as int] is None);
                    }
                    return Err(VortexError::InvalidValidity);
                }
                i += 1;
            }
        }
        let mut total: u64 = 0;
        let mut i: usize = 0;
        while i < values.len()
            invariant
                i <= values@.len(),
                total == total_len(byte_values(values@).take(i as int)),
                total < u32::MAX,
                dtype.is_varbin(),
                !dtype.is_nullable() ==> none_null(byte_values(values@)),
            decreases values@.len() - i,
        {
            proof {
                lemma_total_len_take(byte_values(values@), i as int);
                lemma_total_len_take(byte_values(values@), i as int + 1);
            }
            let len: u64 = match values[i] {
                Some(bytes) => bytes.len() as u64,
                None => 0,
            };
            if len >= u32::MAX as u64 - total {
                return Err(VortexError::NumericOverflow);
            }
            total = total + len;
            i += 1;
        }
        assert(byte_values(values@).take(i as int) =~= byte_values(values@));
        Ok(VarBinViewArray::from_iter(values, dtype))
    }

    /// The non-nullable array of strings that holds `values`.
    pub fn from_iter_str(values: &[&str]) -> (array: VarBinViewArray)
        requires
            total_len(str_values(values@)) < u32::MAX,
        ensures
            array.wf(),
            array.spec_dtype() == DType::Utf8(Nullability::NonNullable),
            array.spec_len() == values@.len(),
            array.spec_validity() == ValidityView::NonNullable,
            array.holds(str_values(values@)),
            forall|i: int|
                0 <= i < values@.len() ==> array.spec_scalar_at(i) == Ok::<ScalarView, VortexError>(
                    varbin_scalar_view(
                        (#[trigger] values@[i]).spec_bytes(),
                        DType::Utf8(Nullability::NonNullable),
                    ),
                ),
            array.arrow_compatible(),
    {
        let mut items: Vec<Option<&[u8]>> = Vec::new();
        let mut i: usize = 0;
        while i < values.len()
            invariant
                i <= values@.len(),
                items@.len() == i,
                forall|j: int|
                    0 <= j < i ==> byte_values(items@)[j] == #[trigger] str_values(values@)[j],
            decreases values@.len() - i,
        {
            items.push(Some(values[i].as_bytes()));
            i += 1;
        }
        assert(byte_values(items@) =~= str_values(values@));
        proof {
            lemma_strings_are_utf8(values@);
        }
        let array = VarBinViewArray::from_iter(
            items.as_slice(),
            DType::Utf8(Nullability::NonNullable),
        );
        assert forall|i: int| 0 <= i < values@.len() implies array.spec_scalar_at(i) == Ok::<
            ScalarView,
            VortexError,
        >(
            varbin_scalar_view(
                (#[trigger] values@[i]).spec_bytes(),
                DType::Utf8(Nullability::NonNullable),
            ),
        ) by {
            assert(byte_values(items@)[i] == Some(values@[i].spec_bytes()));
        }
        array
    }

    /// The nullable array of strings that holds `values`, a null for each
    /// `None`.
    pub fn from_iter_nullable_str(values: &[Option<&str>]) -> (array: VarBinViewArray)
        requires
            total_len(nullable_str_values(values@)) < u32::MAX,
        ensures
            array.wf(),
            array.spec_dtype() == DType::Utf8(Nullability::Nullable),
            array.spec_len() == values@.len(),
            array.spec_validity() == validity_of(nullable_str_values(values@), true),
            array.holds(nullable_str_values(values@)),
            forall|i: int|
                0 <= i < values@.len() ==> array.spec_scalar_at(i) == Ok::<ScalarView, VortexError>(
                    value_scalar(
                        #[trigger] nullable_str_values(values@)[i],
                        DType::Utf8(Nullability::Nullable),
                    ),
                ),
            array.arrow_compatible(),
    {
        let mut items: Vec<Option<&[u8]>> = Vec::new();
        let mut i: usize = 0;
        while i < values.len()
            invariant
                i <= values@.len(),
                items@.len() == i,
                forall|j: int|
                    0 <= j < i ==> byte_values(items@)[j] == #[trigger] nullable_str_values(
                        values@,
                    )[j],
            decreases values@.len() - i,
        {
            let item: Option<&[u8]> = match values[i] {
                Some(text) => Some(text.as_bytes()),
                None => None,
            };
            items.push(item);
            i += 1;
        }
        assert(byte_values(items@) =~= nullable_str_values(values@));
        proof {
            lemma_optional_strings_are_utf8(values@);
        }
        VarBinViewArray::from_iter(items.as_slice(), DType::Utf8(Nullability::Nullable))
    }

    /// The non-nullable array of bytes that holds `values`.
    pub fn from_iter_bin(values: &[&[u8]]) -> (array: VarBinViewArray)
        requires
            total_len(bin_values(values@)) < u32::MAX,
        ensures
            array.wf(),
            array.spec_dtype() == DType::Binary(Nullability::NonNullable),
            array.spec_len() == values@.len(),
            array.spec_validity() == ValidityView::NonNullable,
            array.holds(bin_values(values@)),
            forall|i: int|
                0 <= i < values@.len() ==> array.spec_scalar_at(i) == Ok::<ScalarView, VortexError>(
                    varbin_scalar_view(
                        (#[trigger] values@[i])@,
                        DType::Binary(Nullability::NonNullable),
                    ),
                ),
            array.arrow_compatible(),
    {
        let mut items: Vec<Option<&[u8]>> = Vec::new();
        let mut i: usize = 0;
        while i < values.len()
            invariant
                i <= values@.len(),
                items@.len() == i,
                forall|j: int|
                    0 <= j < i ==> byte_values(items@)[j] == #[trigger] bin_values(values@)[j],
            decreases values@.len() - i,
        {
            items.push(Some(values[i]));
            i += 1;
        }
        assert(byte_values(items@) =~= bin_values(values@));
        let array = VarBinViewArray::from_iter(
            items.as_slice(),
            DType::Binary(Nullability::NonNullable),
        );
        assert forall|i: int| 0 <= i < values@.len() implies array.spec_scalar_at(i) == Ok::<
            ScalarView,
            VortexError,
        >(
            varbin_scalar_view((#[trigger] values@[i])@, DType::Binary(Nullability::NonNullable)),
        ) by {
            assert(byte_values(items@)[i] == Some(values@[i]@));
        }
        array
    }

    /// The nullable array of bytes that holds `values`, a null for each
    /// `None`.
    pub fn from_iter_nullable_bin(values: &[Option<&[u8]>]) -> (array: VarBinViewArray)
        requires
            total_len(byte_values(values@)) < u32::MAX,
        ensures
            array.wf(),
            array.spec_dtype() == DType::Binary(Nullability::Nullable),
            array.spec_len() == values@.len(),
            array.spec_validity() == validity_of(byte_values(values@), true),
            array.holds(byte_values(values@)),
            forall|i: int|
                0 <= i < values@.len() ==> array.spec_scalar_at(i) == Ok::<ScalarView, VortexError>(
                    value_scalar(
                        #[trigger] byte_values(values@)[i],
                        DType::Binary(Nullability::Nullable),
                    ),
                ),
            array.arrow_compatible(),
    {
        VarBinViewArray::from_iter(values, DType::Binary(Nullability::Nullable))
    }
}

} // verus!
