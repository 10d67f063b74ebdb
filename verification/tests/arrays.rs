use vortex_array::array::boolean::BoolArray;
use vortex_array::array::primitive::PrimitiveArray;
use vortex_array::array::varbinview::VarBinViewArray;
use vortex_array::array::Array;
use vortex_array::array::Canonical;
use vortex_array::buffer::Buffer;
use vortex_array::arrow::ArrowViewArray;
use vortex_array::compute::as_arrow;
use vortex_array::compute::flatten;
use vortex_array::compute::scalar_at;
use vortex_array::compute::slice;
use vortex_array::compute::ArrayCompute;
use vortex_array::compute::Capabilities;
use vortex_array::dtype::DType;
use vortex_array::dtype::Nullability;
use vortex_array::dtype::PType;
use vortex_array::encoding;
use vortex_array::error::VortexError;
use vortex_array::error::VortexResult;
use vortex_array::scalar::varbin_scalar;
use vortex_array::scalar::Scalar;
use vortex_array::scalar::ScalarValue;
use vortex_array::validity::LogicalValidity;
use vortex_array::validity::Validity;
use vortex_array::validity::ValidityMetadata;

#[test]
fn buffer_slices_share_and_narrow() {
    let buffer = Buffer::from_vec(vec![10u8, 11, 12, 13, 14, 15]);
    assert_eq!(buffer.len(), 6);
    assert!(!buffer.is_empty());
    assert_eq!(buffer.get(2), 12);
    let middle = buffer.slice(1, 5).unwrap();
    assert_eq!(middle.to_vec(), vec![11, 12, 13, 14]);
    assert_eq!(middle.as_slice(), &[11, 12, 13, 14]);
    assert!(middle.ptr_eq(&buffer));
    let inner = middle.slice(1, 3).unwrap();
    assert_eq!(inner.to_vec(), vec![12, 13]);
    assert_eq!(inner.get(1), 13);
    assert!(inner.ptr_eq(&buffer));
    assert!(matches!(middle.slice(2, 5), Err(VortexError::OutOfRange)));
    assert!(matches!(middle.slice(3, 2), Err(VortexError::OutOfRange)));
    assert!(buffer.slice(6, 6).unwrap().is_empty());
    let shared = buffer.share();
    assert!(shared.ptr_eq(&buffer));
    assert_eq!(shared.to_vec(), buffer.to_vec());
}

#[test]
fn bool_scalar_at_follows_the_validity() {
    let array = BoolArray::try_new(
        Buffer::from_vec(vec![true, false, true]),
        Validity::Array(Buffer::from_vec(vec![true, true, false])),
    )
    .unwrap();
    assert_eq!(array.dtype(), DType::Bool(Nullability::Nullable));
    assert_eq!(
        array.scalar_at(0).unwrap(),
        Scalar::bool(Some(true), Nullability::Nullable)
    );
    assert_eq!(
        array.scalar_at(1).unwrap(),
        Scalar::bool(Some(false), Nullability::Nullable)
    );
    assert_eq!(
        array.scalar_at(2).unwrap(),
        Scalar::bool(None, Nullability::Nullable)
    );
    assert_eq!(array.scalar_at(3), Err(VortexError::OutOfRange));
    let plain = BoolArray::from_vec(vec![false]);
    assert_eq!(plain.dtype(), DType::Bool(Nullability::NonNullable));
    assert_eq!(
        plain.scalar_at(0).unwrap(),
        Scalar::bool(Some(false), Nullability::NonNullable)
    );
    assert_eq!(plain.scalar_at(0).unwrap().value(), &ScalarValue::Bool(false));
    assert!(matches!(
        BoolArray::try_new(
            Buffer::from_vec(vec![true]),
            Validity::Array(Buffer::from_vec(vec![]))
        ),
        Err(VortexError::InvalidValidity)
    ));
}

#[test]
fn bool_slice_reads_like_the_array() {
    let array = BoolArray::try_new(
        Buffer::from_vec(vec![true, false, true, false]),
        Validity::Array(Buffer::from_vec(vec![true, false, false, true])),
    )
    .unwrap();
    let sliced = array.slice(1, 4).unwrap();
    assert_eq!(sliced.len(), 3);
    for k in 0..3 {
        assert_eq!(sliced.scalar_at(k), array.scalar_at(1 + k));
    }
    assert!(matches!(array.slice(1, 5), Err(VortexError::OutOfRange)));
    assert_eq!(sliced.boolean_buffer().to_vec(), vec![false, true, false]);
    assert!(sliced.is_valid(2));
    assert!(!sliced.is_valid(0));
}

#[test]
fn byte_arrays_read_and_slice() {
    let array = PrimitiveArray::from_vec(vec![1, 2, 3, 4]);
    assert_eq!(array.dtype(), DType::bytes());
    assert_eq!(array.len(), 4);
    assert_eq!(
        array.scalar_at(2).unwrap(),
        Scalar::byte(3, Nullability::NonNullable)
    );
    assert_eq!(array.scalar_at(4), Err(VortexError::OutOfRange));
    let sliced = array.slice(1, 3).unwrap();
    assert_eq!(sliced.buffer().to_vec(), vec![2, 3]);
    assert!(sliced.buffer().ptr_eq(array.buffer()));
    let nullable =
        PrimitiveArray::try_new(Buffer::from_vec(vec![5, 6]), Validity::AllInvalid).unwrap();
    assert_eq!(
        nullable.dtype(),
        DType::Primitive(PType::U8, Nullability::Nullable)
    );
    assert!(nullable.scalar_at(1).unwrap().is_null());
    assert!(!nullable.dtype().is_bytes());
}

#[test]
fn validity_answers_by_kind() {
    assert!(Validity::NonNullable.is_valid(5));
    assert!(Validity::AllValid.is_valid(5));
    assert!(!Validity::AllInvalid.is_valid(5));
    let flags = Validity::Array(Buffer::from_vec(vec![false, true]));
    assert!(!flags.is_valid(0));
    assert!(flags.is_valid(1));
    assert_eq!(Validity::NonNullable.nullability(), Nullability::NonNullable);
    assert_eq!(Validity::AllInvalid.nullability(), Nullability::Nullable);
    assert_eq!(flags.nullability(), Nullability::Nullable);
    assert_eq!(flags.to_metadata(2), Ok(ValidityMetadata::Array));
    assert_eq!(flags.to_metadata(3), Err(VortexError::InvalidValidity));
    assert_eq!(
        Validity::AllValid.to_metadata(1000),
        Ok(ValidityMetadata::AllValid)
    );
    match flags.slice(1, 2).unwrap() {
        Validity::Array(bits) => assert_eq!(bits.to_vec(), vec![true]),
        other => panic!("unexpected validity {:?}", other),
    }
    assert!(matches!(flags.slice(1, 3), Err(VortexError::OutOfRange)));
    assert!(matches!(
        Validity::AllInvalid.slice(7, 3),
        Ok(Validity::AllInvalid)
    ));
    assert!(matches!(
        ValidityMetadata::AllInvalid.to_validity(None),
        Validity::AllInvalid
    ));
    let bits = Buffer::from_vec(vec![true]);
    assert!(matches!(
        ValidityMetadata::Array.to_validity(Some(&bits)),
        Validity::Array(_)
    ));
    assert!(flags.share().is_valid(1));
    assert!(Validity::AllValid.into_array().is_none());
    let child = flags.into_array().unwrap();
    assert_eq!(child.dtype(), DType::Bool(Nullability::NonNullable));
    assert_eq!(child.len(), 2);
}

#[test]
fn null_masks_turn_into_validity_and_back() {
    assert!(matches!(
        Validity::from_null_mask(None, false),
        Validity::NonNullable
    ));
    assert!(matches!(
        Validity::from_null_mask(Some(vec![true, true]), false),
        Validity::NonNullable
    ));
    assert!(matches!(
        Validity::from_null_mask(None, true),
        Validity::AllValid
    ));
    assert!(matches!(
        Validity::from_null_mask(Some(vec![false, false]), true),
        Validity::AllInvalid
    ));
    assert!(matches!(
        Validity::from_null_mask(Some(vec![]), true),
        Validity::AllInvalid
    ));
    match Validity::from_null_mask(Some(vec![false, true]), true) {
        Validity::Array(bits) => assert_eq!(bits.to_vec(), vec![false, true]),
        other => panic!("unexpected validity {:?}", other),
    }
    assert_eq!(Validity::NonNullable.to_logical(3).to_null_buffer(), None);
    assert_eq!(Validity::AllValid.to_logical(3).to_null_buffer(), None);
    assert_eq!(
        Validity::AllInvalid.to_logical(3).to_null_buffer(),
        Some(vec![false, false, false])
    );
    assert_eq!(
        LogicalValidity::Array(Buffer::from_vec(vec![true, false])).to_null_buffer(),
        Some(vec![true, false])
    );
}

#[test]
fn types_know_their_nullability() {
    assert!(DType::Null.is_nullable());
    assert!(DType::Utf8(Nullability::Nullable).is_nullable());
    assert!(!DType::Binary(Nullability::NonNullable).is_nullable());
    assert!(DType::Utf8(Nullability::Nullable).is_varbin());
    assert!(DType::Binary(Nullability::NonNullable).is_varbin());
    assert!(!DType::Bool(Nullability::Nullable).is_varbin());
    assert!(DType::bytes().is_bytes());
    assert_eq!(
        DType::bytes(),
        DType::Primitive(PType::U8, Nullability::NonNullable)
    );
    assert!(!DType::Primitive(PType::I8, Nullability::NonNullable).is_bytes());
    assert_eq!(Nullability::from_bool(true), Nullability::Nullable);
    assert_eq!(Nullability::from_bool(false), Nullability::NonNullable);
    assert_eq!(PType::U8.byte_width(), 1);
    assert_eq!(PType::F16.byte_width(), 2);
    assert_eq!(PType::I32.byte_width(), 4);
    assert_eq!(PType::F64.byte_width(), 8);
    assert_eq!(
        DType::Struct(Nullability::Nullable).nullability(),
        Nullability::Nullable
    );
}

#[test]
fn scalars_hold_a_type_and_a_value() {
    let text = Scalar::from("abc");
    assert_eq!(text.dtype(), DType::Utf8(Nullability::NonNullable));
    assert_eq!(text.as_bytes(), Some(b"abc".as_slice()));
    assert!(!text.is_null());
    assert_eq!(text, Scalar::from_str("abc"));
    assert_eq!(text, Scalar::utf8(b"abc".to_vec(), Nullability::NonNullable));
    assert_ne!(text, Scalar::binary(b"abc".to_vec(), Nullability::NonNullable));
    assert_ne!(text, Scalar::utf8(b"abc".to_vec(), Nullability::Nullable));
    let null = Scalar::null(DType::Binary(Nullability::Nullable));
    assert!(null.is_null());
    assert_eq!(null.as_bytes(), None);
    assert_eq!(
        varbin_scalar(vec![1, 2], DType::Binary(Nullability::Nullable)),
        Scalar::binary(vec![1, 2], Nullability::Nullable)
    );
    assert_eq!(
        varbin_scalar(b"x".to_vec(), DType::Utf8(Nullability::NonNullable)),
        Scalar::from("x")
    );
    assert_eq!(
        Scalar::byte(7, Nullability::NonNullable).value(),
        &ScalarValue::U8(7)
    );
}

#[test]
fn errors_describe_themselves() {
    assert_eq!(VortexError::MismatchedTypes.message(), "mismatched types");
    assert_eq!(VortexError::InvalidValidity.message(), "invalid validity");
    assert_eq!(VortexError::UnknownEncoding.message(), "unknown encoding");
    assert_eq!(VortexError::OutOfRange.message(), "index out of range");
    assert_eq!(VortexError::NumericOverflow.message(), "numeric overflow");
    assert_eq!(VortexError::InvalidArgument.message(), "invalid argument");
}

#[test]
fn arrays_of_any_encoding_answer_alike() {
    let bools = BoolArray::from_vec(vec![true, false]).into_array();
    assert_eq!(bools.encoding().id().code(), encoding::BOOL);
    assert_eq!(bools.len(), 2);
    assert!(!bools.is_empty());
    assert_eq!(
        scalar_at(&bools, 1).unwrap(),
        Scalar::bool(Some(false), Nullability::NonNullable)
    );
    let bytes = PrimitiveArray::from_vec(vec![9, 8, 7]).into_array();
    assert_eq!(bytes.encoding().id().code(), encoding::PRIMITIVE);
    let sliced = slice(&bytes, 1, 3).unwrap();
    assert_eq!(sliced.len(), 2);
    assert_eq!(
        scalar_at(&sliced, 0).unwrap(),
        Scalar::byte(8, Nullability::NonNullable)
    );
    assert!(matches!(flatten(&bytes), Ok(Canonical::Primitive(_))));
    assert!(matches!(bools.share().into_canonical(), Ok(Canonical::Bool(_))));
    assert!(matches!(bytes.share().into_bool(), Err(VortexError::MismatchedTypes)));
    assert!(bytes.share().into_primitive().is_ok());
    assert!(matches!(
        bytes.into_varbinview(),
        Err(VortexError::MismatchedTypes)
    ));
    assert!(matches!(
        Canonical::Bool(BoolArray::from_vec(vec![])).into_varbinview(),
        Err(VortexError::MismatchedTypes)
    ));
    assert!(Canonical::Bool(BoolArray::from_vec(vec![])).into_bool().is_ok());
    assert_eq!(
        bools.capabilities(),
        Capabilities { scalar_at: true, slice: true, as_arrow: false }
    );
}

/// An encoding that implements nothing itself: a run of one repeated flag.
struct Repeated {
    flag: bool,
    len: usize,
    canonical: bool,
}

impl ArrayCompute for Repeated {
    fn length(&self) -> usize {
        self.len
    }

    fn capabilities(&self) -> Capabilities {
        Capabilities { scalar_at: false, slice: false, as_arrow: false }
    }

    fn scalar_at_fn(&self, _index: usize) -> VortexResult<Scalar> {
        panic!("the encoding does not implement reading")
    }

    fn slice_fn(&self, _start: usize, _stop: usize) -> VortexResult<Array> {
        panic!("the encoding does not implement slicing")
    }

    fn as_arrow_fn(&self) -> VortexResult<ArrowViewArray> {
        panic!("the encoding does not implement the conversion")
    }

    fn flatten_fn(&self) -> VortexResult<Canonical> {
        if self.canonical {
            Ok(Canonical::Bool(BoolArray::from_vec(vec![self.flag; self.len])))
        } else {
            Err(VortexError::MismatchedTypes)
        }
    }
}

/// An encoding that implements nothing itself: one string, repeated.
struct RepeatedText {
    text: &'static str,
    len: usize,
}

impl ArrayCompute for RepeatedText {
    fn length(&self) -> usize {
        self.len
    }

    fn capabilities(&self) -> Capabilities {
        Capabilities { scalar_at: false, slice: false, as_arrow: false }
    }

    fn scalar_at_fn(&self, _index: usize) -> VortexResult<Scalar> {
        panic!("the encoding does not implement reading")
    }

    fn slice_fn(&self, _start: usize, _stop: usize) -> VortexResult<Array> {
        panic!("the encoding does not implement slicing")
    }

    fn as_arrow_fn(&self) -> VortexResult<ArrowViewArray> {
        panic!("the encoding does not implement the conversion")
    }

    fn flatten_fn(&self) -> VortexResult<Canonical> {
        let values = vec![self.text; self.len];
        Ok(Canonical::VarBinView(VarBinViewArray::from_iter_str(&values)))
    }
}

#[test]
fn conversion_to_arrow_goes_through_the_canonical_form() {
    let text = RepeatedText { text: "a text of more than twelve bytes", len: 3 };
    let arrow = as_arrow(&text).unwrap();
    assert!(arrow.is_utf8());
    assert_eq!(arrow.views().len(), 48);
    assert_eq!(arrow.nulls(), None);
    assert_eq!(
        scalar_at(&text, 2).unwrap(),
        Scalar::from("a text of more than twelve bytes")
    );
    assert_eq!(slice(&text, 1, 2).unwrap().len(), 1);
    let flags = Repeated { flag: false, len: 2, canonical: true };
    assert!(matches!(as_arrow(&flags), Err(VortexError::MismatchedTypes)));
    let broken = Repeated { flag: false, len: 2, canonical: false };
    assert!(matches!(as_arrow(&broken), Err(VortexError::MismatchedTypes)));
    let bools = BoolArray::from_vec(vec![true]).into_array();
    assert!(matches!(as_arrow(&bools), Err(VortexError::MismatchedTypes)));
    let bytes = PrimitiveArray::from_vec(vec![1]);
    assert!(matches!(as_arrow(&bytes), Err(VortexError::MismatchedTypes)));
    let strings = VarBinViewArray::from_iter_nullable_str(&[None, Some("x")]).into_array();
    let arrow = as_arrow(&strings).unwrap();
    assert_eq!(arrow.nulls(), Some(vec![false, true]));
    assert!(arrow.is_utf8());
}

#[test]
fn an_encoding_without_operations_answers_through_its_canonical_form() {
    let array = Repeated { flag: true, len: 4, canonical: true };
    assert_eq!(
        scalar_at(&array, 3).unwrap(),
        Scalar::bool(Some(true), Nullability::NonNullable)
    );
    assert_eq!(scalar_at(&array, 4), Err(VortexError::OutOfRange));
    let sliced = slice(&array, 1, 3).unwrap();
    assert_eq!(sliced.len(), 2);
    assert_eq!(
        scalar_at(&sliced, 1).unwrap(),
        Scalar::bool(Some(true), Nullability::NonNullable)
    );
    assert!(matches!(slice(&array, 3, 5), Err(VortexError::OutOfRange)));
    assert!(matches!(flatten(&array), Ok(Canonical::Bool(_))));
    let broken = Repeated { flag: true, len: 4, canonical: false };
    assert_eq!(scalar_at(&broken, 0), Err(VortexError::MismatchedTypes));
    assert!(matches!(slice(&broken, 0, 1), Err(VortexError::MismatchedTypes)));
    assert_eq!(scalar_at(&broken, 4), Err(VortexError::OutOfRange));
}
