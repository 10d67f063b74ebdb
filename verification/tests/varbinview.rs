use std::mem::align_of;
use std::mem::size_of;
use vortex_array::array::primitive::PrimitiveArray;
use vortex_array::array::varbinview::view::BinaryView;
use vortex_array::array::varbinview::view::VIEW_SIZE_BYTES;
use vortex_array::array::visitor::ArrayVisitor;
use vortex_array::array::visitor::ChildCount;
use vortex_array::array::varbinview::VarBinViewArray;
use vortex_array::array::Array;
use vortex_array::array::Canonical;
use vortex_array::buffer::Buffer;
use vortex_array::compute::scalar_at;
use vortex_array::compute::slice;
use vortex_array::dtype::DType;
use vortex_array::dtype::Nullability;
use vortex_array::error::VortexError;
use vortex_array::error::VortexResult;
use vortex_array::scalar::Scalar;
use vortex_array::validity::Validity;
use vortex_array::validity::ValidityMetadata;

#[test]
pub fn varbin_view() {
    let binary_arr =
        VarBinViewArray::from_iter_str(&["hello world", "hello world this is a long string"]);
    assert_eq!(binary_arr.len(), 2);
    assert_eq!(
        scalar_at(&binary_arr, 0).unwrap(),
        Scalar::from("hello world")
    );
    assert_eq!(
        scalar_at(&binary_arr, 1).unwrap(),
        Scalar::from("hello world this is a long string")
    );
}

#[test]
pub fn slice_array() {
    let binary_arr = slice(
        &VarBinViewArray::from_iter_str(&["hello world", "hello world this is a long string"])
            .into_array(),
        1,
        2,
    )
    .unwrap();
    assert_eq!(
        scalar_at(&binary_arr, 0).unwrap(),
        Scalar::from("hello world this is a long string")
    );
}

#[test]
pub fn flatten_array() {
    let binary_arr = VarBinViewArray::from_iter_str(&["string1", "string2"]);

    let flattened = binary_arr.into_canonical().unwrap();
    assert!(matches!(flattened, Canonical::VarBinView(_)));

    let var_bin = flattened.into_varbinview().unwrap().into_array();
    assert_eq!(scalar_at(&var_bin, 0).unwrap(), Scalar::from("string1"));
    assert_eq!(scalar_at(&var_bin, 1).unwrap(), Scalar::from("string2"));
}

#[test]
pub fn binary_view_size_and_alignment() {
    assert_eq!(size_of::<BinaryView>(), VIEW_SIZE_BYTES);
    assert_eq!(size_of::<BinaryView>(), 16);
    assert_eq!(align_of::<BinaryView>(), 8);
}

fn bytes_array(bytes: Vec<u8>) -> Array {
    Array::Primitive(PrimitiveArray::from_vec(bytes))
}

fn views_of(views: &[BinaryView]) -> Array {
    let mut bytes = Vec::new();
    for view in views {
        bytes.extend_from_slice(&view.to_le_bytes());
    }
    bytes_array(bytes)
}

#[test]
fn end_to_end_two_strings() {
    let array =
        VarBinViewArray::from_iter_str(&["hello world", "hello world this is a long string"]);
    assert_eq!(array.len(), 2);
    assert_eq!(array.dtype(), DType::Utf8(Nullability::NonNullable));
    assert!(array.view_at(0).unwrap().is_inlined());
    assert!(!array.view_at(1).unwrap().is_inlined());
    assert_eq!(array.view_at(1).unwrap().len(), 33);
    assert_eq!(array.bytes_at(0).unwrap(), b"hello world".to_vec());
    assert_eq!(
        array.bytes_at(1).unwrap(),
        b"hello world this is a long string".to_vec()
    );
    let sliced = array.slice(1, 2).unwrap();
    assert_eq!(sliced.len(), 1);
    assert_eq!(
        sliced.scalar_at(0).unwrap(),
        Scalar::from("hello world this is a long string")
    );
    let canonical = array.into_canonical().unwrap().into_varbinview().unwrap();
    assert_eq!(canonical.len(), 2);
    assert!(canonical.is_valid(0));
    assert!(canonical.is_valid(1));
    assert_eq!(canonical.scalar_at(0).unwrap(), Scalar::from("hello world"));
    assert_eq!(
        canonical.scalar_at(1).unwrap(),
        Scalar::from("hello world this is a long string")
    );
}

#[test]
fn round_trip_of_optional_strings() {
    let values = [
        Some("a"),
        None,
        Some(""),
        Some("exactly12byt"),
        Some("thirteen byte"),
        None,
        Some("a string that is far longer than twelve bytes"),
    ];
    let array = VarBinViewArray::from_iter_nullable_str(&values);
    assert_eq!(array.len(), values.len());
    assert_eq!(array.dtype(), DType::Utf8(Nullability::Nullable));
    for (i, value) in values.iter().enumerate() {
        let expected = match value {
            Some(text) => Scalar::utf8(text.as_bytes().to_vec(), Nullability::Nullable),
            None => Scalar::null(DType::Utf8(Nullability::Nullable)),
        };
        assert_eq!(array.scalar_at(i).unwrap(), expected);
        assert_eq!(array.is_valid(i), value.is_some());
    }
}

#[test]
fn round_trip_of_bytes() {
    let long = [7u8; 300];
    let values: [&[u8]; 4] = [b"", b"\x00\xff", &long, b"0123456789abc"];
    let array = VarBinViewArray::from_iter_bin(&values);
    assert_eq!(array.dtype(), DType::Binary(Nullability::NonNullable));
    for (i, value) in values.iter().enumerate() {
        assert_eq!(
            array.scalar_at(i).unwrap(),
            Scalar::binary(value.to_vec(), Nullability::NonNullable)
        );
    }
    let nullable: [Option<&[u8]>; 3] = [None, Some(b"xyz"), None];
    let array = VarBinViewArray::from_iter_nullable_bin(&nullable);
    assert_eq!(array.dtype(), DType::Binary(Nullability::Nullable));
    assert_eq!(
        array.scalar_at(0).unwrap(),
        Scalar::null(DType::Binary(Nullability::Nullable))
    );
    assert_eq!(
        array.scalar_at(1).unwrap(),
        Scalar::binary(b"xyz".to_vec(), Nullability::Nullable)
    );
    assert!(!array.is_valid(2));
}

#[test]
fn from_iter_follows_the_type() {
    let values: [Option<&[u8]>; 2] = [Some(b"abc"), Some(b"a value of more than twelve bytes")];
    let strings = VarBinViewArray::from_iter(&values, DType::Utf8(Nullability::NonNullable));
    assert_eq!(strings.dtype(), DType::Utf8(Nullability::NonNullable));
    assert_eq!(strings.scalar_at(0).unwrap(), Scalar::from("abc"));
    let bytes = VarBinViewArray::from_iter(&values, DType::Binary(Nullability::Nullable));
    assert_eq!(bytes.dtype(), DType::Binary(Nullability::Nullable));
    assert_eq!(
        bytes.scalar_at(1).unwrap(),
        Scalar::binary(
            b"a value of more than twelve bytes".to_vec(),
            Nullability::Nullable
        )
    );
    let empty: [Option<&[u8]>; 0] = [];
    let none = VarBinViewArray::from_iter(&empty, DType::Binary(Nullability::NonNullable));
    assert_eq!(none.len(), 0);
    assert!(none.is_empty());
    assert_eq!(none.buffer_count(), 0);
}

#[test]
fn twelve_bytes_are_inlined_and_thirteen_are_not() {
    let array = VarBinViewArray::from_iter_str(&["123456789012", "1234567890123"]);
    let twelve = array.view_at(0).unwrap();
    assert!(twelve.is_inlined());
    assert_eq!(twelve.len(), 12);
    assert_eq!(twelve.as_inlined().value(), b"123456789012");
    let thirteen = array.view_at(1).unwrap();
    assert!(!thirteen.is_inlined());
    assert_eq!(thirteen.len(), 13);
    assert_eq!(thirteen.as_view().prefix(), b"1234");
    assert_eq!(thirteen.as_view().buffer_index(), 0);
    assert_eq!(thirteen.as_view().offset(), 0);
    assert_eq!(array.buffer_count(), 1);
}

#[test]
fn slice_reads_like_the_array() {
    let values = [
        Some("zero"),
        None,
        Some("the second element is a long one"),
        Some("three"),
        None,
        Some("the fifth element is a long one too"),
    ];
    let array = VarBinViewArray::from_iter_nullable_str(&values);
    for start in 0..=values.len() {
        for stop in start..=values.len() {
            let sliced = array.slice(start, stop).unwrap();
            assert_eq!(sliced.len(), stop - start);
            assert_eq!(sliced.dtype(), array.dtype());
            for k in 0..(stop - start) {
                assert_eq!(
                    sliced.scalar_at(k).unwrap(),
                    array.scalar_at(start + k).unwrap()
                );
            }
            assert_eq!(sliced.scalar_at(stop - start), Err(VortexError::OutOfRange));
        }
    }
}

#[test]
fn slice_out_of_range_is_refused() {
    let array = VarBinViewArray::from_iter_str(&["a", "b", "c"]);
    assert!(matches!(array.slice(2, 1), Err(VortexError::OutOfRange)));
    assert!(matches!(array.slice(0, 4), Err(VortexError::OutOfRange)));
    assert!(matches!(array.slice(4, 4), Err(VortexError::OutOfRange)));
    assert!(matches!(
        slice(&array, 1, 7),
        Err(VortexError::OutOfRange)
    ));
    assert_eq!(array.slice(3, 3).unwrap().len(), 0);
}

#[test]
fn slice_shares_the_data_buffers() {
    let array = VarBinViewArray::from_iter_str(&[
        "the first of two long strings",
        "the second of two long strings",
    ]);
    let sliced = array.slice(1, 2).unwrap();
    assert_eq!(sliced.buffer_count(), array.buffer_count());
    for (mine, theirs) in array.data_buffers().iter().zip(sliced.data_buffers().iter()) {
        assert!(mine.ptr_eq(theirs));
        assert_eq!(mine.as_slice().as_ptr(), theirs.as_slice().as_ptr());
    }
    assert!(array.views_buffer().ptr_eq(sliced.views_buffer()));
    assert_eq!(sliced.views_buffer().len(), 16);
    let copy = Buffer::from_vec(array.data_buffers()[0].to_vec());
    assert!(!copy.ptr_eq(&array.data_buffers()[0]));
}

#[test]
fn scalar_at_out_of_range_is_refused() {
    let array = VarBinViewArray::from_iter_str(&["a"]);
    assert_eq!(array.scalar_at(1), Err(VortexError::OutOfRange));
    assert_eq!(scalar_at(&array, 1), Err(VortexError::OutOfRange));
    assert_eq!(scalar_at(&array.into_array(), 9), Err(VortexError::OutOfRange));
    let nulls = VarBinViewArray::from_iter_nullable_str(&[None, None]);
    assert_eq!(nulls.scalar_at(2), Err(VortexError::OutOfRange));
    assert!(matches!(nulls.view_at(2), Err(VortexError::OutOfRange)));
    assert!(matches!(nulls.bytes_at(2), Err(VortexError::OutOfRange)));
}

#[test]
fn try_new_keeps_the_parts() {
    let views = views_of(&[
        BinaryView::new_inlined(b"abc"),
        BinaryView::new_view(16, *b"0123", 0, 4),
    ]);
    let buffers = vec![bytes_array(b"....0123456789abcdef....".to_vec())];
    let array = VarBinViewArray::try_new(
        views,
        buffers,
        DType::Binary(Nullability::Nullable),
        Validity::AllValid,
    )
    .unwrap();
    assert_eq!(array.len(), 2);
    assert_eq!(array.buffer_count(), 1);
    assert_eq!(array.metadata().buffer_lens(), &vec![24u32]);
    assert_eq!(array.metadata().validity(), ValidityMetadata::AllValid);
    assert_eq!(array.bytes_at(0).unwrap(), b"abc".to_vec());
    assert_eq!(array.bytes_at(1).unwrap(), b"0123456789abcdef".to_vec());
    assert_eq!(
        array.scalar_at(1).unwrap(),
        Scalar::binary(b"0123456789abcdef".to_vec(), Nullability::Nullable)
    );
    let children = array.children();
    assert_eq!(children.len(), 2);
    assert_eq!(children[0].len(), 32);
    assert_eq!(children[1].len(), 24);
    assert_eq!(array.views().len(), 32);
    assert_eq!(array.buffer(0).dtype(), DType::bytes());
}

#[test]
fn try_new_refuses_wrong_types() {
    let bools = Array::Bool(vortex_array::array::boolean::BoolArray::from_vec(vec![true; 16]));
    assert!(matches!(
        VarBinViewArray::try_new(
            bools,
            vec![],
            DType::Utf8(Nullability::NonNullable),
            Validity::NonNullable
        ),
        Err(VortexError::MismatchedTypes)
    ));
    let nullable_bytes = Array::Primitive(
        PrimitiveArray::try_new(Buffer::from_vec(vec![0u8; 16]), Validity::AllValid).unwrap(),
    );
    assert!(matches!(
        VarBinViewArray::try_new(
            nullable_bytes,
            vec![],
            DType::Utf8(Nullability::NonNullable),
            Validity::NonNullable
        ),
        Err(VortexError::MismatchedTypes)
    ));
    let bool_buffer = Array::Bool(vortex_array::array::boolean::BoolArray::from_vec(vec![true]));
    assert!(matches!(
        VarBinViewArray::try_new(
            bytes_array(vec![0u8; 16]),
            vec![bytes_array(vec![1, 2, 3]), bool_buffer],
            DType::Utf8(Nullability::NonNullable),
            Validity::NonNullable
        ),
        Err(VortexError::MismatchedTypes)
    ));
    assert!(matches!(
        VarBinViewArray::try_new(
            bytes_array(vec![0u8; 16]),
            vec![],
            DType::Bool(Nullability::NonNullable),
            Validity::NonNullable
        ),
        Err(VortexError::MismatchedTypes)
    ));
    assert!(matches!(
        VarBinViewArray::try_new(
            Array::Bool(vortex_array::array::boolean::BoolArray::from_vec(vec![])),
            vec![],
            DType::Utf8(Nullability::Nullable),
            Validity::NonNullable
        ),
        Err(VortexError::MismatchedTypes)
    ));
}

#[test]
fn try_new_refuses_validity_that_contradicts_the_type() {
    assert!(matches!(
        VarBinViewArray::try_new(
            bytes_array(vec![0u8; 32]),
            vec![],
            DType::Utf8(Nullability::Nullable),
            Validity::NonNullable
        ),
        Err(VortexError::InvalidValidity)
    ));
    assert!(matches!(
        VarBinViewArray::try_new(
            bytes_array(vec![0u8; 32]),
            vec![],
            DType::Binary(Nullability::NonNullable),
            Validity::AllValid
        ),
        Err(VortexError::InvalidValidity)
    ));
    assert!(matches!(
        VarBinViewArray::try_new(
            bytes_array(vec![0u8; 32]),
            vec![],
            DType::Binary(Nullability::NonNullable),
            Validity::AllInvalid
        ),
        Err(VortexError::InvalidValidity)
    ));
    assert!(matches!(
        VarBinViewArray::try_new(
            bytes_array(vec![0u8; 32]),
            vec![],
            DType::Binary(Nullability::NonNullable),
            Validity::Array(Buffer::from_vec(vec![true, true]))
        ),
        Err(VortexError::InvalidValidity)
    ));
    assert!(matches!(
        VarBinViewArray::try_new(
            bytes_array(vec![0u8; 32]),
            vec![],
            DType::Binary(Nullability::Nullable),
            Validity::Array(Buffer::from_vec(vec![true, true, false]))
        ),
        Err(VortexError::InvalidValidity)
    ));
    assert!(VarBinViewArray::try_new(
        bytes_array(vec![0u8; 32]),
        vec![],
        DType::Binary(Nullability::Nullable),
        Validity::Array(Buffer::from_vec(vec![true, false]))
    )
    .is_ok());
}

#[test]
fn try_new_refuses_views_that_are_no_whole_number() {
    assert!(matches!(
        VarBinViewArray::try_new(
            bytes_array(vec![0u8; 17]),
            vec![],
            DType::Utf8(Nullability::NonNullable),
            Validity::NonNullable
        ),
        Err(VortexError::InvalidArgument)
    ));
}

#[test]
fn a_view_that_points_outside_fails_when_it_is_read() {
    let views = views_of(&[
        BinaryView::new_inlined(b"fine"),
        BinaryView::new_view(20, *b"abcd", 0, 10),
        BinaryView::new_view(20, *b"abcd", 3, 0),
        BinaryView::new_view(20, *b"abcd", 0, 0),
        BinaryView::new_view(u32::MAX, *b"abcd", 0, u32::MAX),
    ]);
    let buffers = vec![bytes_array(b"abcdefghijklmnopqrstuvwxyz".to_vec())];
    let array = VarBinViewArray::try_new(
        views,
        buffers,
        DType::Binary(Nullability::Nullable),
        Validity::Array(Buffer::from_vec(vec![true, true, false, true, true])),
    )
    .unwrap();
    assert_eq!(array.len(), 5);
    assert_eq!(
        array.scalar_at(0).unwrap(),
        Scalar::binary(b"fine".to_vec(), Nullability::Nullable)
    );
    assert_eq!(array.scalar_at(1), Err(VortexError::OutOfRange));
    assert!(matches!(array.bytes_at(2), Err(VortexError::OutOfRange)));
    assert_eq!(
        array.scalar_at(2).unwrap(),
        Scalar::null(DType::Binary(Nullability::Nullable))
    );
    assert_eq!(
        array.scalar_at(3).unwrap(),
        Scalar::binary(b"abcdefghijklmnopqrst".to_vec(), Nullability::Nullable)
    );
    assert_eq!(array.scalar_at(4), Err(VortexError::OutOfRange));
    let sliced = array.slice(1, 4).unwrap();
    assert_eq!(sliced.scalar_at(0), Err(VortexError::OutOfRange));
    assert!(sliced.scalar_at(1).unwrap().is_null());
    assert!(matches!(array.as_arrow(), Err(VortexError::InvalidArgument)));
    assert!(matches!(
        array.into_canonical(),
        Err(VortexError::InvalidArgument)
    ));
}

#[test]
fn views_walk_over_every_view() {
    let array = VarBinViewArray::from_iter_str(&["a", "a long string of many bytes", "c"]);
    let mut views = array.binary_views().unwrap();
    let mut lens = Vec::new();
    let mut inlined = Vec::new();
    while let Some(view) = views.next() {
        lens.push(view.len());
        inlined.push(view.is_inlined());
    }
    assert_eq!(lens, vec![1, 27, 1]);
    assert_eq!(inlined, vec![true, false, true]);
    assert!(views.next().is_none());
}

#[test]
fn buffers_walk_over_every_data_buffer() {
    let views = views_of(&[BinaryView::new_inlined(b"")]);
    let array = VarBinViewArray::try_new(
        views,
        vec![bytes_array(vec![1, 2, 3]), bytes_array(vec![]), bytes_array(vec![9; 40])],
        DType::Binary(Nullability::NonNullable),
        Validity::NonNullable,
    )
    .unwrap();
    assert_eq!(array.buffer_count(), 3);
    let mut buffers = array.buffers();
    let mut lens = Vec::new();
    while let Some(buffer) = buffers.next() {
        assert_eq!(buffer.dtype(), DType::bytes());
        lens.push(buffer.len());
    }
    assert_eq!(lens, vec![3, 0, 40]);
    assert!(buffers.next().is_none());
}

#[test]
fn validity_comes_back_as_it_was_given() {
    let array = VarBinViewArray::try_new(
        bytes_array(vec![0u8; 48]),
        vec![],
        DType::Utf8(Nullability::Nullable),
        Validity::Array(Buffer::from_vec(vec![true, false, true])),
    )
    .unwrap();
    match array.validity() {
        Validity::Array(flags) => assert_eq!(flags.to_vec(), vec![true, false, true]),
        other => panic!("unexpected validity {:?}", other),
    }
    assert!(array.is_valid(0));
    assert!(!array.is_valid(1));
    assert_eq!(
        array.logical_validity().to_null_buffer(),
        Some(vec![true, false, true])
    );
    let children = array.children();
    assert_eq!(children.len(), 2);
    assert_eq!(children[1].dtype(), DType::Bool(Nullability::NonNullable));
    assert_eq!(children[1].len(), 3);
    let all_invalid = VarBinViewArray::try_new(
        bytes_array(vec![0u8; 32]),
        vec![],
        DType::Utf8(Nullability::Nullable),
        Validity::AllInvalid,
    )
    .unwrap();
    assert!(matches!(all_invalid.validity(), Validity::AllInvalid));
    assert_eq!(
        all_invalid.logical_validity().to_null_buffer(),
        Some(vec![false, false])
    );
    assert_eq!(
        all_invalid.scalar_at(1).unwrap(),
        Scalar::null(DType::Utf8(Nullability::Nullable))
    );
}

struct Names {
    names: Vec<String>,
    lens: Vec<usize>,
    validities: usize,
    fail_at: Option<usize>,
}

impl ArrayVisitor for Names {
    fn visit_child(&mut self, name: &str, array: &Array) -> VortexResult<()> {
        if self.fail_at == Some(self.names.len()) {
            return Err(VortexError::OutOfRange);
        }
        self.names.push(name.to_string());
        self.lens.push(array.len());
        Ok(())
    }

    fn visit_validity(&mut self, _validity: &Validity) -> VortexResult<()> {
        self.validities += 1;
        Ok(())
    }
}

#[test]
fn accept_shows_every_child_by_name() {
    let array = VarBinViewArray::try_new(
        bytes_array(vec![0u8; 16]),
        vec![bytes_array(vec![1, 2, 3]), bytes_array(vec![4; 11])],
        DType::Binary(Nullability::NonNullable),
        Validity::NonNullable,
    )
    .unwrap();
    assert_eq!(
        array.child_names(),
        vec!["views".to_string(), "bytes_0".to_string(), "bytes_1".to_string()]
    );
    let mut visitor = Names { names: vec![], lens: vec![], validities: 0, fail_at: None };
    array.accept(&mut visitor).unwrap();
    assert_eq!(visitor.names, vec!["views", "bytes_0", "bytes_1"]);
    assert_eq!(visitor.lens, vec![16, 3, 11]);
    assert_eq!(visitor.validities, 1);
    let mut failing = Names { names: vec![], lens: vec![], validities: 0, fail_at: Some(1) };
    assert_eq!(array.accept(&mut failing), Err(VortexError::OutOfRange));
    assert_eq!(failing.names, vec!["views"]);
    assert_eq!(failing.validities, 0);
}

#[test]
fn children_are_counted_by_a_visitor() {
    let plain = VarBinViewArray::try_new(
        bytes_array(vec![0u8; 16]),
        vec![bytes_array(vec![1, 2, 3]), bytes_array(vec![4; 11])],
        DType::Binary(Nullability::NonNullable),
        Validity::NonNullable,
    )
    .unwrap();
    assert_eq!(plain.nchildren(), Ok(3));
    assert_eq!(plain.children().len(), 3);
    let with_flags = VarBinViewArray::try_new(
        bytes_array(vec![0u8; 16]),
        vec![],
        DType::Binary(Nullability::Nullable),
        Validity::Array(Buffer::from_vec(vec![false])),
    )
    .unwrap();
    assert_eq!(with_flags.nchildren(), Ok(2));
    assert_eq!(with_flags.clone().into_array().children().len(), 2);
    let mut counter = ChildCount::new();
    with_flags.accept(&mut counter).unwrap();
    plain.accept(&mut counter).unwrap();
    assert_eq!(counter.children(), 5);
    let all_valid = VarBinViewArray::try_new(
        bytes_array(vec![0u8; 16]),
        vec![],
        DType::Binary(Nullability::Nullable),
        Validity::AllValid,
    )
    .unwrap();
    assert_eq!(all_valid.nchildren(), Ok(1));
}

#[test]
fn share_gives_the_same_array() {
    let array = VarBinViewArray::from_iter_nullable_str(&[
        Some("x"),
        None,
        Some("a long string, longer than twelve"),
    ]);
    let shared = array.share();
    assert_eq!(shared.len(), 3);
    for i in 0..3 {
        assert_eq!(shared.scalar_at(i), array.scalar_at(i));
    }
    assert!(shared.data_buffers()[0].ptr_eq(&array.data_buffers()[0]));
}

#[test]
fn try_from_iter_takes_what_from_iter_takes() {
    let values: [Option<&[u8]>; 3] = [Some(b"abc"), None, Some(b"longer than twelve bytes")];
    let array =
        VarBinViewArray::try_from_iter(&values, DType::Binary(Nullability::Nullable)).unwrap();
    assert_eq!(array.len(), 3);
    assert_eq!(
        array.scalar_at(0).unwrap(),
        Scalar::binary(b"abc".to_vec(), Nullability::Nullable)
    );
    assert!(array.scalar_at(1).unwrap().is_null());
    assert_eq!(
        array.scalar_at(2).unwrap(),
        Scalar::binary(b"longer than twelve bytes".to_vec(), Nullability::Nullable)
    );
    let strings = VarBinViewArray::try_from_iter(
        &[Some(b"x".as_slice())],
        DType::Utf8(Nullability::NonNullable),
    )
    .unwrap();
    assert_eq!(strings.scalar_at(0).unwrap(), Scalar::from("x"));
}

#[test]
fn try_from_iter_says_why_it_refuses() {
    let values: [Option<&[u8]>; 2] = [Some(b"abc"), None];
    assert!(matches!(
        VarBinViewArray::try_from_iter(&values, DType::Bool(Nullability::Nullable)),
        Err(VortexError::MismatchedTypes)
    ));
    assert!(matches!(
        VarBinViewArray::try_from_iter(&values, DType::Null),
        Err(VortexError::MismatchedTypes)
    ));
    assert!(matches!(
        VarBinViewArray::try_from_iter(&values, DType::Utf8(Nullability::NonNullable)),
        Err(VortexError::InvalidValidity)
    ));
    assert!(VarBinViewArray::try_from_iter(&values, DType::Utf8(Nullability::Nullable)).is_ok());
}

#[test]
fn values_of_more_bytes_than_one_build_takes_are_refused() {
    let block = vec![0u8; 1 << 26];
    let many: Vec<Option<&[u8]>> = (0..64).map(|_| Some(block.as_slice())).collect();
    assert!(matches!(
        VarBinViewArray::try_from_iter(&many, DType::Binary(Nullability::NonNullable)),
        Err(VortexError::NumericOverflow)
    ));
    let nulls_first: Vec<Option<&[u8]>> =
        std::iter::once(None).chain((0..64).map(|_| Some(block.as_slice()))).collect();
    assert!(matches!(
        VarBinViewArray::try_from_iter(&nulls_first, DType::Binary(Nullability::NonNullable)),
        Err(VortexError::InvalidValidity)
    ));
}

#[test]
fn data_buffers_are_named_by_their_number() {
    let buffers: Vec<Array> = (0..12).map(|_| bytes_array(vec![1, 2, 3])).collect();
    let array = VarBinViewArray::try_new(
        bytes_array(vec![0u8; 16]),
        buffers,
        DType::Binary(Nullability::NonNullable),
        Validity::NonNullable,
    )
    .unwrap();
    let names = array.child_names();
    assert_eq!(names.len(), 13);
    assert_eq!(names[0], "views");
    assert_eq!(names[1], "bytes_0");
    assert_eq!(names[10], "bytes_9");
    assert_eq!(names[11], "bytes_10");
    assert_eq!(names[12], "bytes_11");
    assert_eq!(array.nchildren(), Ok(13));
}
