use vortex_array::array::varbinview::view::BinaryView;
use vortex_array::array::varbinview::view::Inlined;
use vortex_array::array::varbinview::view::Ref;
use vortex_array::array::varbinview::view::VIEW_SIZE_BYTES;

#[test]
fn sizes_are_as_the_layout_says() {
    assert_eq!(VIEW_SIZE_BYTES, 16);
    assert_eq!(BinaryView::MAX_INLINED_SIZE, 12);
}

#[test]
fn inlined_holds_its_value() {
    let inlined = Inlined::new(b"hello");
    assert_eq!(inlined.value(), b"hello");
    let empty = Inlined::new(b"");
    assert_eq!(empty.value(), b"");
    let full = Inlined::new(b"0123456789ab");
    assert_eq!(full.value(), b"0123456789ab");
}

#[test]
fn reference_holds_its_fields() {
    let reference = Ref::new(20, *b"Rust", 3, 42);
    assert_eq!(reference.buffer_index(), 3);
    assert_eq!(reference.offset(), 42);
    assert_eq!(reference.prefix(), b"Rust");
}

#[test]
fn inlined_view_is_length_then_value_then_zeros() {
    let view = BinaryView::new_inlined(b"hello");
    assert_eq!(
        view.to_le_bytes(),
        [5, 0, 0, 0, b'h', b'e', b'l', b'l', b'o', 0, 0, 0, 0, 0, 0, 0]
    );
    assert_eq!(view.len(), 5);
    assert!(view.is_inlined());
    assert!(view.is_empty());
    assert_eq!(view.as_inlined().value(), b"hello");
    let empty = BinaryView::new_inlined(b"");
    assert_eq!(empty.to_le_bytes(), [0u8; 16]);
    assert!(!empty.is_empty());
    assert!(empty.is_inlined());
    assert_eq!(empty.as_u128(), 0);
    let full = BinaryView::new_inlined(b"0123456789ab");
    assert_eq!(
        full.to_le_bytes(),
        [12, 0, 0, 0, b'0', b'1', b'2', b'3', b'4', b'5', b'6', b'7', b'8', b'9', b'a', b'b']
    );
    assert!(full.is_inlined());
    assert_eq!(full.as_inlined().value(), b"0123456789ab");
}

#[test]
fn reference_view_is_four_little_endian_fields() {
    let view = BinaryView::new_view(20, *b"Rust", 3, 42);
    assert_eq!(
        view.to_le_bytes(),
        [20, 0, 0, 0, b'R', b'u', b's', b't', 3, 0, 0, 0, 42, 0, 0, 0]
    );
    assert_eq!(view.len(), 20);
    assert!(!view.is_inlined());
    assert!(view.is_empty());
    let reference = view.as_view();
    assert_eq!(reference.prefix(), b"Rust");
    assert_eq!(reference.buffer_index(), 3);
    assert_eq!(reference.offset(), 42);
    assert_eq!(view.as_u128(), 0x2a000000037473755200000014);
}

#[test]
fn fields_use_all_four_bytes() {
    let view = BinaryView::new_view(0x0102_0304, [0xaa, 0xbb, 0xcc, 0xdd], 0xfffe_fdfc, u32::MAX);
    assert_eq!(
        view.to_le_bytes(),
        [
            0x04, 0x03, 0x02, 0x01, 0xaa, 0xbb, 0xcc, 0xdd, 0xfc, 0xfd, 0xfe, 0xff, 0xff, 0xff,
            0xff, 0xff
        ]
    );
    assert_eq!(view.len(), 0x0102_0304);
    assert_eq!(view.as_view().buffer_index(), 0xfffe_fdfc);
    assert_eq!(view.as_view().offset(), u32::MAX);
    assert_eq!(view.as_u128(), u128::from_le_bytes(view.to_le_bytes()));
}

#[test]
fn thirteen_is_the_first_length_that_is_not_inlined() {
    let mut bytes = [0u8; 16];
    bytes[0] = 12;
    assert!(BinaryView::from_le_bytes(bytes).is_inlined());
    bytes[0] = 13;
    assert!(!BinaryView::from_le_bytes(bytes).is_inlined());
    bytes[0] = 0;
    bytes[1] = 1;
    let view = BinaryView::from_le_bytes(bytes);
    assert_eq!(view.len(), 256);
    assert!(!view.is_inlined());
}

#[test]
fn bytes_come_back_from_a_view() {
    let bytes = [9, 0, 0, 0, 1, 2, 3, 4, 5, 6, 7, 8, 9, 77, 78, 79];
    let view = BinaryView::from_le_bytes(bytes);
    assert_eq!(view.to_le_bytes(), bytes);
    assert_eq!(view.as_inlined().value(), &[1, 2, 3, 4, 5, 6, 7, 8, 9]);
    assert_eq!(view.as_view().prefix(), &[1, 2, 3, 4]);
    assert_eq!(view.as_view().buffer_index(), u32::from_le_bytes([5, 6, 7, 8]));
    assert_eq!(view.as_view().offset(), u32::from_le_bytes([9, 77, 78, 79]));
    assert_eq!(view.as_u128(), u128::from_le_bytes(bytes));
}

#[test]
fn views_match_the_ones_that_arrow_builds() {
    let values = ["", "short", "exactly12byt", "a value of more than twelve bytes"];
    let arrow = arrow_array::StringViewArray::from(values.to_vec());
    let words = arrow.views();
    for (i, value) in values.iter().enumerate() {
        let view = if value.len() <= BinaryView::MAX_INLINED_SIZE {
            BinaryView::new_inlined(value.as_bytes())
        } else {
            let mut prefix = [0u8; 4];
            prefix.copy_from_slice(&value.as_bytes()[..4]);
            BinaryView::new_view(value.len() as u32, prefix, 0, 0)
        };
        assert_eq!(view.as_u128(), words[i]);
    }
}
