use vortex_array::context::Context;
use vortex_array::encoding;
use vortex_array::encoding::Encoding;
use vortex_array::encoding::EncodingId;
use vortex_array::error::VortexError;

#[test]
fn default_context_holds_the_built_in_encodings() {
    let context = Context::default();
    let expected = [
        (encoding::NULL, "vortex.null"),
        (encoding::BOOL, "vortex.bool"),
        (encoding::PRIMITIVE, "vortex.primitive"),
        (encoding::STRUCT, "vortex.struct"),
        (encoding::VAR_BIN, "vortex.varbin"),
        (encoding::VAR_BIN_VIEW, "vortex.varbinview"),
        (encoding::EXTENSION, "vortex.ext"),
        (encoding::SPARSE, "vortex.sparse"),
        (encoding::CONSTANT, "vortex.constant"),
        (encoding::CHUNKED, "vortex.chunked"),
    ];
    for (code, name) in expected {
        let found = context.lookup_encoding(code).unwrap();
        assert_eq!(found.id().code(), code);
        assert_eq!(found.id().name(), name);
    }
    assert_eq!(context.encodings().len(), 10);
    let mut codes: Vec<u16> = context.encodings().iter().map(|e| e.id().code()).collect();
    codes.sort();
    assert_eq!(codes, vec![1, 2, 3, 4, 5, 6, 7, 8, 9, 10]);
}

#[test]
fn unknown_code_is_not_found() {
    let context = Context::default();
    assert!(context.lookup_encoding(0).is_none());
    assert!(context.lookup_encoding(11).is_none());
    assert!(context.lookup_encoding(u16::MAX).is_none());
    assert_eq!(context.require_encoding(11), Err(VortexError::UnknownEncoding));
    assert_eq!(
        context.require_encoding(encoding::VAR_BIN_VIEW).unwrap().id().name(),
        "vortex.varbinview"
    );
    assert!(Context::empty().lookup_encoding(encoding::BOOL).is_none());
    assert_eq!(Context::empty().encodings().len(), 0);
}

#[test]
fn with_encoding_adds_and_replaces() {
    let fancy = Encoding::new("fancy.runend", 100);
    let context = Context::default().with_encoding(fancy);
    assert_eq!(context.lookup_encoding(100), Some(fancy));
    assert_eq!(context.encodings().len(), 11);
    assert_eq!(
        context.lookup_encoding(encoding::BOOL).unwrap().id().name(),
        "vortex.bool"
    );
    let other_bool = Encoding::new("other.bool", encoding::BOOL);
    let replaced = context.with_encoding(other_bool);
    assert_eq!(replaced.lookup_encoding(encoding::BOOL), Some(other_bool));
    assert_eq!(replaced.encodings().len(), 11);
}

#[test]
fn with_encodings_adds_each_and_the_last_wins() {
    let first = Encoding::new("first", 200);
    let second = Encoding::new("second", 201);
    let third = Encoding::new("third", 200);
    let context = Context::default().with_encodings(vec![first, second, third]);
    assert_eq!(context.lookup_encoding(200), Some(third));
    assert_eq!(context.lookup_encoding(201), Some(second));
    assert_eq!(context.encodings().len(), 12);
    let same = Context::default().with_encodings(vec![]);
    assert_eq!(same.encodings().len(), 10);
}

#[test]
fn encoding_identity_keeps_name_and_code() {
    let id = EncodingId::new("some.name", 77);
    assert_eq!(id.name(), "some.name");
    assert_eq!(id.code(), 77);
    assert_eq!(encoding::var_bin_view_encoding().id().code(), 6);
}
