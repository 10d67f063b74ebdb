//! Single values read out of arrays.
use crate::dtype::DType;
use crate::dtype::Nullability;
use crate::dtype::PType;
use vstd::prelude::*;
use vstd::string::StringSliceAdditionalSpecFns;

verus! {

/// The payload of a scalar, as a mathematical value.
pub enum ValueView {
    Null,
    Bool(bool),
    U8(u8),
    Bytes(Seq<u8>),
}

/// A scalar, as a mathematical value.
pub struct ScalarView {
    pub dtype: DType,
    pub value: ValueView,
}

/// The payload of a scalar.
#[derive(Clone, Debug, PartialEq, Eq)]
pub enum ScalarValue {
    Null,
    Bool(bool),
    U8(u8),
    Bytes(Vec<u8>),
}

impl View for ScalarValue {
    type V = ValueView;

    open spec fn view(&self) -> ValueView {
        match *self {
            ScalarValue::Null => ValueView::Null,
            ScalarValue::Bool(b) => ValueView::Bool(b),
            ScalarValue::U8(b) => ValueView::U8(b),
            ScalarValue::Bytes(bytes) => ValueView::Bytes(bytes@),
        }
    }
}

/// One value together with its logical type. A scalar owns its bytes.
#[derive(Clone, Debug, PartialEq, Eq)]
pub struct Scalar {
    dtype: DType,
    value: ScalarValue,
}

impl View for Scalar {
    type V = ScalarView;

    closed spec fn view(&self) -> ScalarView {
        ScalarView { dtype: self.dtype, value: self.value@ }
    }
}

/// The null of type `dtype`.
pub open spec fn null_scalar(dtype: DType) -> ScalarView {
    ScalarView { dtype, value: ValueView::Null }
}

/// The scalar of a variable-length type that holds `bytes`.
pub open spec fn varbin_scalar_view(bytes: Seq<u8>, dtype: DType) -> ScalarView {
    ScalarView { dtype, value: ValueView::Bytes(bytes) }
}

/// The boolean scalar that holds `value`, or the boolean null for `None`.
pub open spec fn bool_scalar(value: Option<bool>, nullability: Nullability) -> ScalarView {
    ScalarView {
        dtype: DType::Bool(nullability),
        value: match value {
            Some(b) => ValueView::Bool(b),
            None => ValueView::Null,
        },
    }
}

impl Scalar {
    /// The null of type `dtype`.
    pub fn null(dtype: DType) -> (scalar: Scalar)
        ensures
            scalar@ == null_scalar(dtype),
    {
        Scalar { dtype, value: ScalarValue::Null }
    }

    /// The boolean scalar that holds `value`, or the boolean null for `None`.
    pub fn bool(value: Option<bool>, nullability: Nullability) -> (scalar: Scalar)
        ensures
            scalar@ == bool_scalar(value, nullability),
    {
        Scalar {
            dtype: DType::Bool(nullability),
            value: match value {
                Some(b) => ScalarValue::Bool(b),
                None => ScalarValue::Null,
            },
        }
    }

    /// The byte scalar that holds `value`.
    pub fn byte(value: u8, nullability: Nullability) -> (scalar: Scalar)
        ensures
            scalar@ == (ScalarView {
                dtype: DType::Primitive(PType::U8, nullability),
                value: ValueView::U8(value),
            }),
    {
        Scalar { dtype: DType::Primitive(PType::U8, nullability), value: ScalarValue::U8(value) }
    }

    /// The string scalar whose UTF-8 encoding is `bytes`.
    pub fn utf8(bytes: Vec<u8>, nullability: Nullability) -> (scalar: Scalar)
        ensures
            scalar@ == varbin_scalar_view(bytes@, DType::Utf8(nullability)),
    {
        Scalar { dtype: DType::Utf8(nullability), value: ScalarValue::Bytes(bytes) }
    }

    /// The binary scalar that holds `bytes`.
    pub fn binary(bytes: Vec<u8>, nullability: Nullability) -> (scalar: Scalar)
        ensures
            scalar@ == varbin_scalar_view(bytes@, DType::Binary(nullability)),
    {
        Scalar { dtype: DType::Binary(nullability), value: ScalarValue::Bytes(bytes) }
    }

    /// The non-nullable string scalar that holds `text`.
    pub fn from_str(text: &str) -> (scalar: Scalar)
        ensures
            scalar@ == varbin_scalar_view(
                text.spec_bytes(),
                DType::Utf8(Nullability::NonNullable),
            ),
    {
        Scalar::utf8(vstd::slice::slice_to_vec(text.as_bytes()), Nullability::NonNullable)
    }

    /// The logical type of the scalar.
    pub fn dtype(&self) -> (dtype: DType)
        ensures
            dtype == self@.dtype,
    {
        self.dtype
    }

    /// The payload of the scalar.
    pub fn value(&self) -> (value: &ScalarValue)
        ensures
            value@ == self@.value,
    {
        &self.value
    }

    /// Whether the scalar is a null.
    pub fn is_null(&self) -> (null: bool)
        ensures
            null == (self@.value is Null),
    {
        match &self.value {
            ScalarValue::Null => true,
            _ => false,
        }
    }

    /// The bytes of a scalar of a variable-length type, unless it is a null.
    pub fn as_bytes(&self) -> (bytes: Option<&[u8]>)
        ensures
            match bytes {
                Some(b) => self@.value == ValueView::Bytes(b@),
                None => !(self@.value is Bytes),
            },
    {
        match &self.value {
            ScalarValue::Bytes(b) => Some(b.as_slice()),
            _ => None,
        }
    }
}

impl From<&str> for Scalar {
    /// The non-nullable string scalar that holds `text`.
    fn from(text: &str) -> (scalar: Scalar)
        ensures
            scalar@ == varbin_scalar_view(
                text.spec_bytes(),
                DType::Utf8(Nullability::NonNullable),
            ),
    {
        Scalar::from_str(text)
    }
}

impl vstd::std_specs::convert::FromSpecImpl<&str> for Scalar {
    /// The conversion is specified by what `from` ensures of the view of its
    /// result, not by a value.
    open spec fn obeys_from_spec() -> bool {
        false
    }

    open spec fn from_spec(text: &str) -> Scalar {
        arbitrary()
    }
}

/// The scalar that holds `bytes`: a string scalar for a string type, and a
/// binary scalar with the nullability of `dtype` for any other.
pub fn varbin_scalar(bytes: Vec<u8>, dtype: DType) -> (scalar: Scalar)
    ensures
        scalar@ == varbin_scalar_view(
            bytes@,
            if dtype is Utf8 {
                dtype
            } else {
                DType::Binary(dtype.spec_nullability())
            },
        ),
{
    match dtype {
        DType::Utf8(nullability) => Scalar::utf8(bytes, nullability),
        other => Scalar::binary(bytes, other.nullability()),
    }
}

} // verus!
